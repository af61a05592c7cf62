//! Percent-encoding of the path segments that carry user input.

use vstd::prelude::*;
use vstd::utf8::*;

verus! {

/// The bytes that percent-encoding leaves as they are: ASCII letters and
/// digits, `-`, `.`, `_` and `~`.
pub open spec fn is_unreserved(byte: u8) -> bool {
    ||| 0x30 <= byte <= 0x39
    ||| 0x41 <= byte <= 0x5a
    ||| 0x61 <= byte <= 0x7a
    ||| byte == 0x2d
    ||| byte == 0x2e
    ||| byte == 0x5f
    ||| byte == 0x7e
}

/// The upper-case hexadecimal digit for a value below sixteen.
pub open spec fn hex_upper(digit: u8) -> char {
    if digit < 10 {
        (0x30 + digit) as u8 as char
    } else {
        (0x41 - 10 + digit) as u8 as char
    }
}

/// What one byte becomes: itself where it is unreserved, else `%` and its
/// two hexadecimal digits.
pub open spec fn encoded_byte(byte: u8) -> Seq<char> {
    if is_unreserved(byte) {
        seq![byte as char]
    } else {
        seq!['%', hex_upper(byte / 16), hex_upper(byte % 16)]
    }
}

/// The percent-encoding of a sequence of bytes, byte by byte.
pub open spec fn percent_encoded(bytes: Seq<u8>) -> Seq<char>
    decreases bytes.len(),
{
    if bytes.len() == 0 {
        Seq::empty()
    } else {
        percent_encoded(bytes.drop_last()) + encoded_byte(bytes.last())
    }
}

/// The percent-encoding of a text: that of its UTF-8 bytes.
pub open spec fn encoded_segment(text: Seq<char>) -> Seq<char> {
    percent_encoded(encode_utf8(text))
}

/// A character that may stand in an encoded segment: an unreserved ASCII
/// character or `%`.
pub open spec fn is_segment_char(c: char) -> bool {
    ||| '0' <= c <= '9'
    ||| 'A' <= c <= 'Z'
    ||| 'a' <= c <= 'z'
    ||| c == '-'
    ||| c == '.'
    ||| c == '_'
    ||| c == '~'
    ||| c == '%'
}

/// An encoded text holds nothing but unreserved characters and `%`. In
/// particular it holds no `/`, `?` or `#`, so it stays one path segment
/// wherever it is put into a URL.
pub proof fn lemma_encoded_is_one_segment(bytes: Seq<u8>)
    ensures
        forall|i: int|
            0 <= i < percent_encoded(bytes).len() ==> is_segment_char(
                #[trigger] percent_encoded(bytes)[i],
            ),
    decreases bytes.len(),
{
    if bytes.len() > 0 {
        lemma_encoded_is_one_segment(bytes.drop_last());
        let head = percent_encoded(bytes.drop_last());
        let tail = encoded_byte(bytes.last());
        let byte = bytes.last();
        assert(forall|j: int| 0 <= j < tail.len() ==> is_segment_char(#[trigger] tail[j])) by {
            if !is_unreserved(byte) {
                assert(byte / 16 < 16 && byte % 16 < 16);
            }
        }
        assert forall|i: int| 0 <= i < percent_encoded(bytes).len() implies is_segment_char(
            #[trigger] percent_encoded(bytes)[i],
        ) by {
            if i < head.len() {
                assert(percent_encoded(bytes)[i] == head[i]);
            } else {
                assert(percent_encoded(bytes)[i] == tail[i - head.len()]);
            }
        }
    }
}

/// Calls `urlencoding::encode`, which walks the text's UTF-8 bytes, keeps the
/// ASCII letters, digits, `-`, `.`, `_` and `~`, and writes every other byte as
/// `%` followed by its two upper-case hexadecimal digits.
#[verifier::external_body]
pub(crate) fn percent_encode(text: &str) -> (encoded: String)
    ensures
        encoded@ == encoded_segment(text@),
{
    urlencoding::encode(text).into_owned()
}

} // verus!
