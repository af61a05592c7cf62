//! What holds of the commands taken together.

use crate::commands::{
    channels_plan, connection_plan, connection_report, embed_plan, is_not_configured,
    message_plan, post_request, search_plan, servers_plan, wrapped_answer, ApiResponseView,
};
use crate::config::{after_set, is_base_url, stored_config, ApiConfigView};
use crate::encoding::{encoded_segment, is_segment_char, lemma_encoded_is_one_segment};
use crate::executor::{
    answer_of, http_failure_text, is_success_status, lossy_text, names_status_and_body,
    status_in_error, HttpOutcome, HttpOutcomeView,
};
use crate::json::{is_plain_char, lemma_plain_text_is_unescaped, parsed_json};
use crate::payload::{channel_message_json, EmbedData};
use crate::text::{
    decimal_text, has_prefix, lemma_contains_after_prefix, lemma_prefix_of_concat,
    lemma_trim_idempotent, lemma_without_trailing_slashes,
};
use vstd::prelude::*;
use vstd::utf8::{decode_utf8, encode_utf8, valid_utf8};

verus! {

/// The stored base URL is the given URL without the `/` characters at its
/// end: it is a prefix of what was given, it does not end in `/`, and
/// nothing but `/` was cut off.
pub proof fn law_stored_url_is_trimmed(server_url: Seq<char>, api_secret: Seq<char>)
    ensures
        ({
            let stored = stored_config(server_url, api_secret).server_url;
            &&& is_base_url(stored)
            &&& stored.len() <= server_url.len()
            &&& stored == server_url.subrange(0, stored.len() as int)
            &&& forall|i: int| stored.len() <= i < server_url.len() ==> server_url[i] == '/'
        }),
        stored_config(server_url, api_secret).api_secret == api_secret,
{
    lemma_without_trailing_slashes(server_url);
}

/// Setting the configuration is idempotent. Setting it a second time with
/// the same input leaves the store as the first time did, whatever it held
/// before, and so does setting it with the URL that was stored.
pub proof fn law_set_config_is_idempotent(
    before: Option<ApiConfigView>,
    server_url: Seq<char>,
    api_secret: Seq<char>,
)
    ensures
        after_set(after_set(before, server_url, api_secret), server_url, api_secret) == after_set(
            before,
            server_url,
            api_secret,
        ),
        after_set(before, stored_config(server_url, api_secret).server_url, api_secret)
            == after_set(before, server_url, api_secret),
{
    lemma_trim_idempotent(server_url);
}

/// While no configuration is set, every command fails with an error that
/// says so, and plans no call.
pub proof fn law_no_call_before_configuration(
    server_id: Seq<char>,
    query: Seq<char>,
    channel_id: Option<Seq<char>>,
    user_id: Option<Seq<char>>,
    message: Seq<char>,
    embed_data: EmbedData,
)
    ensures
        servers_plan(None) matches Err(error) && is_not_configured(error),
        channels_plan(None, server_id) matches Err(error) && is_not_configured(error),
        search_plan(None, query) matches Err(error) && is_not_configured(error),
        message_plan(None, channel_id, user_id, message) matches Err(error) && is_not_configured(
            error,
        ),
        embed_plan(None, channel_id, user_id, embed_data) matches Err(error) && is_not_configured(
            error,
        ),
        connection_plan(None) matches Err(error) && is_not_configured(error),
{
}

/// A plain message needs an addressee: with neither a channel nor a user the
/// command plans no call, whatever the message is.
pub proof fn law_message_needs_addressee(config: ApiConfigView, message: Seq<char>)
    ensures
        message_plan(Some(config), None, None, message) == Err::<
            crate::executor::HttpRequestView,
            Seq<char>,
        >("Either channel_id or user_id must be provided"@),
{
}

/// A plain message to a channel is posted to `/api/send-message`, whether or
/// not a user is given too. Where neither the channel's id nor the message
/// holds a character that JSON escapes, the payload holds both as they are,
/// between double quotes.
pub proof fn law_channel_message_payload(
    config: ApiConfigView,
    channel_id: Seq<char>,
    user_id: Option<Seq<char>>,
    message: Seq<char>,
)
    requires
        forall|i: int| 0 <= i < channel_id.len() ==> is_plain_char(#[trigger] channel_id[i]),
        forall|i: int| 0 <= i < message.len() ==> is_plain_char(#[trigger] message[i]),
    ensures
        message_plan(Some(config), Some(channel_id), user_id, message) == Ok::<
            crate::executor::HttpRequestView,
            Seq<char>,
        >(post_request(config, "/api/send-message"@, channel_message_json(channel_id, message))),
        channel_message_json(channel_id, message) == "{\"channelId\":"@ + (seq!['"'] + channel_id
            + seq!['"']) + ",\"message\":"@ + (seq!['"'] + message + seq!['"']) + "}"@,
{
    lemma_plain_text_is_unescaped(channel_id);
    lemma_plain_text_is_unescaped(message);
}

/// User input stays one path segment: what a server's id or a query becomes
/// in a URL holds only ASCII letters, digits, `-`, `.`, `_`, `~` and `%`, so
/// no `/`, `?` or `#` of the input reaches the URL.
pub proof fn law_input_stays_one_segment(input: Seq<char>)
    ensures
        forall|i: int|
            0 <= i < encoded_segment(input).len() ==> is_segment_char(
                #[trigger] encoded_segment(input)[i],
            ),
        forall|i: int|
            0 <= i < encoded_segment(input).len() ==> {
                let c = #[trigger] encoded_segment(input)[i];
                c != '/' && c != '?' && c != '#' && c != ' '
            },
{
    lemma_encoded_is_one_segment(encode_utf8(input));
    assert forall|i: int| 0 <= i < encoded_segment(input).len() implies {
        let c = #[trigger] encoded_segment(input)[i];
        c != '/' && c != '?' && c != '#' && c != ' '
    } by {
        assert(is_segment_char(encoded_segment(input)[i]));
    }
}

/// Where the remote API answers the test of the connection with a status
/// outside 200 to 299, the error is `Connection failed: `, then `HTTP `, the
/// text of the status, `: ` and the text of the body.
pub proof fn law_connection_failure_text(status: u16, body: Seq<u8>)
    requires
        !is_success_status(status),
    ensures
        connection_report(
            answer_of(HttpOutcomeView::Response { status, body: Ok(body) }),
        ) == Err::<ApiResponseView, Seq<char>>(
            "Connection failed: "@ + ("HTTP "@ + status_in_error(status) + ": "@ + lossy_text(body)),
        ),
{
}

/// The error of a failed test of the connection begins with
/// `Connection failed: ` and names the status and the body that the error
/// behind it names.
pub proof fn law_connection_failure_names_status_and_body(
    error: Seq<char>,
    status: u16,
    body: Result<Seq<u8>, Seq<char>>,
)
    requires
        names_status_and_body(error, status, body),
    ensures
        connection_report(Err(error)) matches Err(report) && has_prefix(
            report,
            "Connection failed: "@,
        ) && names_status_and_body(report, status, body),
{
    let prefix = "Connection failed: "@;
    lemma_prefix_of_concat(prefix, error);
    lemma_contains_after_prefix(prefix, error, decimal_text(status as nat));
    match body {
        Ok(bytes) => {
            if valid_utf8(bytes) {
                lemma_contains_after_prefix(prefix, error, decode_utf8(bytes));
            }
        },
        Err(_) => {},
    }
}

/// The status decides how a response is read. Outside 200 to 299 the answer
/// is the error that names the status, whatever the body holds; from 200 to
/// 299 a body that is JSON gives its value, unchanged.
pub proof fn law_status_decides(status: u16, body: Seq<u8>)
    ensures
        !is_success_status(status) ==> answer_of(
            HttpOutcomeView::Response { status, body: Ok(body) },
        ) == Err::<serde_json::Value, Seq<char>>(http_failure_text(status, Ok(body))),
        is_success_status(status) ==> (parsed_json(body) matches Ok(value) ==> answer_of(
            HttpOutcomeView::Response { status, body: Ok(body) },
        ) == Ok::<serde_json::Value, Seq<char>>(value)),
{
}

/// What a command gives for an outcome depends on the outcome alone: equal
/// outcomes are read alike, and reported alike.
pub proof fn law_equal_outcomes_equal_results(first: HttpOutcome, second: HttpOutcome)
    requires
        first@ == second@,
    ensures
        answer_of(first@) == answer_of(second@),
        wrapped_answer(answer_of(first@), "Message sent successfully"@) == wrapped_answer(
            answer_of(second@),
            "Message sent successfully"@,
        ),
        connection_report(answer_of(first@)) == connection_report(answer_of(second@)),
{
}

} // verus!
