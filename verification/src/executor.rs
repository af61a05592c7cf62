//! The request executor: it plans one HTTP call and reads what came back.
//!
//! The call itself is the caller's part. [`make_api_request`] says what to
//! send, the caller sends it once and reports an [`HttpOutcome`], and
//! [`read_api_response`] turns that outcome into a JSON value or an error
//! text.

use crate::json::{json_error_message, json_error_text, json_from_bytes, parsed_json};
use crate::text::{
    concat2, concat3, contains_text, decimal, decimal_text, has_prefix, lemma_contains_part,
};
use vstd::prelude::*;
use vstd::string::*;
use vstd::utf8::{decode_utf8, valid_utf8};

verus! {

/// The four supported HTTP methods.
#[derive(Clone, Copy, Debug, PartialEq, Eq, Structural)]
pub enum Method {
    Get,
    Post,
    Put,
    Delete,
}

/// One planned HTTP call.
#[derive(Debug)]
pub struct HttpRequest {
    pub method: Method,
    pub url: String,
    /// Header names with their values, in the order in which they are set.
    pub headers: Vec<(String, String)>,
    /// The raw payload, where the call has one.
    pub body: Option<String>,
}

/// What an [`HttpRequest`] holds, as mathematical values.
pub ghost struct HttpRequestView {
    pub method: Method,
    pub url: Seq<char>,
    pub headers: Seq<(Seq<char>, Seq<char>)>,
    pub body: Option<Seq<char>>,
}

/// What came back from one attempt to perform an [`HttpRequest`].
#[derive(Debug)]
pub enum HttpOutcome {
    /// No response arrived; `message` is the transport's own account of it.
    TransportFailure { message: String },
    /// A response arrived. `body` holds its bytes, or the transport's account
    /// of why they could not be read.
    Response { status: u16, body: Result<Vec<u8>, String> },
}

/// What an [`HttpOutcome`] holds, as mathematical values.
pub ghost enum HttpOutcomeView {
    TransportFailure { message: Seq<char> },
    Response { status: u16, body: Result<Seq<u8>, Seq<char>> },
}

impl View for HttpOutcome {
    type V = HttpOutcomeView;

    open spec fn view(&self) -> HttpOutcomeView {
        match *self {
            HttpOutcome::TransportFailure { message } => HttpOutcomeView::TransportFailure {
                message: message@,
            },
            HttpOutcome::Response { status, body } => HttpOutcomeView::Response {
                status,
                body: body_view(body),
            },
        }
    }
}

/// The view of a body: its bytes, or the account of why it could not be read.
pub open spec fn body_view(body: Result<Vec<u8>, String>) -> Result<Seq<u8>, Seq<char>> {
    match body {
        Ok(bytes) => Ok(bytes@),
        Err(message) => Err(message@),
    }
}

/// The view of an optional text.
pub open spec fn optional_text(text: Option<String>) -> Option<Seq<char>> {
    match text {
        Some(t) => Some(t@),
        None => None,
    }
}

/// The views of a list of headers.
pub open spec fn header_views(headers: Seq<(String, String)>) -> Seq<(Seq<char>, Seq<char>)> {
    Seq::new(headers.len(), |i: int| (headers[i].0@, headers[i].1@))
}

impl View for HttpRequest {
    type V = HttpRequestView;

    open spec fn view(&self) -> HttpRequestView {
        HttpRequestView {
            method: self.method,
            url: self.url@,
            headers: header_views(self.headers@),
            body: optional_text(self.body),
        }
    }
}

/// What reading an outcome gives, as mathematical values: the remote answer,
/// or an error text.
pub open spec fn answer_view(answer: Result<serde_json::Value, String>) -> Result<
    serde_json::Value,
    Seq<char>,
> {
    match answer {
        Ok(value) => Ok(value),
        Err(error) => Err(error@),
    }
}

/// The method that a name stands for, if it is one of the four.
pub open spec fn method_named(name: Seq<char>) -> Option<Method> {
    if name == "GET"@ {
        Some(Method::Get)
    } else if name == "POST"@ {
        Some(Method::Post)
    } else if name == "PUT"@ {
        Some(Method::Put)
    } else if name == "DELETE"@ {
        Some(Method::Delete)
    } else {
        None
    }
}

/// The headers that every call carries: the content type, and the secret in
/// the authentication header.
pub open spec fn standard_headers(api_secret: Seq<char>) -> Seq<(Seq<char>, Seq<char>)> {
    seq![("Content-Type"@, "application/json"@), ("x-api-secret"@, api_secret)]
}

/// The call that [`make_api_request`] plans for a supported method.
pub open spec fn planned_request(
    method: Method,
    url: Seq<char>,
    api_secret: Seq<char>,
    body: Option<Seq<char>>,
) -> HttpRequestView {
    HttpRequestView { method, url, headers: standard_headers(api_secret), body }
}

/// A status code from 200 to 299.
pub open spec fn is_success_status(status: u16) -> bool {
    200 <= status < 300
}

/// A number that is an HTTP status: three decimal digits, the first not 0.
pub open spec fn is_status_code(status: u16) -> bool {
    100 <= status <= 999
}

/// The text of an HTTP status, as `reqwest::StatusCode` displays it.
pub uninterp spec fn status_line(status: u16) -> Seq<char>;

/// The text that `String::from_utf8_lossy` makes of a body.
pub uninterp spec fn lossy_text(body: Seq<u8>) -> Seq<char>;

/// The text that stands for a status in an error message: that of the HTTP
/// status, or the bare number where it is none.
pub open spec fn status_in_error(status: u16) -> Seq<char> {
    if is_status_code(status) {
        status_line(status)
    } else {
        decimal_text(status as nat)
    }
}

/// The error text for a call that got no response.
pub open spec fn transport_failure_text(message: Seq<char>) -> Seq<char> {
    "Request failed: "@ + message
}

/// The error text for a response outside 200 to 299: the status, then the
/// body as text, or a placeholder where the body could not be read.
pub open spec fn http_failure_text(status: u16, body: Result<Seq<u8>, Seq<char>>) -> Seq<char> {
    "HTTP "@ + status_in_error(status) + ": "@ + match body {
        Ok(bytes) => lossy_text(bytes),
        Err(_) => "Unknown error"@,
    }
}

/// An error text names a status and a body: it holds the status as a
/// number, and the body as it is where the body is UTF-8.
pub open spec fn names_status_and_body(
    error: Seq<char>,
    status: u16,
    body: Result<Seq<u8>, Seq<char>>,
) -> bool {
    &&& contains_text(error, decimal_text(status as nat))
    &&& match body {
        Ok(bytes) => valid_utf8(bytes) ==> contains_text(error, decode_utf8(bytes)),
        Err(_) => true,
    }
}

/// The error text for a body that is no JSON.
pub open spec fn parse_failure_text(detail: Seq<char>) -> Seq<char> {
    "Failed to parse JSON: "@ + detail
}

/// What reading a body as JSON gives: the value, or the error text that
/// carries the parser's message.
pub open spec fn parsed_answer(parsed: Result<serde_json::Value, serde_json::Error>) -> Result<
    serde_json::Value,
    Seq<char>,
> {
    match parsed {
        Ok(value) => Ok(value),
        Err(failure) => Err(parse_failure_text(json_error_text(failure))),
    }
}

/// What reading an outcome gives.
///
/// - No response: the error carries the transport's message.
/// - A status outside 200 to 299: the error carries the status and the body
///   as text.
/// - A status from 200 to 299 with a body that is JSON: the value, as it is.
/// - A status from 200 to 299 with any other body, or with one that could not
///   be read: an error that reports the failure to parse.
pub open spec fn answer_of(outcome: HttpOutcomeView) -> Result<serde_json::Value, Seq<char>> {
    match outcome {
        HttpOutcomeView::TransportFailure { message } => Err(transport_failure_text(message)),
        HttpOutcomeView::Response { status, body } => if !is_success_status(status) {
            Err(http_failure_text(status, body))
        } else {
            match body {
                Ok(bytes) => parsed_answer(parsed_json(bytes)),
                Err(message) => Err(parse_failure_text(message)),
            }
        },
    }
}

impl HttpRequest {
    /// Plans a call with the given method, URL and body, and with the headers
    /// that every call carries.
    pub fn new(method: Method, url: String, api_secret: &str, body: Option<String>) -> (request:
        HttpRequest)
        ensures
            request@ == planned_request(method, url@, api_secret@, optional_text(body)),
    {
        let mut headers: Vec<(String, String)> = Vec::new();
        headers.push((String::from_str("Content-Type"), String::from_str("application/json")));
        headers.push((String::from_str("x-api-secret"), String::from_str(api_secret)));
        let request = HttpRequest { method, url, headers, body };
        assert(request@.headers =~= standard_headers(api_secret@));
        request
    }
}

/// Whether two texts are the same.
pub fn same_text(left: &str, right: &str) -> (same: bool)
    ensures
        same == (left@ == right@),
{
    let left_owned = left.to_owned();
    let right_owned = right.to_owned();
    left_owned == right_owned
}

/// Reads the name of an HTTP method.
pub fn parse_method(name: &str) -> (method: Option<Method>)
    ensures
        method == method_named(name@),
{
    if same_text(name, "GET") {
        Some(Method::Get)
    } else if same_text(name, "POST") {
        Some(Method::Post)
    } else if same_text(name, "PUT") {
        Some(Method::Put)
    } else if same_text(name, "DELETE") {
        Some(Method::Delete)
    } else {
        None
    }
}

/// Whether a status code stands for success.
pub fn is_success(status: u16) -> (success: bool)
    ensures
        success == is_success_status(status),
{
    200 <= status && status < 300
}

/// Plans one HTTP call: the given method, URL and body, with the content-type
/// header and the secret in the authentication header.
///
/// A method other than `GET`, `POST`, `PUT` and `DELETE` is refused, and no
/// call is planned.
pub fn make_api_request(method: &str, url: &str, api_secret: &str, body: Option<String>) -> (planned:
    Result<HttpRequest, String>)
    ensures
        match method_named(method@) {
            Some(m) => planned matches Ok(request) && request@ == planned_request(
                m,
                url@,
                api_secret@,
                optional_text(body),
            ),
            None => planned matches Err(error) && error@ == "Unsupported HTTP method"@,
        },
{
    match parse_method(method) {
        Some(m) => Ok(HttpRequest::new(m, String::from_str(url), api_secret, body)),
        None => Err(String::from_str("Unsupported HTTP method")),
    }
}

/// Asks `reqwest::StatusCode` for the text of a status. `from_u16` takes the
/// numbers from 100 to 999 and no others. The status is displayed as its
/// number in decimal digits, a space and a reason phrase; the text depends on
/// the number alone and goes by the name [`status_line`].
#[verifier::external_body]
fn status_text(status: u16) -> (text: Option<String>)
    ensures
        text is Some <==> is_status_code(status),
        text matches Some(line) ==> line@ == status_line(status),
        text matches Some(line) ==> has_prefix(line@, decimal_text(status as nat) + seq![' ']),
{
    match reqwest::StatusCode::from_u16(status) {
        Ok(code) => Some(code.to_string()),
        Err(_) => None,
    }
}

/// Calls `String::from_utf8_lossy`, which reads the bytes as UTF-8 and puts
/// U+FFFD in place of what is none; bytes that are UTF-8 throughout come back
/// as the text that they encode. The text depends on the bytes alone and goes
/// by the name [`lossy_text`].
#[verifier::external_body]
fn body_text(body: &[u8]) -> (text: String)
    ensures
        text@ == lossy_text(body@),
        valid_utf8(body@) ==> text@ == decode_utf8(body@),
{
    String::from_utf8_lossy(body).into_owned()
}

/// Reads what `serde_json` made of a body: the value that it read, or the
/// error text that carries its message.
pub fn parsed_or_failure(parsed: Result<serde_json::Value, serde_json::Error>) -> (answer: Result<
    serde_json::Value,
    String,
>)
    ensures
        answer_view(answer) == parsed_answer(parsed),
{
    match parsed {
        Ok(value) => Ok(value),
        Err(failure) => {
            let detail = json_error_message(&failure);
            Err(concat2("Failed to parse JSON: ", detail.as_str()))
        },
    }
}

/// The error for a response outside 200 to 299. It holds the status as a
/// number, and the body as it is where the body is UTF-8.
pub fn http_failure(status: u16, body: &Result<Vec<u8>, String>) -> (error: String)
    ensures
        error@ == http_failure_text(status, body_view(*body)),
        names_status_and_body(error@, status, body_view(*body)),
{
    let line = match status_text(status) {
        Some(line) => line,
        None => decimal(status),
    };
    let detail = match body {
        Ok(bytes) => body_text(bytes.as_slice()),
        Err(_) => String::from_str("Unknown error"),
    };
    let mut error = concat3("HTTP ", line.as_str(), ": ");
    error.append(detail.as_str());
    proof {
        let number = decimal_text(status as nat);
        let rest = line@.subrange(number.len() as int, line@.len() as int);
        if is_status_code(status) {
            assert(line@.subrange(0, number.len() + 1 as int) == number + seq![' ']);
            assert(line@ =~= number + rest) by {
                assert forall|i: int| 0 <= i < number.len() implies line@[i] == number[i] by {
                    assert(line@[i] == line@.subrange(0, number.len() + 1 as int)[i]);
                }
            }
        } else {
            assert(line@ =~= number + rest);
        }
        assert(error@ =~= "HTTP "@ + number + (rest + ": "@ + detail@));
        lemma_contains_part("HTTP "@, number, rest + ": "@ + detail@);
        assert(error@ =~= "HTTP "@ + line@ + ": "@ + detail@ + Seq::<char>::empty());
        lemma_contains_part("HTTP "@ + line@ + ": "@, detail@, Seq::<char>::empty());
    }
    error
}

/// Reads the outcome of one call: see [`answer_of`].
///
/// Where the status is outside 200 to 299, the error holds the status as a
/// number, and the body as it is where the body is UTF-8.
pub fn read_api_response(outcome: HttpOutcome) -> (read: Result<serde_json::Value, String>)
    ensures
        answer_view(read) == answer_of(outcome@),
        match outcome@ {
            HttpOutcomeView::Response { status, body } => !is_success_status(status) ==> (read
                matches Err(error) && names_status_and_body(error@, status, body)),
            HttpOutcomeView::TransportFailure { .. } => true,
        },
{
    match outcome {
        HttpOutcome::TransportFailure { message } => Err(
            concat2("Request failed: ", message.as_str()),
        ),
        HttpOutcome::Response { status, body } => {
            if !is_success(status) {
                Err(http_failure(status, &body))
            } else {
                match body {
                    Err(message) => Err(concat2("Failed to parse JSON: ", message.as_str())),
                    Ok(bytes) => parsed_or_failure(json_from_bytes(bytes.as_slice())),
                }
            }
        },
    }
}

} // verus!
