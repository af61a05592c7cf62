//! The commands that the user interface invokes.
//!
//! A command reads the configuration, fails at once while none is set, and
//! otherwise plans the one HTTP call that it needs. The caller performs the
//! call and hands what [`read_api_response`](crate::executor::read_api_response)
//! made of it to the matching `finish_` function, where the command wraps
//! the remote answer; the listing commands hand that answer on as it is.

use crate::config::{after_set, ApiConfig, ApiConfigView, AppState};
use crate::encoding::{encoded_segment, percent_encode};
use crate::executor::{
    answer_view, optional_text, planned_request, HttpRequest, HttpRequestView, Method,
};
use crate::payload::{
    channel_message_json, direct_message_json, direct_message_to_json, embed_request_json,
    EmbedData, SendEmbedRequest, SendMessageRequest,
};
use crate::text::{concat2, concat3};
use vstd::prelude::*;
use vstd::string::*;

verus! {

/// The envelope in which the commands that do something report back.
#[derive(Debug)]
pub struct ApiResponse {
    pub success: bool,
    pub message: Option<String>,
    pub data: Option<serde_json::Value>,
}

/// What an [`ApiResponse`] holds, as mathematical values.
pub ghost struct ApiResponseView {
    pub success: bool,
    pub message: Option<Seq<char>>,
    pub data: Option<serde_json::Value>,
}

impl View for ApiResponse {
    type V = ApiResponseView;

    open spec fn view(&self) -> ApiResponseView {
        ApiResponseView {
            success: self.success,
            message: optional_text(self.message),
            data: self.data,
        }
    }
}

/// The envelope of a success, with its message and the remote answer.
pub open spec fn success_envelope(
    message: Seq<char>,
    data: Option<serde_json::Value>,
) -> ApiResponseView {
    ApiResponseView { success: true, message: Some(message), data }
}

/// What a command returns when it plans a call: the call, or an error text.
pub open spec fn plan_view(planned: Result<HttpRequest, String>) -> Result<
    HttpRequestView,
    Seq<char>,
> {
    match planned {
        Ok(request) => Ok(request@),
        Err(error) => Err(error@),
    }
}

/// What a command returns when it reports back: the envelope, or an error
/// text.
pub open spec fn report_view(report: Result<ApiResponse, String>) -> Result<
    ApiResponseView,
    Seq<char>,
> {
    match report {
        Ok(response) => Ok(response@),
        Err(error) => Err(error@),
    }
}

/// An error text that says that no configuration was set.
pub open spec fn is_not_configured(error: Seq<char>) -> bool {
    ||| error == "API not configured"@
    ||| error == "API not configured. Please set server URL and API secret first."@
}

/// A `GET` without a body, to a path below the configured base URL.
pub open spec fn get_request(config: ApiConfigView, path: Seq<char>) -> HttpRequestView {
    planned_request(Method::Get, config.server_url + path, config.api_secret, None)
}

/// A `POST` of a payload to a path below the configured base URL.
pub open spec fn post_request(
    config: ApiConfigView,
    path: Seq<char>,
    payload: Seq<char>,
) -> HttpRequestView {
    planned_request(Method::Post, config.server_url + path, config.api_secret, Some(payload))
}

/// What [`get_servers`] plans.
pub open spec fn servers_plan(state: Option<ApiConfigView>) -> Result<HttpRequestView, Seq<char>> {
    match state {
        Some(config) => Ok(get_request(config, "/api/servers"@)),
        None => Err("API not configured. Please set server URL and API secret first."@),
    }
}

/// What [`get_channels`] plans.
pub open spec fn channels_plan(state: Option<ApiConfigView>, server_id: Seq<char>) -> Result<
    HttpRequestView,
    Seq<char>,
> {
    match state {
        Some(config) => Ok(get_request(config, "/api/channels/"@ + encoded_segment(server_id))),
        None => Err("API not configured"@),
    }
}

/// What [`search_users`] plans.
pub open spec fn search_plan(state: Option<ApiConfigView>, query: Seq<char>) -> Result<
    HttpRequestView,
    Seq<char>,
> {
    match state {
        Some(config) => Ok(get_request(config, "/api/users/search/"@ + encoded_segment(query))),
        None => Err("API not configured"@),
    }
}

/// What [`send_simple_message`] plans.
///
/// A channel takes precedence over a user; with neither, nothing is planned.
pub open spec fn message_plan(
    state: Option<ApiConfigView>,
    channel_id: Option<Seq<char>>,
    user_id: Option<Seq<char>>,
    message: Seq<char>,
) -> Result<HttpRequestView, Seq<char>> {
    match state {
        None => Err("API not configured"@),
        Some(config) => match channel_id {
            Some(channel) => Ok(
                post_request(config, "/api/send-message"@, channel_message_json(channel, message)),
            ),
            None => match user_id {
                Some(user) => Ok(
                    post_request(config, "/api/send-dm"@, direct_message_json(user, message)),
                ),
                None => Err("Either channel_id or user_id must be provided"@),
            },
        },
    }
}

/// The type of a rich message: it goes by the channel alone.
pub open spec fn embed_type(channel_id: Option<Seq<char>>) -> Seq<char> {
    if channel_id is Some {
        "channel"@
    } else {
        "dm"@
    }
}

/// What [`send_embed_message`] plans.
pub open spec fn embed_plan(
    state: Option<ApiConfigView>,
    channel_id: Option<Seq<char>>,
    user_id: Option<Seq<char>>,
    embed_data: EmbedData,
) -> Result<HttpRequestView, Seq<char>> {
    match state {
        None => Err("API not configured"@),
        Some(config) => Ok(
            post_request(
                config,
                "/api/send-embed"@,
                embed_request_json(channel_id, user_id, embed_data, embed_type(channel_id)),
            ),
        ),
    }
}

/// What [`test_connection`] plans.
pub open spec fn connection_plan(state: Option<ApiConfigView>) -> Result<
    HttpRequestView,
    Seq<char>,
> {
    match state {
        Some(config) => Ok(get_request(config, "/api/servers"@)),
        None => Err("API not configured"@),
    }
}

/// What the commands that wrap the remote answer report: the answer inside
/// a successful envelope with the given message, or the error as it is.
pub open spec fn wrapped_answer(
    answer: Result<serde_json::Value, Seq<char>>,
    message: Seq<char>,
) -> Result<ApiResponseView, Seq<char>> {
    match answer {
        Ok(value) => Ok(success_envelope(message, Some(value))),
        Err(error) => Err(error),
    }
}

/// What [`finish_test_connection`] reports.
pub open spec fn connection_report(answer: Result<serde_json::Value, Seq<char>>) -> Result<
    ApiResponseView,
    Seq<char>,
> {
    match answer {
        Ok(_) => Ok(success_envelope("Connection successful"@, None)),
        Err(error) => Err("Connection failed: "@ + error),
    }
}

/// Plans the posting of a payload to a path below the configured base URL,
/// unless the payload could not be written: then the error is handed on.
pub fn plan_post(config: &ApiConfig, path: &str, payload: Result<String, String>) -> (planned:
    Result<HttpRequest, String>)
    ensures
        match payload {
            Ok(body) => plan_view(planned) == Ok::<HttpRequestView, Seq<char>>(
                post_request(config@, path@, body@),
            ),
            Err(error) => plan_view(planned) == Err::<HttpRequestView, Seq<char>>(error@),
        },
{
    match payload {
        Ok(body) => {
            let url = concat2(config.server_url.as_str(), path);
            Ok(HttpRequest::new(Method::Post, url, config.api_secret.as_str(), Some(body)))
        },
        Err(error) => Err(error),
    }
}

/// Stores the configuration, with the `/` characters at the end of the URL
/// cut off, in place of whatever was stored before. Nothing is checked, and
/// the command always succeeds.
pub fn set_api_config(server_url: String, api_secret: String, state: &mut AppState) -> (report:
    Result<ApiResponse, String>)
    ensures
        final(state)@ == after_set(old(state)@, server_url@, api_secret@),
        final(state).wf(),
        report_view(report) == Ok::<ApiResponseView, Seq<char>>(
            success_envelope("API configuration set successfully"@, None),
        ),
{
    state.set(server_url.as_str(), api_secret);
    Ok(
        ApiResponse {
            success: true,
            message: Some(String::from_str("API configuration set successfully")),
            data: None,
        },
    )
}

/// Plans the listing of the servers.
pub fn get_servers(state: &AppState) -> (planned: Result<HttpRequest, String>)
    ensures
        plan_view(planned) == servers_plan(state@),
{
    match state.read() {
        Some(config) => {
            let url = concat2(config.server_url.as_str(), "/api/servers");
            Ok(HttpRequest::new(Method::Get, url, config.api_secret.as_str(), None))
        },
        None => Err(
            String::from_str("API not configured. Please set server URL and API secret first."),
        ),
    }
}

/// Plans the listing of a server's channels. The server's id is
/// percent-encoded before it goes into the path.
pub fn get_channels(server_id: String, state: &AppState) -> (planned: Result<HttpRequest, String>)
    ensures
        plan_view(planned) == channels_plan(state@, server_id@),
{
    match state.read() {
        Some(config) => {
            let segment = percent_encode(server_id.as_str());
            let url = concat3(config.server_url.as_str(), "/api/channels/", segment.as_str());
            assert(url@ == config@.server_url + ("/api/channels/"@ + encoded_segment(server_id@)));
            Ok(HttpRequest::new(Method::Get, url, config.api_secret.as_str(), None))
        },
        None => Err(String::from_str("API not configured")),
    }
}

/// Plans a search for users. The query is percent-encoded before it goes
/// into the path.
pub fn search_users(query: String, state: &AppState) -> (planned: Result<HttpRequest, String>)
    ensures
        plan_view(planned) == search_plan(state@, query@),
{
    match state.read() {
        Some(config) => {
            let segment = percent_encode(query.as_str());
            let url = concat3(config.server_url.as_str(), "/api/users/search/", segment.as_str());
            assert(url@ == config@.server_url + ("/api/users/search/"@ + encoded_segment(query@)));
            Ok(HttpRequest::new(Method::Get, url, config.api_secret.as_str(), None))
        },
        None => Err(String::from_str("API not configured")),
    }
}

/// Plans the sending of a plain message, to the channel if one is given,
/// else to the user. With neither the command fails, and so it does, before
/// anything else, while no configuration is set.
pub fn send_simple_message(
    channel_id: Option<String>,
    user_id: Option<String>,
    message: String,
    state: &AppState,
) -> (planned: Result<HttpRequest, String>)
    ensures
        plan_view(planned) == message_plan(
            state@,
            optional_text(channel_id),
            optional_text(user_id),
            message@,
        ),
{
    let config: &ApiConfig = match state.read() {
        Some(config) => config,
        None => {
            return Err(String::from_str("API not configured"));
        },
    };
    let (endpoint, payload) = match channel_id {
        Some(channel) => {
            let request = SendMessageRequest { channel_id: channel, message };
            ("/api/send-message", request.to_json())
        },
        None => match user_id {
            Some(user) => ("/api/send-dm", direct_message_to_json(user.as_str(), message.as_str())),
            None => {
                return Err(String::from_str("Either channel_id or user_id must be provided"));
            },
        },
    };
    plan_post(config, endpoint, payload)
}

/// Plans the sending of a rich message. Both addressees go into the payload
/// as they were given, and the type goes by the channel alone: `"channel"`
/// where one is given, else `"dm"`.
pub fn send_embed_message(
    channel_id: Option<String>,
    user_id: Option<String>,
    embed_data: EmbedData,
    state: &AppState,
) -> (planned: Result<HttpRequest, String>)
    ensures
        plan_view(planned) == embed_plan(
            state@,
            optional_text(channel_id),
            optional_text(user_id),
            embed_data,
        ),
{
    let config: &ApiConfig = match state.read() {
        Some(config) => config,
        None => {
            return Err(String::from_str("API not configured"));
        },
    };
    let message_type = if channel_id.is_some() {
        String::from_str("channel")
    } else {
        String::from_str("dm")
    };
    let request = SendEmbedRequest { channel_id, user_id, embed_data, message_type };
    plan_post(config, "/api/send-embed", request.to_json())
}

/// Plans the call that tests the connection: the listing of the servers.
pub fn test_connection(state: &AppState) -> (planned: Result<HttpRequest, String>)
    ensures
        plan_view(planned) == connection_plan(state@),
{
    match state.read() {
        Some(config) => {
            let url = concat2(config.server_url.as_str(), "/api/servers");
            Ok(HttpRequest::new(Method::Get, url, config.api_secret.as_str(), None))
        },
        None => Err(String::from_str("API not configured")),
    }
}

/// Reports on a plain message: the remote answer in an envelope, or the
/// error as it is.
pub fn finish_send_simple_message(answer: Result<serde_json::Value, String>) -> (report: Result<
    ApiResponse,
    String,
>)
    ensures
        report_view(report) == wrapped_answer(
            answer_view(answer),
            "Message sent successfully"@,
        ),
{
    match answer {
        Ok(value) => Ok(
            ApiResponse {
                success: true,
                message: Some(String::from_str("Message sent successfully")),
                data: Some(value),
            },
        ),
        Err(error) => Err(error),
    }
}

/// Reports on a rich message: the remote answer in an envelope, or the error
/// as it is.
pub fn finish_send_embed_message(answer: Result<serde_json::Value, String>) -> (report: Result<
    ApiResponse,
    String,
>)
    ensures
        report_view(report) == wrapped_answer(
            answer_view(answer),
            "Embed message sent successfully"@,
        ),
{
    match answer {
        Ok(value) => Ok(
            ApiResponse {
                success: true,
                message: Some(String::from_str("Embed message sent successfully")),
                data: Some(value),
            },
        ),
        Err(error) => Err(error),
    }
}

/// Reports on the test of the connection: an envelope without data where the
/// remote API answered, else the error behind `Connection failed: `.
pub fn finish_test_connection(answer: Result<serde_json::Value, String>) -> (report: Result<
    ApiResponse,
    String,
>)
    ensures
        report_view(report) == connection_report(answer_view(answer)),
{
    match answer {
        Ok(_) => Ok(
            ApiResponse {
                success: true,
                message: Some(String::from_str("Connection successful")),
                data: None,
            },
        ),
        Err(error) => Err(concat2("Connection failed: ", error.as_str())),
    }
}

/// Greets by name.
pub fn greet(name: &str) -> (greeting: String)
    ensures
        greeting@ == "Hello, "@ + name@ + "! You've been greeted from Rust!"@,
{
    concat3("Hello, ", name, "! You've been greeted from Rust!")
}

} // verus!
