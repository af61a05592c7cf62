use api_bridge::commands::{
    finish_send_embed_message, finish_send_simple_message, finish_test_connection, get_channels,
    get_servers, greet, plan_post, search_users, send_embed_message, send_simple_message,
    set_api_config, test_connection,
};
use api_bridge::config::{ApiConfig, AppState};
use api_bridge::executor::{read_api_response, HttpOutcome, HttpRequest, Method};
use api_bridge::payload::{
    array_json, direct_message_to_json, frame_array, frame_embed_request, frame_message,
    optional_array_json, optional_quoted, optional_value_json, quoted, value_json,
    written_or_failure, EmbedData, SendEmbedRequest, SendMessageRequest, WrittenEmbed,
};

fn configured() -> AppState {
    let mut state = AppState::new();
    set_api_config("https://x.test/".to_string(), "s3cret".to_string(), &mut state).unwrap();
    state
}

fn json(text: &str) -> serde_json::Value {
    serde_json::from_str(text).unwrap()
}

fn empty_embed() -> EmbedData {
    EmbedData {
        title: None,
        description: None,
        color: None,
        thumbnail: None,
        image: None,
        footer: None,
        author: None,
        fields: None,
        timestamp: None,
    }
}

fn assert_get(request: &HttpRequest, url: &str) {
    assert_eq!(request.method, Method::Get);
    assert_eq!(request.url, url);
    assert!(request.body.is_none());
    assert_secret(request, "s3cret");
}

fn assert_secret(request: &HttpRequest, secret: &str) {
    let headers: Vec<(&str, &str)> =
        request.headers.iter().map(|(name, value)| (name.as_str(), value.as_str())).collect();
    assert_eq!(headers, vec![("Content-Type", "application/json"), ("x-api-secret", secret)]);
}

#[test]
fn no_command_plans_a_call_before_configuration() {
    let state = AppState::new();
    assert_eq!(
        get_servers(&state).unwrap_err(),
        "API not configured. Please set server URL and API secret first."
    );
    assert_eq!(get_channels("1".to_string(), &state).unwrap_err(), "API not configured");
    assert_eq!(search_users("bob".to_string(), &state).unwrap_err(), "API not configured");
    assert_eq!(
        send_simple_message(Some("42".to_string()), None, "hi".to_string(), &state).unwrap_err(),
        "API not configured"
    );
    assert_eq!(
        send_simple_message(None, None, "hi".to_string(), &state).unwrap_err(),
        "API not configured"
    );
    assert_eq!(
        send_embed_message(Some("42".to_string()), None, empty_embed(), &state).unwrap_err(),
        "API not configured"
    );
    assert_eq!(test_connection(&state).unwrap_err(), "API not configured");
}

#[test]
fn get_servers_plans_the_listing() {
    let request = get_servers(&configured()).unwrap();
    assert_get(&request, "https://x.test/api/servers");
}

#[test]
fn test_connection_plans_the_listing() {
    let request = test_connection(&configured()).unwrap();
    assert_get(&request, "https://x.test/api/servers");
}

#[test]
fn get_channels_puts_the_server_in_the_path() {
    let request = get_channels("123456789".to_string(), &configured()).unwrap();
    assert_get(&request, "https://x.test/api/channels/123456789");
}

#[test]
fn get_channels_encodes_the_server_id() {
    let request = get_channels("a/b?c".to_string(), &configured()).unwrap();
    assert_get(&request, "https://x.test/api/channels/a%2Fb%3Fc");
}

#[test]
fn search_users_encodes_the_query() {
    let request = search_users("a b".to_string(), &configured()).unwrap();
    assert_get(&request, "https://x.test/api/users/search/a%20b");
    assert!(request.url.ends_with("/api/users/search/a%20b"));
}

#[test]
fn search_users_keeps_unreserved_characters() {
    let request = search_users("Az09-._~".to_string(), &configured()).unwrap();
    assert_get(&request, "https://x.test/api/users/search/Az09-._~");
}

#[test]
fn search_users_encodes_every_other_byte() {
    let request = search_users("a/b#c%d+e&f=g".to_string(), &configured()).unwrap();
    assert_get(&request, "https://x.test/api/users/search/a%2Fb%23c%25d%2Be%26f%3Dg");
    let request = search_users("\u{e9}\u{20ac}\u{1F600}".to_string(), &configured()).unwrap();
    assert_get(&request, "https://x.test/api/users/search/%C3%A9%E2%82%AC%F0%9F%98%80");
    let request = search_users("\u{0}\n\u{7f}".to_string(), &configured()).unwrap();
    assert_get(&request, "https://x.test/api/users/search/%00%0A%7F");
}

#[test]
fn search_users_with_an_empty_query() {
    let request = search_users(String::new(), &configured()).unwrap();
    assert_get(&request, "https://x.test/api/users/search/");
}

#[test]
fn encoded_input_stays_one_segment() {
    for query in ["a/b", "../..", "x?y=z", "#top", "a b", "\u{e9}/"] {
        let request = search_users(query.to_string(), &configured()).unwrap();
        let segment = request.url.strip_prefix("https://x.test/api/users/search/").unwrap();
        assert!(segment
            .chars()
            .all(|c| c.is_ascii_alphanumeric() || "-._~%".contains(c)), "{}", segment);
        assert_eq!(urlencoding::decode(segment).unwrap(), query);
    }
}

#[test]
fn send_message_needs_an_addressee() {
    let planned = send_simple_message(None, None, "hello".to_string(), &configured());
    assert_eq!(planned.unwrap_err(), "Either channel_id or user_id must be provided");
}

#[test]
fn send_message_to_a_channel() {
    let request =
        send_simple_message(Some("42".to_string()), None, "hello".to_string(), &configured())
            .unwrap();
    assert_eq!(request.method, Method::Post);
    assert_eq!(request.url, "https://x.test/api/send-message");
    assert_eq!(request.body.as_deref(), Some("{\"channelId\":\"42\",\"message\":\"hello\"}"));
    assert_secret(&request, "s3cret");
}

#[test]
fn send_message_to_a_user() {
    let request =
        send_simple_message(None, Some("7".to_string()), "hi there".to_string(), &configured())
            .unwrap();
    assert_eq!(request.method, Method::Post);
    assert_eq!(request.url, "https://x.test/api/send-dm");
    assert_eq!(request.body.as_deref(), Some("{\"userId\":\"7\",\"message\":\"hi there\"}"));
}

#[test]
fn send_message_prefers_the_channel() {
    let request = send_simple_message(
        Some("42".to_string()),
        Some("7".to_string()),
        "x".to_string(),
        &configured(),
    )
    .unwrap();
    assert_eq!(request.url, "https://x.test/api/send-message");
    assert_eq!(request.body.as_deref(), Some("{\"channelId\":\"42\",\"message\":\"x\"}"));
}

#[test]
fn send_message_escapes_the_text() {
    let text = "say \"hi\"\\ \n\t\r\u{8}\u{c}\u{1}\u{1f}/\u{7f}\u{e9}";
    let request =
        send_simple_message(Some("4\"2".to_string()), None, text.to_string(), &configured())
            .unwrap();
    let body = request.body.unwrap();
    assert_eq!(
        body,
        "{\"channelId\":\"4\\\"2\",\"message\":\"say \\\"hi\\\"\\\\ \\n\\t\\r\\b\\f\\u0001\\u001f/\u{7f}\u{e9}\"}"
    );
    let parsed = json(&body);
    assert_eq!(parsed.get("channelId").and_then(|v| v.as_str()), Some("4\"2"));
    assert_eq!(parsed.get("message").and_then(|v| v.as_str()), Some(text));
}

#[test]
fn send_message_answered_by_the_remote_api() {
    let request =
        send_simple_message(Some("42".to_string()), None, "hi".to_string(), &configured())
            .unwrap();
    assert_eq!(request.body.as_deref(), Some("{\"channelId\":\"42\",\"message\":\"hi\"}"));
    let answered = HttpOutcome::Response { status: 200, body: Ok(b"{\"id\":\"m1\"}".to_vec()) };
    let response = finish_send_simple_message(read_api_response(answered)).unwrap();
    assert!(response.success);
    assert_eq!(response.message.as_deref(), Some("Message sent successfully"));
    assert_eq!(response.data, Some(json("{\"id\":\"m1\"}")));
    let refused = HttpOutcome::Response { status: 500, body: Ok(b"oops".to_vec()) };
    let error = finish_send_simple_message(read_api_response(refused)).unwrap_err();
    assert_eq!(error, "HTTP 500 Internal Server Error: oops");
}

#[test]
fn writers_always_write() {
    for text in ["", "plain", "\"\\\u{0}\u{1f}", "\u{1F600}"] {
        assert!(quoted(text).is_ok());
        assert!(direct_message_to_json(text, text).is_ok());
        assert!(send_simple_message(Some(text.to_string()), None, text.to_string(), &configured())
            .is_ok());
        assert!(send_embed_message(None, Some(text.to_string()), empty_embed(), &configured())
            .is_ok());
    }
    for text in ["null", "1e300", "-0.5", "[[[]]]", "{\"a\":{\"b\":[1,\"\\u0000\"]}}"] {
        assert!(value_json(&json(text)).is_ok());
        assert!(array_json(&vec![json(text), json(text)]).is_ok());
    }
}

#[test]
fn send_message_with_empty_texts() {
    let request =
        send_simple_message(Some(String::new()), None, String::new(), &configured()).unwrap();
    assert_eq!(request.body.as_deref(), Some("{\"channelId\":\"\",\"message\":\"\"}"));
}

#[test]
fn message_request_writes_its_payload() {
    let request = SendMessageRequest { channel_id: "9".to_string(), message: "m".to_string() };
    assert_eq!(request.to_json().unwrap(), "{\"channelId\":\"9\",\"message\":\"m\"}");
    assert_eq!(direct_message_to_json("u", "m").unwrap(), "{\"userId\":\"u\",\"message\":\"m\"}");
}

#[test]
fn quoting_writes_json_strings() {
    assert_eq!(quoted("").unwrap(), "\"\"");
    assert_eq!(quoted("plain").unwrap(), "\"plain\"");
    assert_eq!(quoted("a\"b").unwrap(), "\"a\\\"b\"");
    assert_eq!(quoted("\u{0}\u{b}\u{e}\u{1a}").unwrap(), "\"\\u0000\\u000b\\u000e\\u001a\"");
    assert_eq!(optional_quoted(&Some("x".to_string())).unwrap(), "\"x\"");
    assert_eq!(optional_quoted(&None).unwrap(), "null");
}

#[test]
fn quoting_escapes_exactly_the_characters_below_space_and_two_more() {
    for code in 0u32..0x80 {
        let c = char::from_u32(code).unwrap();
        let written = quoted(&c.to_string()).unwrap();
        let expected = match c {
            '"' => "\"\\\"\"".to_string(),
            '\\' => "\"\\\\\"".to_string(),
            '\u{8}' => "\"\\b\"".to_string(),
            '\t' => "\"\\t\"".to_string(),
            '\n' => "\"\\n\"".to_string(),
            '\u{c}' => "\"\\f\"".to_string(),
            '\r' => "\"\\r\"".to_string(),
            c if code < 0x20 => format!("\"\\u00{:02x}\"", c as u32),
            c => format!("\"{}\"", c),
        };
        assert_eq!(written, expected);
    }
}

#[test]
fn values_are_written_as_json() {
    assert_eq!(value_json(&json("{\"a\": [1, 2]}")).unwrap(), "{\"a\":[1,2]}");
    assert_eq!(optional_value_json(&Some(json("true"))).unwrap(), "true");
    assert_eq!(optional_value_json(&None).unwrap(), "null");
    assert_eq!(array_json(&vec![]).unwrap(), "[]");
    assert_eq!(array_json(&vec![json("1")]).unwrap(), "[1]");
    assert_eq!(array_json(&vec![json("1"), json("\"b\""), json("{}")]).unwrap(), "[1,\"b\",{}]");
    assert_eq!(optional_array_json(&Some(vec![json("null")])).unwrap(), "[null]");
    assert_eq!(optional_array_json(&None).unwrap(), "null");
}

#[test]
fn empty_embed_is_all_null() {
    assert_eq!(
        empty_embed().to_json().unwrap(),
        "{\"title\":null,\"description\":null,\"color\":null,\"thumbnail\":null,\"image\":null,\
\"footer\":null,\"author\":null,\"fields\":null,\"timestamp\":null}"
    );
}

#[test]
fn send_embed_to_a_channel() {
    let embed = EmbedData {
        title: Some("Title".to_string()),
        description: Some("line\nbreak".to_string()),
        color: Some("#ff0000".to_string()),
        thumbnail: Some(json("{\"url\":\"http://i/t.png\"}")),
        image: None,
        footer: Some(json("{\"text\":\"foot\"}")),
        author: None,
        fields: Some(vec![json("{\"inline\":true,\"name\":\"n\",\"value\":\"v\"}"), json("{}")]),
        timestamp: Some("2024-01-01T00:00:00Z".to_string()),
    };
    let request =
        send_embed_message(Some("42".to_string()), None, embed, &configured()).unwrap();
    assert_eq!(request.method, Method::Post);
    assert_eq!(request.url, "https://x.test/api/send-embed");
    assert_secret(&request, "s3cret");
    let body = request.body.unwrap();
    assert_eq!(
        body,
        "{\"channelId\":\"42\",\"userId\":null,\"embedData\":{\"title\":\"Title\",\
\"description\":\"line\\nbreak\",\"color\":\"#ff0000\",\"thumbnail\":{\"url\":\"http://i/t.png\"},\
\"image\":null,\"footer\":{\"text\":\"foot\"},\"author\":null,\
\"fields\":[{\"inline\":true,\"name\":\"n\",\"value\":\"v\"},{}],\
\"timestamp\":\"2024-01-01T00:00:00Z\"},\"type\":\"channel\"}"
    );
    let parsed = json(&body);
    assert_eq!(parsed.get("type").and_then(|v| v.as_str()), Some("channel"));
    assert_eq!(parsed.get("channelId").and_then(|v| v.as_str()), Some("42"));
    assert!(parsed.get("userId").unwrap().is_null());
    let data = parsed.get("embedData").unwrap();
    assert_eq!(data.get("description").and_then(|v| v.as_str()), Some("line\nbreak"));
    assert_eq!(data.get("fields").and_then(|v| v.as_array()).map(|a| a.len()), Some(2));
}

#[test]
fn send_embed_to_a_user_is_a_dm() {
    let request =
        send_embed_message(None, Some("7".to_string()), empty_embed(), &configured()).unwrap();
    let parsed = json(request.body.as_deref().unwrap());
    assert_eq!(parsed.get("type").and_then(|v| v.as_str()), Some("dm"));
    assert!(parsed.get("channelId").unwrap().is_null());
    assert_eq!(parsed.get("userId").and_then(|v| v.as_str()), Some("7"));
}

#[test]
fn send_embed_type_goes_by_the_channel_alone() {
    let request = send_embed_message(
        Some("42".to_string()),
        Some("7".to_string()),
        empty_embed(),
        &configured(),
    )
    .unwrap();
    let parsed = json(request.body.as_deref().unwrap());
    assert_eq!(parsed.get("type").and_then(|v| v.as_str()), Some("channel"));
    assert_eq!(parsed.get("channelId").and_then(|v| v.as_str()), Some("42"));
    assert_eq!(parsed.get("userId").and_then(|v| v.as_str()), Some("7"));

    let request = send_embed_message(None, None, empty_embed(), &configured()).unwrap();
    let parsed = json(request.body.as_deref().unwrap());
    assert_eq!(parsed.get("type").and_then(|v| v.as_str()), Some("dm"));
    assert!(parsed.get("channelId").unwrap().is_null());
    assert!(parsed.get("userId").unwrap().is_null());
}

#[test]
fn embed_request_writes_its_payload() {
    let request = SendEmbedRequest {
        channel_id: None,
        user_id: Some("u".to_string()),
        embed_data: empty_embed(),
        message_type: "dm".to_string(),
    };
    assert_eq!(
        request.to_json().unwrap(),
        "{\"channelId\":null,\"userId\":\"u\",\"embedData\":{\"title\":null,\
\"description\":null,\"color\":null,\"thumbnail\":null,\"image\":null,\"footer\":null,\
\"author\":null,\"fields\":null,\"timestamp\":null},\"type\":\"dm\"}"
    );
}

#[test]
fn sent_message_wraps_the_answer() {
    let answer = json("{\"id\":\"m1\"}");
    let response = finish_send_simple_message(Ok(answer.clone())).unwrap();
    assert!(response.success);
    assert_eq!(response.message.as_deref(), Some("Message sent successfully"));
    assert_eq!(response.data, Some(answer));
    let error = finish_send_simple_message(Err("HTTP 403 Forbidden: no".to_string())).unwrap_err();
    assert_eq!(error, "HTTP 403 Forbidden: no");
}

#[test]
fn sent_embed_wraps_the_answer() {
    let answer = json("[1,2]");
    let response = finish_send_embed_message(Ok(answer.clone())).unwrap();
    assert!(response.success);
    assert_eq!(response.message.as_deref(), Some("Embed message sent successfully"));
    assert_eq!(response.data, Some(answer));
    let error = finish_send_embed_message(Err("Request failed: x".to_string())).unwrap_err();
    assert_eq!(error, "Request failed: x");
}

#[test]
fn tested_connection_reports_success_without_data() {
    let response = finish_test_connection(Ok(json("{\"servers\":[]}"))).unwrap();
    assert!(response.success);
    assert_eq!(response.message.as_deref(), Some("Connection successful"));
    assert!(response.data.is_none());
}

#[test]
fn test_connection_reports_a_server_error() {
    let outcome = HttpOutcome::Response { status: 500, body: Ok(b"oops".to_vec()) };
    let error = finish_test_connection(read_api_response(outcome)).unwrap_err();
    assert!(error.starts_with("Connection failed:"), "{}", error);
    assert!(error.contains("500"), "{}", error);
    assert!(error.contains("oops"), "{}", error);
    assert_eq!(error, "Connection failed: HTTP 500 Internal Server Error: oops");
}

#[test]
fn test_connection_reports_a_transport_failure() {
    let outcome = HttpOutcome::TransportFailure { message: "dns error".to_string() };
    let error = finish_test_connection(read_api_response(outcome)).unwrap_err();
    assert_eq!(error, "Connection failed: Request failed: dns error");
}

#[test]
fn get_servers_maps_both_outcomes() {
    let state = configured();
    let request = get_servers(&state).unwrap();
    assert_eq!(request.url, "https://x.test/api/servers");
    let failed = HttpOutcome::Response { status: 503, body: Ok(b"down".to_vec()) };
    assert_eq!(read_api_response(failed).unwrap_err(), "HTTP 503 Service Unavailable: down");
    let answered = HttpOutcome::Response { status: 200, body: Ok(b"{\"servers\":[]}".to_vec()) };
    assert_eq!(read_api_response(answered).unwrap(), json("{\"servers\":[]}"));
}

#[test]
fn failed_commands_leave_the_configuration() {
    let state = configured();
    let _ = send_simple_message(None, None, "x".to_string(), &state);
    let _ = finish_test_connection(Err("Request failed: x".to_string()));
    let config = state.read().unwrap();
    assert_eq!(config.server_url, "https://x.test");
    assert_eq!(config.api_secret, "s3cret");
}

#[test]
fn greet_by_name() {
    assert_eq!(greet("Ada"), "Hello, Ada! You've been greeted from Rust!");
    assert_eq!(greet(""), "Hello, ! You've been greeted from Rust!");
}

#[test]
fn framing_puts_written_members_together() {
    assert_eq!(frame_array(&vec![]), "[]");
    assert_eq!(frame_array(&vec!["1".to_string()]), "[1]");
    assert_eq!(frame_array(&vec!["1".to_string(), "{}".to_string(), "\"x\"".to_string()]), "[1,{},\"x\"]");
    assert_eq!(frame_message("{\"k\":", "\"a\"", "\"m\""), "{\"k\":\"a\",\"message\":\"m\"}");
    assert_eq!(
        frame_embed_request("\"c\"", "null", "{}", "\"channel\""),
        "{\"channelId\":\"c\",\"userId\":null,\"embedData\":{},\"type\":\"channel\"}"
    );
    let members = WrittenEmbed {
        title: "1".to_string(),
        description: "2".to_string(),
        color: "3".to_string(),
        thumbnail: "4".to_string(),
        image: "5".to_string(),
        footer: "6".to_string(),
        author: "7".to_string(),
        fields: "8".to_string(),
        timestamp: "9".to_string(),
    };
    assert_eq!(
        members.frame(),
        "{\"title\":1,\"description\":2,\"color\":3,\"thumbnail\":4,\"image\":5,\"footer\":6,\
\"author\":7,\"fields\":8,\"timestamp\":9}"
    );
}

#[test]
fn serialization_failure_is_its_own_error() {
    assert_eq!(written_or_failure(Ok("{}".to_string())).unwrap(), "{}");
    let failure = serde_json::from_str::<serde_json::Value>("{").unwrap_err();
    let detail = failure.to_string();
    let error = written_or_failure(Err(failure)).unwrap_err();
    assert_eq!(error, format!("Failed to serialize payload: {}", detail));
    assert!(!error.starts_with("HTTP "));
    assert!(!error.starts_with("Request failed: "));
}

#[test]
fn plan_post_hands_a_failure_on() {
    let config = ApiConfig::new("http://h/", "k".to_string());
    let request = plan_post(&config, "/api/send-dm", Ok("{}".to_string())).unwrap();
    assert_eq!(request.method, Method::Post);
    assert_eq!(request.url, "http://h/api/send-dm");
    assert_eq!(request.body.as_deref(), Some("{}"));
    assert_secret(&request, "k");
    let error = plan_post(&config, "/api/send-dm", Err("Failed to serialize payload: x".to_string()));
    assert_eq!(error.unwrap_err(), "Failed to serialize payload: x");
}
