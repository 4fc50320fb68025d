use webdriver_client::driver::{
    interpret_element_response, interpret_session_response, interpret_url_response, session_body,
    Driver, Element, ElementRead,
};
use webdriver_client::http::{
    build_request, host_string, response_json, to_json_string, Method, Transport,
};
use webdriver_client::json::{parse_or_empty, Json, JsonField};

/// A transport that replays a script of responses and records every
/// request and pause it sees.
struct ScriptTransport {
    responses: Vec<Result<Vec<u8>, ()>>,
    requests: Vec<String>,
    pauses: Vec<u64>,
}

impl ScriptTransport {
    fn new(responses: Vec<Result<Vec<u8>, ()>>) -> ScriptTransport {
        ScriptTransport { responses, requests: Vec::new(), pauses: Vec::new() }
    }

    fn replying(bodies: &[&str]) -> ScriptTransport {
        ScriptTransport::new(bodies.iter().map(|b| Ok(http_response(b))).collect())
    }
}

impl Transport for ScriptTransport {
    fn exchange(&mut self, _port: u16, request: &str) -> Result<Vec<u8>, ()> {
        self.requests.push(request.to_string());
        if self.responses.is_empty() {
            Err(())
        } else {
            self.responses.remove(0)
        }
    }

    fn pause_ms(&mut self, ms: u64) {
        self.pauses.push(ms);
    }
}

fn http_response(body: &str) -> Vec<u8> {
    format!("HTTP/1.1 200 OK\r\nContent-Type: application/json\r\n\r\n{}", body).into_bytes()
}

fn bound_driver(port: u16, token: &str) -> Driver {
    Driver { port, session_id: Some(token.to_string()) }
}

#[test]
fn method_names() {
    assert_eq!(Method::GET.as_str(), "GET");
    assert_eq!(Method::POST.as_str(), "POST");
    assert_eq!(Method::DELETE.as_str(), "DELETE");
    assert_eq!(Method::PUT.as_str(), "PUT");
    assert_eq!(Method::HEAD.as_str(), "HEAD");
    assert_eq!(Method::PATCH.as_str(), "PATCH");
    assert_eq!(Method::OPTIONS.as_str(), "OPTIONS");
}

#[test]
fn host_string_carries_port() {
    assert_eq!(host_string(4444), "127.0.0.1:4444");
    assert_eq!(host_string(0), "127.0.0.1:0");
    assert_eq!(host_string(65535), "127.0.0.1:65535");
}

#[test]
fn request_has_exact_content_length() {
    let body = Json::Obj(vec![JsonField {
        key: "url".to_string(),
        value: Json::Str("https://example.com".to_string()),
    }]);
    let text = to_json_string(&body);
    assert_eq!(text, "{\"url\":\"https://example.com\"}");
    let req = build_request(Method::POST, "127.0.0.1:4444", "/session/abc/url", &body);
    let expected = format!(
        "POST /session/abc/url HTTP/1.1\r\nHost: 127.0.0.1:4444\r\nContent-Length: {}\r\n\r\n{}",
        text.len(),
        text
    );
    assert_eq!(req, expected);
}

#[test]
fn content_length_counts_bytes_not_chars() {
    let body = Json::Obj(vec![JsonField {
        key: "text".to_string(),
        value: Json::Str("h\u{e9}llo".to_string()),
    }]);
    let text = to_json_string(&body);
    // The accented character is two bytes in UTF-8.
    assert_eq!(text.len(), text.chars().count() + 1);
    let req = build_request(Method::POST, "127.0.0.1:9", "/x", &body);
    let header = format!("Content-Length: {}\r\n", text.len());
    assert!(req.contains(&header));
}

#[test]
fn empty_object_serializes_bare() {
    assert_eq!(to_json_string(&Json::empty_object()), "{}");
    let req = build_request(Method::GET, "127.0.0.1:4444", "/", &Json::empty_object());
    assert_eq!(
        req,
        "GET / HTTP/1.1\r\nHost: 127.0.0.1:4444\r\nContent-Length: 2\r\n\r\n{}"
    );
}

#[test]
fn serializer_escapes_strings() {
    let v = Json::Str("a\"b\\c\nd\re\tf\u{8}g\u{c}h\u{1}i".to_string());
    assert_eq!(
        to_json_string(&v),
        "\"a\\\"b\\\\c\\nd\\re\\tf\\bg\\fh\\u0001i\""
    );
    // The escaped text must parse back to the very characters given.
    let parsed: serde_json::Value = serde_json::from_str(&to_json_string(&v)).unwrap();
    assert_eq!(parsed.as_str().unwrap(), "a\"b\\c\nd\re\tf\u{8}g\u{c}h\u{1}i");
}

#[test]
fn serializer_output_is_valid_json() {
    let body = session_body(true);
    let text = to_json_string(&body);
    let parsed: serde_json::Value = serde_json::from_str(&text).unwrap();
    let args = &parsed["capabilities"]["firstMatch"][0]["moz:firefoxOptions"]["args"];
    assert_eq!(args[0].as_str().unwrap(), "-headless");
}

#[test]
fn parse_round_trips_structure() {
    let v = parse_or_empty(b"{ \"a\" : [ 1, true, null, \"x\" ], \"b\" : -2.5 }");
    assert_eq!(to_json_string(&v), "{\"a\":[1,true,null,\"x\"],\"b\":-2.5}");
}

#[test]
fn unparseable_body_reads_as_empty_object() {
    assert_eq!(to_json_string(&parse_or_empty(b"not json at all")), "{}");
    assert_eq!(to_json_string(&parse_or_empty(b"")), "{}");
    assert_eq!(to_json_string(&parse_or_empty(b"{\"truncated\":")), "{}");
}

#[test]
fn response_without_blank_line_reads_as_empty_object() {
    let raw = b"HTTP/1.1 200 OK\r\nContent-Type: text/plain".to_vec();
    assert_eq!(to_json_string(&response_json(&raw)), "{}");
}

#[test]
fn response_with_unparseable_body_reads_as_empty_object() {
    let raw = b"HTTP/1.1 200 OK\r\n\r\n<html>nope</html>".to_vec();
    assert_eq!(to_json_string(&response_json(&raw)), "{}");
}

#[test]
fn response_body_is_what_follows_first_blank_line() {
    let raw = b"HTTP/1.1 200 OK\r\nX: y\r\n\r\n{\"value\":\"ok\"}".to_vec();
    assert_eq!(to_json_string(&response_json(&raw)), "{\"value\":\"ok\"}");
}

#[test]
fn session_body_headless_carries_browser_flags() {
    let text = to_json_string(&session_body(true));
    let expected = "{\"capabilities\":{\"firstMatch\":[\
{\"browserName\":\"firefox\",\"moz:firefoxOptions\":{\"args\":[\"-headless\"]}},\
{\"browserName\":\"chrome\",\"goog:chromeOptions\":{\"args\":[\"--headless\"]}}\
]}}";
    assert_eq!(text, expected);
}

#[test]
fn session_body_windowed_has_empty_args() {
    let text = to_json_string(&session_body(false));
    let expected = "{\"capabilities\":{\"firstMatch\":[\
{\"browserName\":\"firefox\",\"moz:firefoxOptions\":{\"args\":[]}},\
{\"browserName\":\"chrome\",\"goog:chromeOptions\":{\"args\":[]}}\
]}}";
    assert_eq!(text, expected);
}

#[test]
fn construct_fails_against_unreachable_endpoint() {
    let mut t = ScriptTransport::new(vec![Err(())]);
    let r = Driver::new(&mut t, 4444);
    assert_eq!(r.err(), Some("Failed to connect to driver"));
    assert_eq!(t.requests.len(), 1);
}

#[test]
fn construct_checks_reachability_with_root_get() {
    let mut t = ScriptTransport::replying(&["{}"]);
    let d = Driver::new(&mut t, 4444).unwrap();
    assert_eq!(d.port, 4444);
    assert!(d.session_id.is_none());
    assert_eq!(
        t.requests[0],
        "GET / HTTP/1.1\r\nHost: 127.0.0.1:4444\r\nContent-Length: 2\r\n\r\n{}"
    );
}

#[test]
fn create_session_binds_to_returned_token() {
    let mut t = ScriptTransport::replying(&["{\"value\":{\"sessionId\":\"abc123\"}}"]);
    let mut d = Driver { port: 4444, session_id: None };
    assert!(d.new_session(&mut t, false).is_ok());
    assert_eq!(d.session_id.as_deref(), Some("abc123"));
    assert!(t.requests[0].starts_with("POST /session HTTP/1.1\r\n"));
}

#[test]
fn create_session_without_token_fails_unbound() {
    let mut t = ScriptTransport::replying(&["{\"value\":{}}"]);
    let mut d = Driver { port: 4444, session_id: None };
    let r = d.new_session(&mut t, false);
    assert_eq!(r.err(), Some("Failed to get session ID from response"));
    assert!(d.session_id.is_none());
}

#[test]
fn create_session_exchange_failure() {
    let mut t = ScriptTransport::new(vec![Err(())]);
    let mut d = Driver { port: 4444, session_id: None };
    let r = d.new_session(&mut t, true);
    assert_eq!(r.err(), Some("Failed to create new session"));
    assert!(d.session_id.is_none());
}

#[test]
fn unbound_operations_fail_without_any_exchange() {
    let mut t = ScriptTransport::replying(&["{}", "{}", "{}", "{}", "{}", "{}"]);
    let mut d = Driver { port: 4444, session_id: None };
    assert_eq!(d.navigate_to(&mut t, "https://example.com").err(), Some("Failed to navigate to url"));
    assert_eq!(d.get_current_url(&mut t).err(), Some("Failed to get current url"));
    assert_eq!(d.find_element_by_css_selector(&mut t, "#x").err(), Some("Failed to parse response"));
    let e = Element { element_id: "elem1".to_string() };
    assert_eq!(d.click_element(&mut t, e).err(), Some("Failed to click element"));
    let e = Element { element_id: "elem1".to_string() };
    assert_eq!(d.send_keys(&mut t, e, "hi").err(), Some("Failed to send keys"));
    assert_eq!(d.close(&mut t).err(), Some("Failed to close session"));
    assert!(t.requests.is_empty());
}

#[test]
fn navigate_posts_url_and_ignores_body() {
    let mut t = ScriptTransport::replying(&["ignored, not even json"]);
    let d = bound_driver(4444, "abc");
    assert!(d.navigate_to(&mut t, "https://example.com").is_ok());
    let expected_body = "{\"url\":\"https://example.com\"}";
    assert_eq!(
        t.requests[0],
        format!(
            "POST /session/abc/url HTTP/1.1\r\nHost: 127.0.0.1:4444\r\nContent-Length: {}\r\n\r\n{}",
            expected_body.len(),
            expected_body
        )
    );
}

#[test]
fn current_url_returns_value_string() {
    let mut t = ScriptTransport::replying(&["{\"value\":\"https://example.com/page\"}"]);
    let d = bound_driver(4444, "abc");
    assert_eq!(d.get_current_url(&mut t).unwrap(), "https://example.com/page");
    assert!(t.requests[0].starts_with("GET /session/abc/url HTTP/1.1\r\n"));
}

#[test]
fn current_url_fails_on_non_string_value() {
    let mut t = ScriptTransport::replying(&["{\"value\":{\"x\":1}}"]);
    let d = bound_driver(4444, "abc");
    assert_eq!(d.get_current_url(&mut t).err(), Some("Failed to get current url"));
}

#[test]
fn find_element_returns_first_field_handle() {
    let mut t = ScriptTransport::replying(
        &["{\"value\":{\"element-6066-11e4-a52e-4f735466cecf\":\"elem42\"}}"],
    );
    let d = bound_driver(4444, "abc");
    let e = d.find_element_by_css_selector(&mut t, "#login").unwrap();
    assert_eq!(e.element_id, "elem42");
    let expected_body = "{\"using\":\"css selector\",\"value\":\"#login\"}";
    assert!(t.requests[0].starts_with("POST /session/abc/element HTTP/1.1\r\n"));
    assert!(t.requests[0].ends_with(expected_body));
}

#[test]
fn find_element_error_shaped_response_fails() {
    let mut t = ScriptTransport::replying(&["{\"value\":{\"error\":\"no such element\"}}"]);
    let d = bound_driver(4444, "abc");
    let r = d.find_element_by_css_selector(&mut t, "#missing");
    assert_eq!(r.err(), Some("Failed to find element"));
}

#[test]
fn find_element_message_shaped_response_fails() {
    let mut t = ScriptTransport::replying(&["{\"value\":{\"message\":\"boom\",\"x\":\"y\"}}"]);
    let d = bound_driver(4444, "abc");
    let r = d.find_element_by_css_selector(&mut t, "#missing");
    assert_eq!(r.err(), Some("Failed to find element"));
}

#[test]
fn find_element_malformed_value_fails_explicitly() {
    let d = bound_driver(4444, "abc");
    for body in ["{\"value\":\"plain\"}", "{\"value\":{}}", "{}", "{\"value\":{\"k\":7}}"] {
        let mut t = ScriptTransport::replying(&[body]);
        let r = d.find_element_by_css_selector(&mut t, "#x");
        assert_eq!(r.err(), Some("Malformed element response"), "body: {}", body);
    }
}

#[test]
fn interpret_helpers_read_shapes() {
    let good = parse_or_empty(b"{\"value\":{\"sessionId\":\"s1\"}}");
    assert_eq!(interpret_session_response(&good).as_deref(), Some("s1"));
    assert!(interpret_session_response(&parse_or_empty(b"{\"value\":3}")).is_none());
    let url = parse_or_empty(b"{\"value\":\"u\"}");
    assert_eq!(interpret_url_response(&url).as_deref(), Some("u"));
    let found = interpret_element_response(&parse_or_empty(b"{\"value\":{\"h\":\"e9\"}}"));
    assert!(matches!(found, ElementRead::Found(s) if s == "e9"));
}

#[test]
fn retries_succeed_on_third_attempt_after_two_pauses() {
    let mut t = ScriptTransport::new(vec![
        Err(()),
        Err(()),
        Ok(http_response("{\"value\":{\"element-6066-11e4-a52e-4f735466cecf\":\"elem42\"}}")),
    ]);
    let d = bound_driver(4444, "abc");
    let e = d.find_element_by_css_selector_with_retries(&mut t, "#login", 3).unwrap();
    assert_eq!(e.element_id, "elem42");
    assert_eq!(t.requests.len(), 3);
    assert_eq!(t.pauses, vec![100, 100]);
}

#[test]
fn retries_zero_fails_without_attempt() {
    let mut t = ScriptTransport::replying(&["{}"]);
    let d = bound_driver(4444, "abc");
    let r = d.find_element_by_css_selector_with_retries(&mut t, "#login", 0);
    assert_eq!(r.err(), Some("Failed to find element"));
    assert!(t.requests.is_empty());
    assert!(t.pauses.is_empty());
}

#[test]
fn retries_exhausted_fails_as_not_found() {
    let mut t = ScriptTransport::new(vec![Err(()), Err(())]);
    let d = bound_driver(4444, "abc");
    let r = d.find_element_by_css_selector_with_retries(&mut t, "#login", 2);
    assert_eq!(r.err(), Some("Failed to find element"));
    assert_eq!(t.requests.len(), 2);
    assert_eq!(t.pauses, vec![100, 100]);
}

#[test]
fn click_posts_empty_body_to_element_path() {
    let mut t = ScriptTransport::replying(&["{\"value\":null}"]);
    let d = bound_driver(4444, "abc");
    let e = Element { element_id: "elem42".to_string() };
    assert!(d.click_element(&mut t, e).is_ok());
    assert_eq!(
        t.requests[0],
        "POST /session/abc/element/elem42/click HTTP/1.1\r\nHost: 127.0.0.1:4444\r\nContent-Length: 2\r\n\r\n{}"
    );
}

#[test]
fn send_keys_posts_text_to_element_path() {
    let mut t = ScriptTransport::replying(&["{\"value\":null}"]);
    let d = bound_driver(4444, "abc");
    let e = Element { element_id: "elem42".to_string() };
    assert!(d.send_keys(&mut t, e, "user1").is_ok());
    let expected_body = "{\"text\":\"user1\"}";
    assert_eq!(
        t.requests[0],
        format!(
            "POST /session/abc/element/elem42/value HTTP/1.1\r\nHost: 127.0.0.1:4444\r\nContent-Length: {}\r\n\r\n{}",
            expected_body.len(),
            expected_body
        )
    );
}

#[test]
fn close_unbinds_even_when_delete_fails() {
    let mut t = ScriptTransport::new(vec![Err(())]);
    let mut d = bound_driver(4444, "abc");
    let r = d.close(&mut t);
    assert_eq!(r.err(), Some("Failed to close session"));
    assert!(d.session_id.is_none());
}

#[test]
fn close_unbinds_on_success_too() {
    let mut t = ScriptTransport::replying(&["{\"value\":null}"]);
    let mut d = bound_driver(4444, "abc");
    assert!(d.close(&mut t).is_ok());
    assert!(d.session_id.is_none());
    assert!(t.requests[0].starts_with("DELETE /session/abc HTTP/1.1\r\n"));
}

#[test]
fn retries_while_unbound_make_no_exchange_but_still_pause() {
    let mut t = ScriptTransport::replying(&["{}"]);
    let d = Driver { port: 4444, session_id: None };
    let r = d.find_element_by_css_selector_with_retries(&mut t, "#x", 2);
    assert_eq!(r.err(), Some("Failed to find element"));
    assert!(t.requests.is_empty());
    assert_eq!(t.pauses, vec![100, 100]);
}

#[test]
fn create_session_replaces_existing_token() {
    let mut t = ScriptTransport::replying(&["{\"value\":{\"sessionId\":\"second\"}}"]);
    let mut d = bound_driver(4444, "first");
    assert!(d.new_session(&mut t, true).is_ok());
    assert_eq!(d.session_id.as_deref(), Some("second"));
}
