use ghreq::client::{error_status_outcome, is_error_status, send_failure, success_outcome, ClientConfig};
use ghreq::consts::{DEFAULT_ACCEPT, DEFAULT_API_VERSION, DEFAULT_USER_AGENT};
use ghreq::errors::{Error, CommonError, ErrorBody, ErrorPayload, ErrorResponseParser, ParseResponseError};
use ghreq::headers::{content_length, content_type_is_json, pagination_links, set_content_length};
use ghreq::http_url::{Endpoint, HttpUrl};
use ghreq::method::Method;
use ghreq::request::{empty_body_headers, json_body_headers, sized_body_headers};
use ghreq::response::ResponseParts;
use std::time::Duration;

fn path(segs: &[&str]) -> Endpoint {
    Endpoint::from_segments(segs.iter().map(|s| s.to_string()).collect())
}

#[test]
fn test_client_config_new_succeeds() {
    let _ = ClientConfig::new();
}

#[test]
fn resolve_default_request() {
    let cfg = ClientConfig::new();
    let parts = cfg.prepare_request(
        path(&["users", "alice", "repos"]),
        Method::Get,
        &Vec::new(),
        None,
        http::HeaderMap::new(),
        http::HeaderMap::new(),
    );
    assert_eq!(parts.url.as_str(), "https://api.github.com/users/alice/repos");
    assert_eq!(parts.method, Method::Get);
    assert_eq!(parts.timeout, None);
    assert_eq!(parts.headers.get("accept").unwrap(), DEFAULT_ACCEPT);
    assert_eq!(parts.headers.get("x-github-api-version").unwrap(), DEFAULT_API_VERSION);
    assert_eq!(parts.headers.get("user-agent").unwrap(), DEFAULT_USER_AGENT);
    assert!(parts.headers.get("authorization").is_none());
}

#[test]
fn params_timeout_and_header_precedence() {
    let cfg = ClientConfig::new()
        .with_base_url(HttpUrl::parse("https://ghe.example.com/api/v3/").unwrap())
        .set_timeout(Duration::from_secs(30));
    let mut body = http::HeaderMap::new();
    body.insert("content-type", "application/json".parse().unwrap());
    body.insert("accept", "text/plain".parse().unwrap());
    let mut req = http::HeaderMap::new();
    req.insert("accept", "application/vnd.github.raw".parse().unwrap());
    let params = vec![
        ("per_page".to_string(), "100".to_string()),
        ("q".to_string(), "a b".to_string()),
    ];
    let parts = cfg.prepare_request(path(&["search", "code"]), Method::Post, &params, None, body, req);
    assert_eq!(
        parts.url.as_str(),
        "https://ghe.example.com/api/v3/search/code?per_page=100&q=a+b"
    );
    assert_eq!(parts.method, Method::Post);
    assert_eq!(parts.timeout, Some(Duration::from_secs(30)));
    assert_eq!(parts.headers.get("accept").unwrap(), "application/vnd.github.raw");
    assert_eq!(parts.headers.get("content-type").unwrap(), "application/json");
    let own = cfg.prepare_request(
        path(&["x"]),
        Method::Get,
        &Vec::new(),
        Some(Duration::from_secs(1)),
        http::HeaderMap::new(),
        http::HeaderMap::new(),
    );
    assert_eq!(own.timeout, Some(Duration::from_secs(1)));
}

#[test]
fn auth_token() {
    let cfg = ClientConfig::new().with_auth_token("hunter2").unwrap();
    assert_eq!(cfg.headers().get("authorization").unwrap(), "Bearer hunter2");
    let bad = ClientConfig::new().with_auth_token("bad\ntoken");
    let cfg = bad.unwrap_err();
    assert!(cfg.headers().get("authorization").is_none());
}

#[test]
fn header_overrides() {
    let cfg = ClientConfig::new()
        .with_user_agent("my-custom-client/v1.2.3")
        .with_accept("application/json")
        .with_api_version("2099-01-01")
        .with_header("x-extra", "yes");
    let h = cfg.headers();
    assert_eq!(h.get("user-agent").unwrap(), "my-custom-client/v1.2.3");
    assert_eq!(h.get("accept").unwrap(), "application/json");
    assert_eq!(h.get("x-github-api-version").unwrap(), "2099-01-01");
    assert_eq!(h.get("x-extra").unwrap(), "yes");
}

#[test]
fn error_statuses() {
    assert!(!is_error_status(200));
    assert!(!is_error_status(304));
    assert!(!is_error_status(399));
    assert!(is_error_status(400));
    assert!(is_error_status(404));
    assert!(is_error_status(599));
    assert!(!is_error_status(600));
}

#[test]
fn body_headers() {
    assert_eq!(empty_body_headers().get("content-length").unwrap(), "0");
    assert_eq!(sized_body_headers(1234).get("content-length").unwrap(), "1234");
    assert_eq!(json_body_headers().get("content-type").unwrap(), "application/json");
    let mut h = http::HeaderMap::new();
    set_content_length(&mut h, 18446744073709551615);
    assert_eq!(content_length(&h), Some(18446744073709551615));
}

#[test]
fn json_content_types() {
    for (ct, expected) in [
        ("application/json", true),
        ("application/json; charset=utf-8", true),
        ("application/vnd.github+json", true),
        ("Application/JSON", true),
        ("text/json", false),
        ("text/plain", false),
        ("application/jsonx", false),
        ("not a mime type", false),
    ] {
        let mut h = http::HeaderMap::new();
        h.insert("content-type", ct.parse().unwrap());
        assert_eq!(content_type_is_json(&h), expected, "{ct}");
    }
    assert!(!content_type_is_json(&http::HeaderMap::new()));
}

#[test]
fn link_header_parsing() {
    let mut h = http::HeaderMap::new();
    h.insert(
        "link",
        r#"<https://api.github.com/x?page=1>; rel="first", <https://api.github.com/x?page=2>; rel="prev", <https://api.github.com/x?page=4>; rel="next", <https://api.github.com/x?page=7>; rel="last""#
            .parse()
            .unwrap(),
    );
    let links = pagination_links(&h);
    assert_eq!(links.first_page_number(), Some(1));
    assert_eq!(links.prev_page_number(), Some(2));
    assert_eq!(links.next_page_number(), Some(4));
    assert_eq!(links.last_page_number(), Some(7));
    assert_eq!(links.next.unwrap().as_str(), "https://api.github.com/x?page=4");

    let mut bad = http::HeaderMap::new();
    bad.insert("link", "garbage".parse().unwrap());
    let links = pagination_links(&bad);
    assert!(links.first.is_none() && links.prev.is_none() && links.next.is_none() && links.last.is_none());
    let links = pagination_links(&http::HeaderMap::new());
    assert!(links.next.is_none());
}

fn error_parts(content_type: Option<&str>) -> ResponseParts {
    let u = HttpUrl::parse("https://api.github.com/repos/nobody/nothing").unwrap();
    let mut headers = http::HeaderMap::new();
    if let Some(ct) = content_type {
        headers.insert("content-type", ct.parse().unwrap());
    }
    ResponseParts::new(u.clone(), u, Method::Get, 404, headers)
}

fn parse_error_body(content_type: Option<&str>, body: &[u8]) -> Result<ErrorBody, CommonError> {
    let mut p = ErrorResponseParser::new();
    p.handle_parts(&error_parts(content_type));
    p.handle_bytes(body);
    p.end().map(|r| r.into_body())
}

#[test]
fn not_found_json_is_pretty_printed() {
    let mut p = ErrorResponseParser::new();
    p.handle_parts(&error_parts(Some("application/json; charset=utf-8")));
    p.handle_bytes(br#"{"message": "#);
    p.handle_bytes(br#""Not Found"}"#);
    let resp = p.end().unwrap();
    assert_eq!(resp.status(), 404);
    let value: serde_json::Value = serde_json::from_str(r#"{"message": "Not Found"}"#).unwrap();
    let expected = serde_json::to_string_pretty(&value).unwrap();
    assert_eq!(resp.pretty_text(), Some(expected));
    assert_ne!(resp.pretty_text(), Some(r#"{"message": "Not Found"}"#.to_string()));
}

#[test]
fn error_body_kinds() {
    assert!(matches!(parse_error_body(None, b""), Ok(ErrorBody::Empty)));
    assert!(matches!(parse_error_body(Some("text/plain"), b" \n\t"), Ok(ErrorBody::Empty)));
    match parse_error_body(Some("text/plain"), b"Oops") {
        Ok(ErrorBody::Text(s)) => assert_eq!(s, "Oops"),
        other => panic!("unexpected {other:?}"),
    }
    match parse_error_body(None, b"\xff\xfe") {
        Ok(ErrorBody::Bytes(b)) => assert_eq!(b, vec![0xff, 0xfe]),
        other => panic!("unexpected {other:?}"),
    }
    assert!(matches!(
        parse_error_body(Some("application/json"), b"{oops"),
        Err(CommonError::Json(_))
    ));
    assert_eq!(ErrorBody::Text("hi".to_string()).pretty_text(), Some("hi".to_string()));
    assert_eq!(ErrorBody::Empty.pretty_text(), None);
}

#[test]
fn default_base_url_is_the_parsed_constant() {
    let parsed: HttpUrl = ghreq::consts::DEFAULT_API_URL.parse().unwrap();
    assert_eq!(parsed, HttpUrl::default_api());
    assert_eq!(HttpUrl::default_api().as_str(), "https://api.github.com/");
    assert_eq!(*ClientConfig::new().base_url(), parsed);
}

#[test]
fn methods_parse_from_str() {
    assert_eq!("patch".parse::<Method>().unwrap(), Method::Patch);
    assert!("OPTIONS".parse::<Method>().is_err());
}

#[test]
fn not_found_becomes_status_error() {
    let url = HttpUrl::parse("https://api.github.com/repos/nobody/nothing").unwrap();
    let mut p = ErrorResponseParser::new();
    let parts = error_parts(Some("application/json"));
    assert!(is_error_status(parts.status()));
    p.handle_parts(&parts);
    p.handle_bytes(br#"{"message": "Not Found"}"#);
    let outcome: Result<(), Error<String, CommonError>> =
        error_status_outcome(url.clone(), Method::Get, p.end().map_err(ParseResponseError::Parse));
    let err = outcome.unwrap_err();
    assert_eq!(err.method(), Method::Get);
    assert_eq!(*err.url(), url);
    assert!(matches!(err.payload_ref(), ErrorPayload::Status(_)));
    let value: serde_json::Value = serde_json::from_str(r#"{"message": "Not Found"}"#).unwrap();
    assert_eq!(err.pretty_text(), Some(serde_json::to_string_pretty(&value).unwrap()));
}

#[test]
fn unparsable_error_body_becomes_parse_error() {
    let url = HttpUrl::parse("https://api.github.com/x").unwrap();
    let mut p = ErrorResponseParser::new();
    p.handle_parts(&error_parts(Some("application/json")));
    p.handle_bytes(b"<html>");
    let outcome: Result<(), Error<String, CommonError>> =
        error_status_outcome(url, Method::Get, p.end().map_err(ParseResponseError::Parse));
    let err = outcome.unwrap_err();
    assert!(matches!(err.payload_ref(), ErrorPayload::ParseResponse(ParseResponseError::Parse(CommonError::Json(_)))));
    assert_eq!(err.pretty_text(), None);
}

#[test]
fn success_and_send_outcomes() {
    let url = HttpUrl::parse("https://api.github.com/x").unwrap();
    let ok: Result<u8, Error<String, CommonError>> = success_outcome(url.clone(), Method::Get, Ok(7));
    assert_eq!(ok.unwrap(), 7);
    let read_failure: Result<u8, Error<String, CommonError>> = success_outcome(
        url.clone(),
        Method::Head,
        Err(ParseResponseError::Read(std::io::Error::other("reset"))),
    );
    let err = read_failure.unwrap_err();
    assert_eq!(err.method(), Method::Head);
    assert!(matches!(err.payload_ref(), ErrorPayload::ParseResponse(ParseResponseError::Read(_))));
    let sent: Error<String, CommonError> = send_failure(url, Method::Delete, "dns".to_string());
    assert!(matches!(sent.into_payload(), ErrorPayload::Send(s) if s == "dns"));
}

#[test]
fn header_names_are_lowercased() {
    let cfg = ClientConfig::new().with_header("X-Custom_Thing!", "1");
    assert_eq!(cfg.headers().get("x-custom_thing!").unwrap(), "1");
    let cfg = ClientConfig::new().with_header("Accept", "text/html");
    assert_eq!(cfg.headers().get("accept").unwrap(), "text/html");
    assert_eq!(cfg.headers().len(), 3);
}

#[test]
fn header_name_counts() {
    let mut h = http::HeaderMap::new();
    assert!(ghreq::headers::has_at_most_names(&h, 0));
    h.insert("a", "1".parse().unwrap());
    h.append("a", "2".parse().unwrap());
    assert!(ghreq::headers::has_at_most_names(&h, 1));
    assert!(!ghreq::headers::has_at_most_names(&h, 0));
}
