use ghreq::errors::CommonError;
use ghreq::http_url::HttpUrl;
use ghreq::method::Method;
use ghreq::parser::{Ignore, JsonResponse, LossyUtf8Text, ToWriter, Utf8Text};
use ghreq::response::ResponseParts;

fn parts(content_length: Option<&str>) -> ResponseParts {
    let u = HttpUrl::parse("https://api.github.com/x").unwrap();
    let mut headers = http::HeaderMap::new();
    if let Some(n) = content_length {
        headers.insert("content-length", n.parse().unwrap());
    }
    ResponseParts::new(u.clone(), u, Method::Get, 200, headers)
}

#[test]
fn ignore_parser() {
    let mut p = Ignore::new();
    p.handle_parts(&parts(None));
    p.handle_bytes(b"whatever");
    assert!(p.end().is_ok());
}

#[test]
fn utf8_text_parser() {
    let mut p = Utf8Text::new();
    p.handle_parts(&parts(Some("9")));
    p.handle_bytes("héllo".as_bytes());
    p.handle_bytes(b" you");
    assert_eq!(p.end().unwrap(), "héllo you");

    let mut p = Utf8Text::new();
    p.handle_parts(&parts(Some("not a number")));
    p.handle_bytes(b"ab\xffcd");
    assert!(matches!(p.end(), Err(CommonError::Utf8(_))));
}

#[test]
fn utf8_split_across_chunks() {
    let bytes = "€uro".as_bytes();
    let mut p = Utf8Text::new();
    p.handle_parts(&parts(None));
    p.handle_bytes(&bytes[..1]);
    p.handle_bytes(&bytes[1..]);
    assert_eq!(p.end().unwrap(), "€uro");
}

#[test]
fn lossy_text_parser() {
    let mut p = LossyUtf8Text::new();
    p.handle_parts(&parts(None));
    p.handle_bytes(b"ab\xffcd");
    assert_eq!(p.end().unwrap(), "ab\u{FFFD}cd");

    let mut p = LossyUtf8Text::new();
    p.handle_parts(&parts(None));
    p.handle_bytes("fine".as_bytes());
    assert_eq!(p.end().unwrap(), "fine");
}

#[test]
fn json_parser() {
    let mut p = JsonResponse::new();
    p.handle_parts(&parts(None));
    p.handle_bytes(br#"{"full_name": "#);
    p.handle_bytes(br#""octocat/hello", "stargazers_count": 3}"#);
    let v = p.end().unwrap();
    assert_eq!(v["full_name"], "octocat/hello");
    assert_eq!(v["stargazers_count"], 3);

    let mut p = JsonResponse::new();
    p.handle_parts(&parts(None));
    p.handle_bytes(b"{nope");
    assert!(matches!(p.end(), Err(CommonError::Json(_))));
}

#[test]
fn to_writer_parser() {
    let mut p = ToWriter::new(Vec::<u8>::new());
    assert!(p.accepts_bytes());
    p.writer_mut().extend_from_slice(b"abc");
    p.record_write(Ok(()));
    assert!(p.accepts_bytes());
    assert!(p.end().is_ok());

    let mut p = ToWriter::new(Vec::<u8>::new());
    p.record_write(Err(std::io::Error::other("disk full")));
    assert!(!p.accepts_bytes());
    p.record_write(Ok(()));
    assert!(matches!(p.end(), Err(CommonError::Io(_))));
}
