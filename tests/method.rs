use ghreq::method::{Method, ParseMethodError};

const ALL: [Method; 6] = [
    Method::Get,
    Method::Head,
    Method::Post,
    Method::Put,
    Method::Patch,
    Method::Delete,
];

#[test]
fn parse_display_roundtrip() {
    for m in ALL {
        assert_eq!(Method::parse(m.as_str()).unwrap(), m);
    }
}

#[test]
fn parse_crazy_casing() {
    let cases = [
        ("get", Method::Get),
        ("Get", Method::Get),
        ("gET", Method::Get),
        ("GeT", Method::Get),
        ("head", Method::Head),
        ("Head", Method::Head),
        ("hEAD", Method::Head),
        ("post", Method::Post),
        ("Post", Method::Post),
        ("pOST", Method::Post),
        ("put", Method::Put),
        ("Put", Method::Put),
        ("pUT", Method::Put),
        ("patch", Method::Patch),
        ("Patch", Method::Patch),
        ("pATCH", Method::Patch),
        ("delete", Method::Delete),
        ("Delete", Method::Delete),
        ("dELETE", Method::Delete),
        ("DeLeTe", Method::Delete),
        ("dElEtE", Method::Delete),
    ];
    for (s, m) in cases {
        assert_eq!(Method::parse(s).unwrap(), m);
    }
}

#[test]
fn parse_unsupported() {
    for s in ["CONNECT", "OPTIONS", "TRACE", "PROPFIND", "", "GETS", "GE"] {
        assert_eq!(Method::parse(s), Err(ParseMethodError));
    }
}

#[test]
fn method_names_are_uppercase() {
    assert_eq!(Method::Get.as_str(), "GET");
    assert_eq!(Method::Head.as_str(), "HEAD");
    assert_eq!(Method::Post.as_str(), "POST");
    assert_eq!(Method::Put.as_str(), "PUT");
    assert_eq!(Method::Patch.as_str(), "PATCH");
    assert_eq!(Method::Delete.as_str(), "DELETE");
}

#[test]
fn mutating_methods() {
    assert!(!Method::Get.is_mutating());
    assert!(!Method::Head.is_mutating());
    assert!(Method::Post.is_mutating());
    assert!(Method::Put.is_mutating());
    assert!(Method::Patch.is_mutating());
    assert!(Method::Delete.is_mutating());
}

#[test]
fn non_ascii_letters_do_not_fold() {
    assert!(Method::parse("GEŤ").is_err());
    assert!(Method::parse("ǧet").is_err());
}
