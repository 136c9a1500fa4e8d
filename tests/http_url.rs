use ghreq::http_url::{Endpoint, HttpUrl, ParseHttpUrlError};
use ghreq::util::{get_page_number, parse_u64};

fn url(s: &str) -> HttpUrl {
    HttpUrl::parse(s).unwrap()
}

#[test]
fn push_special_chars() {
    let cases = [
        ("foo#bar", "https://api.github.com/base/foo%23bar"),
        ("foo%bar", "https://api.github.com/base/foo%25bar"),
        ("foo/bar", "https://api.github.com/base/foo%2Fbar"),
        ("foo?bar", "https://api.github.com/base/foo%3Fbar"),
    ];
    for (path, expected) in cases {
        let mut base = url("https://api.github.com/base");
        base.push(path);
        assert_eq!(base.as_str(), expected);
        assert_eq!(base.path_segments().len(), 2);
    }
}

#[test]
fn push_onto_directory() {
    let mut a = url("https://api.github.com/base");
    let mut b = url("https://api.github.com/base/");
    a.push("foo");
    b.push("foo");
    assert_eq!(a.as_str(), "https://api.github.com/base/foo");
    assert_eq!(b.as_str(), "https://api.github.com/base/foo");
}

#[test]
fn extend_nopath() {
    for base in ["https://api.github.com", "https://api.github.com/"] {
        let mut u = url(base);
        u.extend(&vec!["foo".to_string()]);
        assert_eq!(u.as_str(), "https://api.github.com/foo");
        let mut u = url(base);
        u.extend(&vec!["foo".to_string(), "bar".to_string()]);
        assert_eq!(u.as_str(), "https://api.github.com/foo/bar");
    }
}

#[test]
fn extend_path() {
    for base in ["https://api.github.com/foo/bar", "https://api.github.com/foo/bar/"] {
        let mut u = url(base);
        u.extend(&vec!["gnusto".to_string()]);
        assert_eq!(u.as_str(), "https://api.github.com/foo/bar/gnusto");
        let mut u = url(base);
        u.extend(&vec!["gnusto".to_string(), "cleesh".to_string()]);
        assert_eq!(u.as_str(), "https://api.github.com/foo/bar/gnusto/cleesh");
    }
}

#[test]
fn extend_with_nothing() {
    let mut a = url("https://api.github.com/foo");
    let mut b = url("https://api.github.com/foo/");
    a.extend(&Vec::new());
    b.extend(&Vec::new());
    assert_eq!(a.as_str(), "https://api.github.com/foo");
    assert_eq!(b.as_str(), "https://api.github.com/foo");
}

#[test]
fn ensure_dirpath() {
    let cases = [
        ("https://api.github.com", "https://api.github.com/"),
        ("https://api.github.com/", "https://api.github.com/"),
        ("https://api.github.com/foo", "https://api.github.com/foo/"),
        ("https://api.github.com/foo/", "https://api.github.com/foo/"),
    ];
    for (before, after) in cases {
        let mut u = url(before);
        u.ensure_dirpath();
        assert_eq!(u.as_str(), after);
        u.ensure_dirpath();
        assert_eq!(u.as_str(), after);
    }
}

#[test]
fn append_query_param() {
    let mut url = url("https://api.github.com/foo");
    assert_eq!(url.as_str(), "https://api.github.com/foo");
    url.append_query_param("bar", "baz");
    assert_eq!(url.as_str(), "https://api.github.com/foo?bar=baz");
    url.append_query_param("quux", "with space");
    assert_eq!(
        url.as_str(),
        "https://api.github.com/foo?bar=baz&quux=with+space"
    );
    url.append_query_param("bar", "rod");
    assert_eq!(
        url.as_str(),
        "https://api.github.com/foo?bar=baz&quux=with+space&bar=rod"
    );
}

#[test]
fn append_query_param_keeps_fragment() {
    let mut u = url("https://example.com/a#frag");
    u.append_query_param("k", "v&w");
    assert_eq!(u.as_str(), "https://example.com/a?k=v%26w#frag");
}

#[test]
fn parse_round_trips_text() {
    for s in [
        "https://api.github.com/",
        "http://example.com:8080/a/b/?x=1&y=2#top",
        "https://user:pw@example.com/x",
    ] {
        assert_eq!(url(s).as_str(), s);
    }
}

#[test]
fn parse_rejects_other_schemes() {
    assert_eq!(
        HttpUrl::parse("ftp://example.com/"),
        Err(ParseHttpUrlError::BadScheme)
    );
    assert_eq!(
        HttpUrl::parse("mailto:me@example.com"),
        Err(ParseHttpUrlError::BadScheme)
    );
    assert!(matches!(
        HttpUrl::parse("not a url"),
        Err(ParseHttpUrlError::Url(_))
    ));
}

#[test]
fn join_endpoint_url_and_path() {
    let base = url("https://api.github.com");
    let joined = base.join_endpoint(Endpoint::from_segments(vec![
        "users".to_string(),
        "alice".to_string(),
        "repos".to_string(),
    ]));
    assert_eq!(joined.as_str(), "https://api.github.com/users/alice/repos");
    let other = url("https://example.com/x?page=2");
    let joined = base.join_endpoint(Endpoint::from_url(other));
    assert_eq!(joined.as_str(), "https://example.com/x?page=2");
}

#[test]
fn test_get_page_number() {
    let cases = [
        ("https://api.github.com/users/jwodder/repos", None),
        ("https://api.github.com/users/jwodder/repos?per_page=100", None),
        ("https://api.github.com/users/jwodder/repos?page=3", Some(3)),
        (
            "https://api.github.com/users/jwodder/repos?per_page=100&page=3&flavor=vanilla",
            Some(3),
        ),
        ("https://api.github.com/users/jwodder/repos?page=3&page=4", Some(4)),
        ("https://api.github.com/users/jwodder/repos?page=three", None),
        (
            "https://api.github.com/users/jwodder/repos?page=three&page=4",
            Some(4),
        ),
        ("https://api.github.com/users/jwodder/repos?page=3&page=four", None),
    ];
    for (u, num) in cases {
        assert_eq!(get_page_number(&url(u)), num, "{u}");
    }
}

#[test]
fn parse_u64_like_std() {
    for s in ["0", "7", "+12", "007", "18446744073709551615", "18446744073709551616", "", "+", "-1", "1a", " 1"] {
        assert_eq!(parse_u64(s), s.parse::<u64>().ok(), "{s:?}");
    }
}

#[test]
fn push_onto_double_slash_path() {
    let mut u = url("https://api.github.com//");
    u.push("b");
    assert_eq!(u.as_str(), "https://api.github.com/b");
    let mut v = url("https://api.github.com//");
    v.ensure_dirpath();
    assert_eq!(v.as_str(), "https://api.github.com/");
}

#[test]
fn push_dot_segments_are_skipped() {
    let mut u = url("https://api.github.com/a");
    u.push(".");
    u.push("..");
    assert_eq!(u.as_str(), "https://api.github.com/a");
}

#[test]
fn segments_with_tabs_and_newlines() {
    let mut u = url("https://api.github.com/a/b");
    u.push("\t..");
    assert_eq!(u.as_str(), "https://api.github.com/a/");
    let mut u = url("https://api.github.com/a");
    u.push(".\n");
    assert_eq!(u.as_str(), "https://api.github.com/a/");
    let mut u = url("https://api.github.com/base");
    u.push("a\tb");
    assert_eq!(u.as_str(), "https://api.github.com/base/ab");
    let mut u = url("https://api.github.com/a");
    u.push("\r..");
    assert_eq!(u.as_str(), "https://api.github.com/");
}

#[test]
fn empty_segments_at_the_root() {
    let mut u = url("https://api.github.com");
    u.extend(&vec!["".to_string(), "x".to_string()]);
    assert_eq!(u.as_str(), "https://api.github.com/x");
    let mut u = url("https://api.github.com/a");
    u.extend(&vec!["".to_string(), "x".to_string()]);
    assert_eq!(u.as_str(), "https://api.github.com/a//x");
}

fn url_crate_extend(base: &str, segs: &[&str]) -> String {
    let mut u = url::Url::parse(base).unwrap();
    u.path_segments_mut().unwrap().pop_if_empty().extend(segs);
    u.as_str().to_string()
}

#[test]
fn agrees_with_url_crate() {
    let bases = [
        "https://api.github.com",
        "https://api.github.com/",
        "https://api.github.com//",
        "https://api.github.com/a",
        "https://api.github.com/a/",
        "https://api.github.com/a/b?x=1#f",
        "http://user@example.com:8080/p/q/",
    ];
    let seg_lists: [&[&str]; 10] = [
        &[],
        &["x"],
        &["", "x"],
        &["x", ""],
        &[".", "..", "y"],
        &["\t..", "z"],
        &[".\n", "z"],
        &["a b", "c/d", "e?f", "g#h", "i%j", "ü"],
        &["\t", "k"],
        &["..\r", "\t.\t"],
    ];
    for base in bases {
        assert_eq!(url(base).as_str(), url::Url::parse(base).unwrap().as_str(), "{base}");
        for segs in seg_lists {
            let mut mine = url(base);
            mine.extend(&segs.iter().map(|s| s.to_string()).collect());
            assert_eq!(mine.as_str(), url_crate_extend(base, segs), "{base} {segs:?}");
        }
        let mut mine = url(base);
        mine.ensure_dirpath();
        let mut theirs = url::Url::parse(base).unwrap();
        theirs.path_segments_mut().unwrap().pop_if_empty().push("");
        assert_eq!(mine.as_str(), theirs.as_str(), "{base}");
        let mut mine = url(base);
        mine.append_query_param("k e", "v&=+");
        let mut theirs = url::Url::parse(base).unwrap();
        theirs.query_pairs_mut().append_pair("k e", "v&=+");
        assert_eq!(mine.as_str(), theirs.as_str(), "{base}");
    }
}
