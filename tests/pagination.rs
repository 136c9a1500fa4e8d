use ghreq::errors::CommonError;
use ghreq::http_url::{Endpoint, HttpUrl};
use ghreq::method::Method;
use ghreq::pagination::{
    decode_page, Page, PageParser, PageResponse, PaginationInfo, PaginationState, PaginationStep,
    Paginator, ParsePageError,
};
use ghreq::response::ResponseParts;
use serde_json::Value;

fn json(s: &str) -> Value {
    serde_json::from_str(s).unwrap()
}

fn widgets() -> Vec<Value> {
    vec![
        json(r#"{"name": "Steve", "color": "aquamarine", "power": 9001}"#),
        json(r#"{"name": "Widget O'Malley", "color": "taupe", "power": 42}"#),
    ]
}

const WIDGET_LIST: &str = r#"[
    {"name": "Steve", "color": "aquamarine", "power": 9001},
    {"name": "Widget O'Malley", "color": "taupe", "power": 42}
]"#;

fn decode(src: &str) -> Result<Page<Value>, CommonError> {
    decode_page(src.as_bytes())
}

#[test]
fn pagination_from_list() {
    let page = decode(WIDGET_LIST).unwrap();
    assert_eq!(
        page,
        Page {
            items: widgets(),
            total_count: None,
            incomplete_results: None,
        }
    );
}

#[test]
fn pagination_from_map() {
    let src = format!(r#"{{"total_count": 17, "widgets": {WIDGET_LIST}}}"#);
    let page = decode(&src).unwrap();
    assert_eq!(page.items, widgets());
    assert_eq!(page.total_count, Some(17));
    assert_eq!(page.incomplete_results, None);
}

#[test]
fn pagination_from_map_no_total() {
    let src = format!(r#"{{"widgets": {WIDGET_LIST}}}"#);
    let page = decode(&src).unwrap();
    assert_eq!(page.items, widgets());
    assert_eq!(page.total_count, None);
    assert_eq!(page.incomplete_results, None);
}

#[test]
fn pagination_from_map_extra_field() {
    let src = format!(r#"{{"total_count": 17, "widgets": {WIDGET_LIST}, "mode": "ponens"}}"#);
    let page = decode(&src).unwrap();
    assert_eq!(page.items, widgets());
    assert_eq!(page.total_count, Some(17));
    assert_eq!(page.incomplete_results, None);
}

#[test]
fn pagination_from_map_extra_list_field() {
    let src = format!(
        r#"{{"total_count": 17, "widgets": {WIDGET_LIST}, "modes": ["ponens", "tollens"]}}"#
    );
    assert!(matches!(
        decode(&src),
        Err(CommonError::Page(ParsePageError::ListQty(2)))
    ));
}

#[test]
fn pagination_from_map_extra_no_list_field() {
    assert!(decode(r#"{"total_count": 0}"#).is_err());
}

#[test]
fn pagination_from_search_results() {
    let src = format!(
        r#"{{"total_count": 100, "incomplete_results": true, "items": {WIDGET_LIST}}}"#
    );
    let page = decode(&src).unwrap();
    assert_eq!(
        page,
        Page {
            items: widgets(),
            total_count: Some(100),
            incomplete_results: Some(true),
        }
    );
}

#[test]
fn mod_from_list() {
    let page = decode(WIDGET_LIST).unwrap();
    assert_eq!(page.items, widgets());
    assert_eq!(page.total_count, None);
    assert_eq!(page.incomplete_results, None);
}

#[test]
fn mod_from_map() {
    let src = format!(r#"{{"total_count": 17, "widgets": {WIDGET_LIST}}}"#);
    let page = decode(&src).unwrap();
    assert_eq!(
        page,
        Page {
            items: widgets(),
            total_count: Some(17),
            incomplete_results: None,
        }
    );
}

#[test]
fn mod_from_map_no_total() {
    let src = format!(r#"{{"widgets": {WIDGET_LIST}}}"#);
    let page = decode(&src).unwrap();
    assert_eq!(
        page,
        Page {
            items: widgets(),
            total_count: None,
            incomplete_results: None,
        }
    );
}

#[test]
fn mod_from_map_extra_field() {
    let src = format!(r#"{{"total_count": 17, "widgets": {WIDGET_LIST}, "mode": "ponens"}}"#);
    let page = decode(&src).unwrap();
    assert_eq!(
        page,
        Page {
            items: widgets(),
            total_count: Some(17),
            incomplete_results: None,
        }
    );
}

#[test]
fn from_map_extra_item_list_field() {
    let src = format!(
        r#"{{"total_count": 17, "widgets": {WIDGET_LIST},
            "more_widgets": [{{"name": "Gidget", "color": "chartreuse", "power": 23}}]}}"#
    );
    assert!(decode(&src).is_err());
}

#[test]
fn mod_from_map_extra_no_list_field() {
    assert!(decode(r#"{"total_count": 0}"#).is_err());
}

#[test]
fn mod_from_search_results() {
    let src = format!(
        r#"{{"total_count": 100, "incomplete_results": true, "items": {WIDGET_LIST}}}"#
    );
    let page = decode(&src).unwrap();
    assert_eq!(
        page,
        Page {
            items: widgets(),
            total_count: Some(100),
            incomplete_results: Some(true),
        }
    );
}

#[test]
fn decode_rejects_scalars_and_bad_json() {
    assert!(matches!(
        decode("5"),
        Err(CommonError::Page(ParsePageError::NotAPage))
    ));
    assert!(matches!(decode("[1, 2"), Err(CommonError::Json(_))));
    assert!(matches!(
        decode("{}"),
        Err(CommonError::Page(ParsePageError::ListQty(0)))
    ));
}

#[test]
fn decode_wrongly_typed_metadata_is_ignored() {
    let page = decode(r#"{"total_count": "many", "incomplete_results": 1, "items": []}"#).unwrap();
    assert_eq!(page.items, Vec::<Value>::new());
    assert_eq!(page.total_count, None);
    assert_eq!(page.incomplete_results, None);
}

fn parts(url: &str, link: Option<&str>) -> ResponseParts {
    let u = HttpUrl::parse(url).unwrap();
    let mut headers = http::HeaderMap::new();
    if let Some(l) = link {
        headers.insert(http::header::LINK, l.parse().unwrap());
    }
    ResponseParts::new(u.clone(), u, Method::Get, 200, headers)
}

#[test]
fn page_parser_combines_both_channels() {
    let link = r#"<https://api.github.com/search?q=x&page=3>; rel="next", <https://api.github.com/search?q=x&page=9>; rel="last""#;
    let mut parser = PageParser::new();
    parser.handle_parts(&parts("https://api.github.com/search?q=x&page=2", Some(link)));
    let body = format!(r#"{{"total_count": 100, "incomplete_results": true, "items": {WIDGET_LIST}}}"#);
    let (a, b) = body.as_bytes().split_at(10);
    parser.handle_bytes(a);
    parser.handle_bytes(b);
    let resp = parser.end().unwrap();
    assert_eq!(
        resp.next_url.unwrap().as_str(),
        "https://api.github.com/search?q=x&page=3"
    );
    assert_eq!(resp.items, widgets());
    assert_eq!(
        resp.info,
        PaginationInfo {
            current_page: Some(2),
            last_page: Some(9),
            total_count: Some(100),
            incomplete_results: Some(true),
        }
    );
}

#[test]
fn page_parser_without_links() {
    let mut parser = PageParser::new();
    parser.handle_parts(&parts("https://api.github.com/repositories", None));
    parser.handle_bytes(WIDGET_LIST.as_bytes());
    let resp = parser.end().unwrap();
    assert!(resp.next_url.is_none());
    assert_eq!(
        resp.info,
        PaginationInfo {
            current_page: None,
            last_page: None,
            total_count: None,
            incomplete_results: None,
        }
    );
}

fn page(items: Vec<u32>, next: Option<&str>) -> PageResponse<u32> {
    PageResponse {
        next_url: next.map(|n| HttpUrl::parse(n).unwrap()),
        items,
        info: PaginationInfo {
            current_page: None,
            last_page: None,
            total_count: None,
            incomplete_results: None,
        },
    }
}

/// Drive a session over canned pages; returns what was yielded and the
/// endpoints fetched.
fn drive(
    pages: Vec<Result<PageResponse<u32>, String>>,
) -> (Vec<Result<u32, String>>, Vec<(String, bool)>, Paginator<u32>) {
    let start = HttpUrl::parse("https://api.github.com/users/alice/repos").unwrap();
    let mut p = Paginator::new(Endpoint::from_url(start));
    assert_eq!(p.state(), PaginationState::NotStarted);
    let mut pages = pages.into_iter();
    let mut out = Vec::new();
    let mut fetched = Vec::new();
    for _ in 0..100 {
        match p.next_step() {
            PaginationStep::Yield(x) => out.push(Ok(x)),
            PaginationStep::Fetch { endpoint, first } => {
                let Endpoint::Url(u) = endpoint else {
                    panic!("expected a URL endpoint")
                };
                fetched.push((u.as_str(), first));
                let outcome = pages.next().expect("no more canned pages");
                if let Some(e) = p.page_fetched(outcome) {
                    out.push(Err(e));
                }
            }
            PaginationStep::Finished => break,
        }
    }
    (out, fetched, p)
}

#[test]
fn two_page_session() {
    let (out, fetched, p) = drive(vec![
        Ok(page(vec![1, 2], Some("https://api.github.com/users/alice/repos?page=2"))),
        Ok(page(vec![3], None)),
    ]);
    assert_eq!(out, vec![Ok(1), Ok(2), Ok(3)]);
    assert_eq!(
        fetched,
        vec![
            ("https://api.github.com/users/alice/repos".to_string(), true),
            ("https://api.github.com/users/alice/repos?page=2".to_string(), false),
        ]
    );
    assert_eq!(p.state(), PaginationState::Ended);
    assert_eq!(p.info(), None);
}

#[test]
fn failing_fetch_ends_session() {
    let (out, fetched, mut p) = drive(vec![
        Ok(page(vec![1], Some("https://api.github.com/users/alice/repos?page=2"))),
        Err("boom".to_string()),
    ]);
    assert_eq!(out, vec![Ok(1), Err("boom".to_string())]);
    assert_eq!(fetched.len(), 2);
    assert_eq!(p.state(), PaginationState::Ended);
    for _ in 0..3 {
        assert!(matches!(p.next_step(), PaginationStep::Finished));
    }
    assert_eq!(p.state(), PaginationState::Ended);
}

#[test]
fn state_becomes_paging_after_first_page() {
    let start = HttpUrl::parse("https://api.github.com/x").unwrap();
    let mut p: Paginator<u32> = Paginator::new(Endpoint::from_url(start));
    assert!(matches!(p.next_step(), PaginationStep::Fetch { first: true, .. }));
    assert!(p.page_fetched::<String>(Ok(page(vec![], None))).is_none());
    assert_eq!(p.state(), PaginationState::Paging);
    assert!(p.info().is_some());
    assert!(matches!(p.next_step(), PaginationStep::Finished));
    assert_eq!(p.state(), PaginationState::Ended);
}
