use vstd::prelude::*;
use vstd::utf8::encode_utf8;
use crate::http_url::{HttpUrl, HttpUrlView, parse_http_url};
use crate::util::{parse_u64, parse_u64_spec, get_page_number, page_number_of};

verus! {

/// A collection of HTTP headers
#[verifier::external_type_specification]
#[verifier::external_body]
#[verifier::reject_recursive_types(T)]
pub struct ExHeaderMap<T>(http::HeaderMap<T>);

/// One HTTP header value
#[verifier::external_type_specification]
#[verifier::external_body]
pub struct ExHeaderValue(http::HeaderValue);

/// What a header collection holds: for each (lowercase) header name, its
/// values in order, as bytes.  A name that is present has at least one value.
pub uninterp spec fn header_entries(h: http::HeaderMap) -> Map<Seq<char>, Seq<Seq<u8>>>;

/// The type, subtype and structured-syntax suffix of a MIME type, as
/// `mime::Mime`'s parser reports them; `None` when it does not parse.
pub uninterp spec fn mime_of(s: Seq<char>) -> Option<(Seq<char>, Seq<char>, Option<Seq<char>>)>;

/// The links of a `Link` header value, from `rel` name to raw URI, as
/// `parse_link_header::parse_with_rel` reports them; `None` when it fails.
pub uninterp spec fn link_rels_of(s: Seq<char>) -> Option<Map<Seq<char>, Seq<char>>>;

/// A character that `http` accepts in a header name (an RFC 7230 token
/// character)
pub open spec fn is_token_char(c: char) -> bool {
    ('a' <= c <= 'z') || ('A' <= c <= 'Z') || ('0' <= c <= '9') || c == '!' || c == '#' || c == '$' || c == '%'
        || c == '&' || c == '\'' || c == '*' || c == '+' || c == '-' || c == '.' || c == '^' || c == '_'
        || c == '`' || c == '|' || c == '~'
}

/// A name that `http::HeaderName::from_bytes` accepts: 1 to 65,535 token
/// characters
pub open spec fn is_header_name(s: Seq<char>) -> bool {
    0 < s.len() <= 65535 && forall|i: int| 0 <= i < s.len() ==> is_token_char(#[trigger] s[i])
}

/// A header name written in lowercase token characters, which `http` keeps
/// as it is
pub open spec fn is_lower_header_name(s: Seq<char>) -> bool {
    0 < s.len() <= 65535 && forall|i: int| 0 <= i < s.len() ==> ('a' <= #[trigger] s[i] <= 'z' || '0' <= s[i] <= '9'
        || s[i] == '-')
}

pub open spec fn lower_char(c: char) -> char {
    if 'A' <= c <= 'Z' {
        ((c as u8) + 32) as u8 as char
    } else {
        c
    }
}

/// The key under which a header name is stored: the name in lowercase
pub open spec fn header_key(s: Seq<char>) -> Seq<char> {
    s.map_values(|c: char| lower_char(c))
}

/// A lowercase name is a header name, and is its own key.
pub proof fn lemma_lower_name_is_key(s: Seq<char>)
    requires
        is_lower_header_name(s),
    ensures
        is_header_name(s),
        header_key(s) == s,
{
    assert(header_key(s) =~= s);
}

/// The number of names that a header collection built by this library may
/// hold.  With at most this many names, `http::HeaderMap` never asks for an
/// index table past its size limit of 32,768 slots: it grows when full (a
/// table of 4,096 slots already holds 3,072 names), `extend` clamps what it
/// reserves to the limit, and the early doubling on long probes needs a
/// fifth of the slots in use (6,554 names in a table at the limit).  So
/// `insert` and `extend` do not panic.
pub open spec fn max_header_names() -> nat {
    3000
}

/// A collection of at most `n` names
pub open spec fn names_at_most(m: Map<Seq<char>, Seq<Seq<u8>>>, n: nat) -> bool {
    m.dom().finite() && m.dom().len() <= n
}

/// A byte that a header value must hold to be read as text
pub open spec fn is_visible_ascii(b: u8) -> bool {
    (b >= 32 && b < 127) || b == 9
}

/// A string whose UTF-8 bytes may all stand in a header value
pub open spec fn is_header_text(s: Seq<char>) -> bool {
    forall|i: int| 0 <= i < s.len() ==> ((#[trigger] s[i]) as u32 >= 32 && s[i] as u32 != 127) || s[i] == '\t'
}

/// The entries after inserting a value, when it is a valid header value
pub open spec fn insert_if_valid(m: Map<Seq<char>, Seq<Seq<u8>>>, name: Seq<char>, value: Seq<char>) -> Map<Seq<char>, Seq<Seq<u8>>> {
    if is_header_text(value) {
        m.insert(name, seq![encode_utf8(value)])
    } else {
        m
    }
}

pub open spec fn is_visible_text(b: Seq<u8>) -> bool {
    forall|i: int| 0 <= i < b.len() ==> is_visible_ascii(#[trigger] b[i])
}

/// The characters of a string of ASCII bytes
pub open spec fn ascii_chars(b: Seq<u8>) -> Seq<char> {
    b.map_values(|x: u8| x as char)
}

/// The decimal digits of a number, as bytes
pub open spec fn decimal_bytes(n: nat) -> Seq<u8>
    decreases n,
{
    if n < 10 {
        seq![(48 + n) as u8]
    } else {
        decimal_bytes(n / 10).push((48 + n % 10) as u8)
    }
}

/// The first value of a header, as text, if it is present and is text
pub open spec fn header_text(entries: Map<Seq<char>, Seq<Seq<u8>>>, name: Seq<char>) -> Option<Seq<char>> {
    if entries.contains_key(name) && entries[name].len() > 0 && is_visible_text(entries[name][0]) {
        Some(ascii_chars(entries[name][0]))
    } else {
        None
    }
}

/// A header collection with no entries
pub open spec fn is_empty_entries(m: Map<Seq<char>, Seq<Seq<u8>>>) -> bool {
    m == Map::<Seq<char>, Seq<Seq<u8>>>::empty()
}

/// Relies on `http::HeaderMap::new`: an empty collection.
#[verifier::external_body]
pub fn new_headers() -> (r: http::HeaderMap)
    ensures
        is_empty_entries(header_entries(r)),
{
    http::HeaderMap::new()
}

/// Relies on `http::HeaderMap::clone`: the copy holds the same entries.
#[verifier::external_body]
pub fn clone_headers(h: &http::HeaderMap) -> (r: http::HeaderMap)
    ensures
        header_entries(r) == header_entries(*h),
{
    h.clone()
}

/// Relies on `http::HeaderMap::insert`, with the name made by
/// `HeaderName::from_bytes` (which accepts 1 to 65,535 token characters and
/// lowercases them) and the value by `HeaderValue::from_str`: the value
/// replaces all earlier values of the name.  `from_str` refuses a value with
/// a byte below 32 (but tab) or equal to 127, which is a value with such a
/// character (the bytes of other characters are all 128 or more); the map is
/// then unchanged.  Below `max_header_names` names `insert` cannot reach the
/// map's size limit.
#[verifier::external_body]
pub fn insert_header(h: &mut http::HeaderMap, name: &str, value: &str) -> (ok: bool)
    requires
        is_header_name(name@),
        header_entries(*old(h)).dom().finite(),
        header_entries(*old(h)).dom().len() < max_header_names(),
    ensures
        ok == is_header_text(value@),
        ok ==> header_entries(*final(h)) == header_entries(*old(h)).insert(header_key(name@), seq![encode_utf8(value@)]),
        !ok ==> header_entries(*final(h)) == header_entries(*old(h)),
{
    match (http::HeaderName::from_bytes(name.as_bytes()), http::HeaderValue::from_str(value)) {
        (Ok(n), Ok(v)) => {
            h.insert(n, v);
            true
        },
        _ => false,
    }
}

/// Relies on `http::HeaderMap::insert` of `HeaderValue::from(u64)` under
/// `content-length`: the value is the number's decimal digits.  Below
/// `max_header_names` names `insert` cannot reach the map's size limit.
#[verifier::external_body]
fn insert_content_length(h: &mut http::HeaderMap, length: u64)
    requires
        header_entries(*old(h)).dom().finite(),
        header_entries(*old(h)).dom().len() < max_header_names(),
    ensures
        header_entries(*final(h)) == header_entries(*old(h)).insert("content-length"@, seq![decimal_bytes(length as nat)]),
{
    h.insert(http::header::CONTENT_LENGTH, http::HeaderValue::from(length));
}

/// Relies on `http::HeaderMap::extend` with another `HeaderMap`: for each name
/// in `other`, its values replace those that `h` had.  With at most
/// `max_header_names` names between them, `extend` cannot reach the map's
/// size limit.
#[verifier::external_body]
pub fn extend_headers(h: &mut http::HeaderMap, other: http::HeaderMap)
    requires
        header_entries(*old(h)).dom().finite(),
        header_entries(other).dom().finite(),
        header_entries(*old(h)).dom().len() + header_entries(other).dom().len() <= max_header_names(),
    ensures
        header_entries(*final(h)) == header_entries(*old(h)).union_prefer_right(header_entries(other)),
{
    h.extend(other);
}

/// Relies on `http::HeaderMap::keys_len`: the number of names, of which a
/// map holds finitely many.
#[verifier::external_body]
fn header_name_count(h: &http::HeaderMap) -> (r: usize)
    ensures
        r == header_entries(*h).dom().len(),
        names_at_most(header_entries(*h), r as nat),
{
    h.keys_len()
}

/// Whether a header collection holds at most `n` names
pub fn has_at_most_names(h: &http::HeaderMap, n: usize) -> (r: bool)
    ensures
        r == names_at_most(header_entries(*h), n as nat),
        header_entries(*h).dom().finite(),
{
    header_name_count(h) <= n
}

/// Relies on `http::HeaderMap::get` and `HeaderValue::to_str`: the first value
/// of the name, when all its bytes are visible ASCII or tab.
#[verifier::external_body]
pub fn get_header_text(h: &http::HeaderMap, name: &str) -> (r: Option<String>)
    requires
        is_lower_header_name(name@),
    ensures
        match r {
            Some(s) => header_text(header_entries(*h), name@) == Some(s@),
            None => header_text(header_entries(*h), name@) is None,
        },
{
    h.get(name).and_then(|v| v.to_str().ok()).map(String::from)
}

/// Relies on `str::parse::<mime::Mime>`, `Mime::type_`, `Mime::subtype` and
/// `Mime::suffix`: the parts of a MIME type.
#[verifier::external_body]
fn parse_mime(s: &str) -> (r: Option<(String, String, Option<String>)>)
    ensures
        match r {
            Some(p) => mime_of(s@) == Some((p.0@, p.1@, crate::http_url::opt_view(p.2))),
            None => mime_of(s@) is None,
        },
{
    s.parse::<mime::Mime>().ok().map(|m| (
        m.type_().as_str().to_string(),
        m.subtype().as_str().to_string(),
        m.suffix().map(|x| x.as_str().to_string()),
    ))
}

/// Relies on `parse_link_header::parse_with_rel`: the `rel` names and raw URIs
/// of the links, one entry per name, in the order the crate's `HashMap` is
/// walked.
#[verifier::external_body]
fn parse_link_rels(s: &str) -> (r: Option<Vec<(String, String)>>)
    ensures
        match r {
            Some(v) => link_rels_of(s@) matches Some(m) && pairs_map(v@) == m && distinct_keys(v@),
            None => link_rels_of(s@) is None,
        },
{
    parse_link_header::parse_with_rel(s).ok().map(|m| m.into_iter().map(|(rel, link)| (rel, link.raw_uri)).collect())
}

pub open spec fn distinct_keys(v: Seq<(String, String)>) -> bool {
    forall|i: int, j: int| 0 <= i < v.len() && 0 <= j < v.len() && i != j ==> (#[trigger] v[i]).0@ != (#[trigger] v[j]).0@
}

pub open spec fn pairs_map(v: Seq<(String, String)>) -> Map<Seq<char>, Seq<char>> {
    Map::new(|k: Seq<char>| exists|i: int| 0 <= i < v.len() && (#[trigger] v[i]).0@ == k, |k: Seq<char>| v[choose|i: int| 0 <= i < v.len() && (#[trigger] v[i]).0@ == k].1@)
}

/// The mathematical value of a set of pagination links
pub struct PaginationLinksView {
    pub first: Option<HttpUrlView>,
    pub prev: Option<HttpUrlView>,
    pub next: Option<HttpUrlView>,
    pub last: Option<HttpUrlView>,
}

/// A set of pagination-related URLs parsed from a `Link` header
#[derive(Clone, Debug, Eq, Hash, PartialEq)]
pub struct PaginationLinks {
    /// The link with `rel` link type "first", if any
    pub first: Option<HttpUrl>,
    /// The link with `rel` link type "prev", if any
    pub prev: Option<HttpUrl>,
    /// The link with `rel` link type "next", if any
    pub next: Option<HttpUrl>,
    /// The link with `rel` link type "last", if any
    pub last: Option<HttpUrl>,
}

pub open spec fn opt_url_view(o: Option<HttpUrl>) -> Option<HttpUrlView> {
    match o {
        Some(u) => Some(u@),
        None => None,
    }
}

impl View for PaginationLinks {
    type V = PaginationLinksView;

    open spec fn view(&self) -> PaginationLinksView {
        PaginationLinksView {
            first: opt_url_view(self.first),
            prev: opt_url_view(self.prev),
            next: opt_url_view(self.next),
            last: opt_url_view(self.last),
        }
    }
}

/// The HTTP(S) URL of the link with the given `rel`, if any
pub open spec fn rel_url(rels: Map<Seq<char>, Seq<char>>, rel: Seq<char>) -> Option<HttpUrlView> {
    if rels.contains_key(rel) {
        parse_http_url(rels[rel])
    } else {
        None
    }
}

/// The pagination links that a `Link` header value gives
pub open spec fn links_of_header(value: Option<Seq<char>>) -> PaginationLinksView {
    match value {
        Some(v) => match link_rels_of(v) {
            Some(rels) => PaginationLinksView {
                first: rel_url(rels, "first"@),
                prev: rel_url(rels, "prev"@),
                next: rel_url(rels, "next"@),
                last: rel_url(rels, "last"@),
            },
            None => no_links(),
        },
        None => no_links(),
    }
}

pub open spec fn no_links() -> PaginationLinksView {
    PaginationLinksView { first: None, prev: None, next: None, last: None }
}

/// The pagination links of a header collection
pub open spec fn links_of(entries: Map<Seq<char>, Seq<Seq<u8>>>) -> PaginationLinksView {
    links_of_header(header_text(entries, "link"@))
}

/// Whether a MIME type is JSON: main type "application", and subtype "json"
/// or structured-syntax suffix "json"
pub open spec fn mime_is_json(m: Option<(Seq<char>, Seq<char>, Option<Seq<char>>)>) -> bool {
    match m {
        Some((t, s, suffix)) => t == "application"@ && (s == "json"@ || suffix == Some("json"@)),
        None => false,
    }
}

/// Whether headers declare a JSON body
pub open spec fn content_type_json(entries: Map<Seq<char>, Seq<Seq<u8>>>) -> bool {
    match header_text(entries, "content-type"@) {
        Some(t) => mime_is_json(mime_of(t)),
        None => false,
    }
}

/// The `Content-Length` of headers, when present and a number
pub open spec fn content_length_of(entries: Map<Seq<char>, Seq<Seq<u8>>>) -> Option<u64> {
    match header_text(entries, "content-length"@) {
        Some(t) => parse_u64_spec(t),
        None => None,
    }
}

fn lit(s: &str) -> (r: String)
    ensures
        r@ == s@,
{
    s.to_owned()
}

fn find_rel(rels: &Vec<(String, String)>, rel: &str) -> (r: Option<HttpUrl>)
    requires
        distinct_keys(rels@),
    ensures
        opt_url_view(r) == rel_url(pairs_map(rels@), rel@),
{
    let want = lit(rel);
    let mut i: usize = 0;
    while i < rels.len()
        invariant
            0 <= i <= rels@.len(),
            want@ == rel@,
            distinct_keys(rels@),
            forall|j: int| 0 <= j < i ==> (#[trigger] rels@[j]).0@ != rel@,
        decreases rels@.len() - i,
    {
        if rels[i].0 == want {
            proof {
                let m = pairs_map(rels@);
                assert(m.contains_key(rel@));
                let k = choose|k: int| 0 <= k < rels@.len() && (#[trigger] rels@[k]).0@ == rel@;
                assert(rels@[i as int].0@ == rel@);
                if k != i {
                    assert(rels@[k].0@ != rels@[i as int].0@);
                }
                assert(k == i);
            }
            return match HttpUrl::parse(rels[i].1.as_str()) {
                Ok(u) => Some(u),
                Err(_) => None,
            };
        }
        i = i + 1;
    }
    proof {
        assert(!pairs_map(rels@).contains_key(rel@));
    }
    None
}

/// Whether a MIME type, given by its parts, is JSON
pub fn is_json_mime(type_: &str, subtype: &str, suffix: Option<&str>) -> (r: bool)
    ensures
        r == (type_@ == "application"@ && (subtype@ == "json"@ || (suffix matches Some(x) && x@ == "json"@))),
{
    let t = lit(type_);
    let s = lit(subtype);
    let application = lit("application");
    let json = lit("json");
    let suffix_json = match suffix {
        Some(x) => lit(x) == json,
        None => false,
    };
    t == application && (s == json || suffix_json)
}

/// Returns true if the headers contain a `Content-Type` header with a value of
/// "application/json" or "application/{something}+json".
pub fn content_type_is_json(h: &http::HeaderMap) -> (r: bool)
    ensures
        r == content_type_json(header_entries(*h)),
{
    proof {
        reveal_strlit("content-type");
    }
    match get_header_text(h, "content-type") {
        Some(t) => match parse_mime(t.as_str()) {
            Some((ty, sub, suffix)) => {
                let sfx = match &suffix {
                    Some(x) => Some(x.as_str()),
                    None => None,
                };
                is_json_mime(ty.as_str(), sub.as_str(), sfx)
            },
            None => false,
        },
        None => false,
    }
}

/// Returns the value of the `Content-Length` header as a `u64`, or `None` if
/// the header is not set or the value could not be parsed into a `u64`.
pub fn content_length(h: &http::HeaderMap) -> (r: Option<u64>)
    ensures
        r == content_length_of(header_entries(*h)),
{
    proof {
        reveal_strlit("content-length");
    }
    match get_header_text(h, "content-length") {
        Some(t) => parse_u64(t.as_str()),
        None => None,
    }
}

/// Set the value of the `Content-Length` header to the given integer value.
pub fn set_content_length(h: &mut http::HeaderMap, length: u64)
    requires
        header_entries(*old(h)).dom().finite(),
        header_entries(*old(h)).dom().len() < max_header_names(),
    ensures
        header_entries(*final(h)) == header_entries(*old(h)).insert("content-length"@, seq![decimal_bytes(length as nat)]),
{
    insert_content_length(h, length);
}

/// Parse the value of the `Link` header and return the links with `rel` types
/// of "first", "prev", "next", and "last".  If there is no `Link` header or it
/// could not be parsed, all fields in the returned structure are `None`.
pub fn pagination_links(h: &http::HeaderMap) -> (r: PaginationLinks)
    ensures
        r@ == links_of(header_entries(*h)),
{
    proof {
        reveal_strlit("link");
    }
    let none = PaginationLinks { first: None, prev: None, next: None, last: None };
    let text = match get_header_text(h, "link") {
        Some(t) => t,
        None => return none,
    };
    let rels = match parse_link_rels(text.as_str()) {
        Some(v) => v,
        None => return none,
    };
    PaginationLinks {
        first: find_rel(&rels, "first"),
        prev: find_rel(&rels, "prev"),
        next: find_rel(&rels, "next"),
        last: find_rel(&rels, "last"),
    }
}

fn opt_page_number(u: &Option<HttpUrl>) -> (r: Option<u64>)
    ensures
        r == (match opt_url_view(*u) {
            Some(v) => page_number_of(v),
            None => None,
        }),
{
    match u {
        Some(url) => get_page_number(url),
        None => None,
    }
}

impl PaginationLinks {
    /// Extracts the value of the `page` query parameter from `first`.
    pub fn first_page_number(&self) -> (r: Option<u64>)
        ensures
            r == (match self@.first {
                Some(v) => page_number_of(v),
                None => None,
            }),
    {
        opt_page_number(&self.first)
    }

    /// Extracts the value of the `page` query parameter from `prev`.
    pub fn prev_page_number(&self) -> (r: Option<u64>)
        ensures
            r == (match self@.prev {
                Some(v) => page_number_of(v),
                None => None,
            }),
    {
        opt_page_number(&self.prev)
    }

    /// Extracts the value of the `page` query parameter from `next`.
    pub fn next_page_number(&self) -> (r: Option<u64>)
        ensures
            r == (match self@.next {
                Some(v) => page_number_of(v),
                None => None,
            }),
    {
        opt_page_number(&self.next)
    }

    /// Extracts the value of the `page` query parameter from `last`.
    pub fn last_page_number(&self) -> (r: Option<u64>)
        ensures
            r == (match self@.last {
                Some(v) => page_number_of(v),
                None => None,
            }),
    {
        opt_page_number(&self.last)
    }
}

} // verus!
