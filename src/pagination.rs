use vstd::prelude::*;
use crate::errors::{CommonError, json_parses};
use crate::headers::{pagination_links, links_of, header_entries, opt_url_view, new_headers, is_empty_entries};
use crate::http_url::{HttpUrl, HttpUrlView, Endpoint, EndpointView};
use crate::response::{ResponseParts, ResponsePartsView};
use crate::util::{get_page_number, page_number_of};
use crate::parser::{append_bytes, reserve_for};

verus! {

/// Error for a JSON document that is not a page of results
#[derive(Clone, Copy, Debug, Eq, PartialEq, Structural)]
pub enum ParsePageError {
    /// The document is neither an array nor an object
    NotAPage,
    /// The document is an object with other than exactly one array field;
    /// the number of array fields is given
    ListQty(usize)}

/// One page of results: its items, and the metadata that an object-shaped
/// page may carry
#[derive(Clone, Debug, Eq, PartialEq)]
pub struct Page<T> {
    pub items: Vec<T>,
    pub total_count: Option<u64>,
    pub incomplete_results: Option<bool>}

/// A field of an object-shaped page, as far as paging is concerned
#[derive(Clone, Debug, Eq, PartialEq)]
pub enum MapPageValue<T> {
    /// A number that fits in a `u64`
    Count(u64),
    /// A boolean
    Bool(bool),
    /// An array
    List(Vec<T>),
    /// Anything else
    Other}

/// A page document before normalization: a bare array, or the fields of an
/// object in order
#[derive(Clone, Debug, Eq, PartialEq)]
pub enum RawPage<T> {
    Array(Vec<T>),
    Object(Vec<(String, MapPageValue<T>)>)}

/// The arrays among the fields of an object, in order
pub open spec fn lists_in<T>(e: Seq<(String, MapPageValue<T>)>) -> Seq<Seq<T>>
    decreases e.len(),
{
    if e.len() == 0 {
        Seq::empty()
    } else {
        let rest = lists_in(e.drop_last());
        match e.last().1 {
            MapPageValue::List(v) => rest.push(v@),
            _ => rest}
    }
}

/// The value of the last field with the given name
pub open spec fn field_of<T>(e: Seq<(String, MapPageValue<T>)>, key: Seq<char>) -> Option<MapPageValue<T>>
    decreases e.len(),
{
    if e.len() == 0 {
        None
    } else if e.last().0@ == key {
        Some(e.last().1)
    } else {
        field_of(e.drop_last(), key)
    }
}

/// The `total_count` field, when it is a number that fits in a `u64`
pub open spec fn total_count_of<T>(e: Seq<(String, MapPageValue<T>)>) -> Option<u64> {
    match field_of(e, "total_count"@) {
        Some(MapPageValue::Count(n)) => Some(n),
        _ => None}
}

/// The `incomplete_results` field, when it is a boolean
pub open spec fn incomplete_of<T>(e: Seq<(String, MapPageValue<T>)>) -> Option<bool> {
    match field_of(e, "incomplete_results"@) {
        Some(MapPageValue::Bool(b)) => Some(b),
        _ => None}
}

/// The normalized page of a raw page document: its items, total count and
/// completeness flag
pub open spec fn page_of<T>(raw: RawPage<T>) -> Result<(Seq<T>, Option<u64>, Option<bool>), ParsePageError> {
    match raw {
        RawPage::Array(v) => Ok((v@, None, None)),
        RawPage::Object(e) => {
            let lists = lists_in(e@);
            if lists.len() == 1 {
                Ok((lists[0], total_count_of(e@), incomplete_of(e@)))
            } else {
                Err(ParsePageError::ListQty(lists.len() as usize))
            }
        }}
}

pub open spec fn page_view<T>(p: Page<T>) -> (Seq<T>, Option<u64>, Option<bool>) {
    (p.items@, p.total_count, p.incomplete_results)
}

proof fn lemma_lists_in_len<T>(e: Seq<(String, MapPageValue<T>)>)
    ensures
        lists_in(e).len() <= e.len(),
    decreases e.len(),
{
    if e.len() > 0 {
        lemma_lists_in_len(e.drop_last());
    }
}

fn str_eq(s: &String, lit: &str) -> (r: bool)
    ensures
        r == (s@ == lit@),
{
    let l = lit.to_owned();
    *s == l
}

impl<T> Page<T> {
    /// Normalize a raw page document.  A bare array gives the items alone; an
    /// object must hold exactly one array field, which gives the items, and
    /// its `total_count` and `incomplete_results` fields are read when they
    /// have the right type.  Other fields are ignored.
    pub fn from_raw(raw: RawPage<T>) -> (r: Result<Page<T>, ParsePageError>)
        ensures
            match r {
                Ok(p) => page_of(raw) == Ok::<_, ParsePageError>(page_view(p)),
                Err(e) => page_of(raw) == Err::<(Seq<T>, Option<u64>, Option<bool>), _>(e)},
    {
        match raw {
            RawPage::Array(items) => Ok(Page { items, total_count: None, incomplete_results: None }),
            RawPage::Object(mut entries) => {
                let ghost e = entries@;
                let mut count: usize = 0;
                let mut idx: usize = 0;
                let mut total: Option<u64> = None;
                let mut incomplete: Option<bool> = None;
                let mut i: usize = 0;
                while i < entries.len()
                    invariant
                        e == entries@,
                        0 <= i <= e.len(),
                        count == lists_in(e.subrange(0, i as int)).len(),
                        count >= 1 ==> idx < i && e[idx as int].1 is List && lists_in(e.subrange(0, i as int)).last() == e[idx as int].1->List_0@,
                        total == total_count_of(e.subrange(0, i as int)),
                        incomplete == incomplete_of(e.subrange(0, i as int)),
                    decreases e.len() - i,
                {
                    let ghost sub = e.subrange(0, i + 1 as int);
                    proof {
                        assert(sub.drop_last() =~= e.subrange(0, i as int));
                        assert(sub.last() == e[i as int]);
                        lemma_lists_in_len(e.subrange(0, i as int));
                    }
                    let is_total = str_eq(&entries[i].0, "total_count");
                    let is_incomplete = str_eq(&entries[i].0, "incomplete_results");
                    match &entries[i].1 {
                        MapPageValue::List(_) => {
                            count = count + 1;
                            idx = i;
                        },
                        _ => {}}
                    if is_total {
                        total = match &entries[i].1 {
                            MapPageValue::Count(n) => Some(*n),
                            _ => None};
                    }
                    if is_incomplete {
                        incomplete = match &entries[i].1 {
                            MapPageValue::Bool(b) => Some(*b),
                            _ => None};
                    }
                    proof {
                        if !is_total {
                            assert(field_of(sub, "total_count"@) == field_of(e.subrange(0, i as int), "total_count"@));
                        }
                        if !is_incomplete {
                            assert(field_of(sub, "incomplete_results"@) == field_of(e.subrange(0, i as int), "incomplete_results"@));
                        }
                    }
                    i = i + 1;
                }
                proof {
                    assert(e.subrange(0, e.len() as int) =~= e);
                }
                if count == 1 {
                    let v = entries.remove(idx);
                    match v.1 {
                        MapPageValue::List(items) => Ok(Page { items, total_count: total, incomplete_results: incomplete }),
                        _ => {
                            proof {
                                assert(false);
                            }
                            Err(ParsePageError::ListQty(count))
                        }}
                } else {
                    Err(ParsePageError::ListQty(count))
                }
            }}
    }
}

/// What a field of an object-shaped page document is, as far as paging is
/// concerned: a number that fits in a `u64`, a boolean, an array of so many
/// elements, or anything else
pub enum FieldShape {
    Count(u64),
    Flag(bool),
    List(nat),
    Other,
}

/// The shape of a JSON document: an array of so many elements, or the fields
/// of an object in order
pub enum PageShape {
    Array(nat),
    Object(Seq<(Seq<char>, FieldShape)>),
}

/// The shape of the JSON document in `b`, as `serde_json` parses it; `None`
/// when it is neither an array nor an object
pub uninterp spec fn page_shape_of(b: Seq<u8>) -> Option<PageShape>;

pub open spec fn field_shape<T>(v: MapPageValue<T>) -> FieldShape {
    match v {
        MapPageValue::Count(n) => FieldShape::Count(n),
        MapPageValue::Bool(f) => FieldShape::Flag(f),
        MapPageValue::List(l) => FieldShape::List(l@.len()),
        MapPageValue::Other => FieldShape::Other,
    }
}

pub open spec fn fields_shape<T>(e: Seq<(String, MapPageValue<T>)>) -> Seq<(Seq<char>, FieldShape)> {
    e.map_values(|p: (String, MapPageValue<T>)| (p.0@, field_shape(p.1)))
}

/// The shape of a raw page document
pub open spec fn shape_of<T>(raw: RawPage<T>) -> PageShape {
    match raw {
        RawPage::Array(v) => PageShape::Array(v@.len()),
        RawPage::Object(e) => PageShape::Object(fields_shape(e@)),
    }
}

/// The lengths of the arrays among an object's fields, in order
pub open spec fn shape_lists(f: Seq<(Seq<char>, FieldShape)>) -> Seq<nat>
    decreases f.len(),
{
    if f.len() == 0 {
        Seq::empty()
    } else {
        let rest = shape_lists(f.drop_last());
        match f.last().1 {
            FieldShape::List(n) => rest.push(n),
            _ => rest,
        }
    }
}

/// The last field with the given name
pub open spec fn shape_field(f: Seq<(Seq<char>, FieldShape)>, key: Seq<char>) -> Option<FieldShape>
    decreases f.len(),
{
    if f.len() == 0 {
        None
    } else if f.last().0 == key {
        Some(f.last().1)
    } else {
        shape_field(f.drop_last(), key)
    }
}

/// What a page document of the given shape normalizes to: the number of
/// items, the total count and the completeness flag
pub open spec fn page_of_shape(s: PageShape) -> Result<(nat, Option<u64>, Option<bool>), ParsePageError> {
    match s {
        PageShape::Array(n) => Ok((n, None, None)),
        PageShape::Object(f) => {
            let lists = shape_lists(f);
            if lists.len() == 1 {
                Ok((
                    lists[0],
                    match shape_field(f, "total_count"@) {
                        Some(FieldShape::Count(n)) => Some(n),
                        _ => None,
                    },
                    match shape_field(f, "incomplete_results"@) {
                        Some(FieldShape::Flag(b)) => Some(b),
                        _ => None,
                    },
                ))
            } else {
                Err(ParsePageError::ListQty(lists.len() as usize))
            }
        },
    }
}

/// What decoding the bytes of a page document gives: `None` when they are
/// not JSON
pub open spec fn decoded_shape(b: Seq<u8>) -> Option<Result<(nat, Option<u64>, Option<bool>), ParsePageError>> {
    if !json_parses(b) {
        None
    } else {
        match page_shape_of(b) {
            None => Some(Err(ParsePageError::NotAPage)),
            Some(sh) => Some(page_of_shape(sh)),
        }
    }
}

/// A decoding result agrees with what the bytes give
pub open spec fn page_decode_matches(b: Seq<u8>, r: Result<Page<serde_json::Value>, CommonError>) -> bool {
    match decoded_shape(b) {
        None => r matches Err(CommonError::Json(_)),
        Some(Ok((n, t, i))) => r matches Ok(p) && p.items@.len() == n && p.total_count == t && p.incomplete_results == i,
        Some(Err(pe)) => r matches Err(CommonError::Page(x)) && x == pe,
    }
}

proof fn lemma_fields_shape_drop_last<T>(e: Seq<(String, MapPageValue<T>)>)
    requires
        e.len() > 0,
    ensures
        fields_shape(e.drop_last()) == fields_shape(e).drop_last(),
        fields_shape(e).last() == (e.last().0@, field_shape(e.last().1)),
{
    assert(fields_shape(e.drop_last()) =~= fields_shape(e).drop_last());
}

proof fn lemma_shape_agrees<T>(e: Seq<(String, MapPageValue<T>)>, key: Seq<char>)
    ensures
        shape_lists(fields_shape(e)).len() == lists_in(e).len(),
        forall|j: int| 0 <= j < lists_in(e).len() ==> shape_lists(fields_shape(e))[j] == (#[trigger] lists_in(e)[j]).len(),
        shape_field(fields_shape(e), key) == match field_of(e, key) {
            Some(v) => Some(field_shape(v)),
            None => None::<FieldShape>,
        },
    decreases e.len(),
{
    if e.len() > 0 {
        lemma_fields_shape_drop_last(e);
        lemma_shape_agrees(e.drop_last(), key);
        let f = fields_shape(e);
        assert(f.len() > 0);
        assert(f.drop_last() == fields_shape(e.drop_last()));
    }
}

/// A raw page document normalizes as its shape does: the same outcome, with
/// as many items, the same total count and the same completeness flag.
pub proof fn lemma_page_of_shape<T>(raw: RawPage<T>)
    ensures
        match page_of(raw) {
            Ok((items, t, i)) => page_of_shape(shape_of(raw)) == Ok::<_, ParsePageError>((items.len(), t, i)),
            Err(e) => page_of_shape(shape_of(raw)) == Err::<(nat, Option<u64>, Option<bool>), _>(e),
        },
{
    match raw {
        RawPage::Array(v) => {},
        RawPage::Object(e) => {
            lemma_shape_agrees(e@, "total_count"@);
            lemma_shape_agrees(e@, "incomplete_results"@);
            if lists_in(e@).len() == 1 {
                assert(shape_lists(fields_shape(e@))[0] == lists_in(e@)[0].len());
            }
        },
    }
}

/// Relies on `serde_json::from_slice::<serde_json::Value>` and on the
/// variants of `Value` (with `Number::as_u64` for numbers): the document as
/// an array, or as the fields of an object (as `serde_json::Map::into_iter`
/// yields them), or `None` for any other document.
#[verifier::external_body]
fn parse_page_document(b: &[u8]) -> (r: Result<Option<RawPage<serde_json::Value>>, serde_json::Error>)
    ensures
        r is Ok <==> json_parses(b@),
        r matches Ok(o) ==> match o {
            Some(raw) => page_shape_of(b@) == Some(shape_of(raw)),
            None => page_shape_of(b@) is None,
        },
{
    let v: serde_json::Value = serde_json::from_slice(b)?;
    Ok(match v {
        serde_json::Value::Array(a) => Some(RawPage::Array(a)),
        serde_json::Value::Object(m) => Some(RawPage::Object(m.into_iter().map(|(k, x)| (k, match x {
            serde_json::Value::Number(n) => n.as_u64().map_or(MapPageValue::Other, MapPageValue::Count),
            serde_json::Value::Bool(f) => MapPageValue::Bool(f),
            serde_json::Value::Array(a) => MapPageValue::List(a),
            _ => MapPageValue::Other,
        })).collect())),
        _ => None,
    })
}

/// Decode a page of results from the bytes of a JSON document.  The items
/// are left as JSON values.
pub fn decode_page(bytes: &[u8]) -> (r: Result<Page<serde_json::Value>, CommonError>)
    ensures
        page_decode_matches(bytes@, r),
{
    let raw = match parse_page_document(bytes) {
        Ok(Some(raw)) => raw,
        Ok(None) => return Err(CommonError::Page(ParsePageError::NotAPage)),
        Err(e) => return Err(CommonError::Json(e)),
    };
    proof {
        lemma_page_of_shape(raw);
    }
    match Page::from_raw(raw) {
        Ok(p) => Ok(p),
        Err(e) => Err(CommonError::Page(e)),
    }
}

/// Pagination metadata of one page
#[derive(Clone, Copy, Debug, Eq, PartialEq, Structural)]
pub struct PaginationInfo {
    /// The page number that the request asked for, if its URL has one
    pub current_page: Option<u64>,
    /// The page number of the `last` link, if any
    pub last_page: Option<u64>,
    /// The total number of results that the page reports, if any
    pub total_count: Option<u64>,
    /// Whether the page reports its results as incomplete, if it does
    pub incomplete_results: Option<bool>}

/// The parsed response to one page request
#[derive(Debug)]
pub struct PageResponse<T> {
    /// The URL of the next page, if any
    pub next_url: Option<HttpUrl>,
    /// The items of the page
    pub items: Vec<T>,
    /// The pagination metadata of the page
    pub info: PaginationInfo}

/// The metadata that response parts give before the body is read
pub open spec fn parts_info(parts: ResponsePartsView) -> PaginationInfo {
    PaginationInfo {
        current_page: page_number_of(parts.url),
        last_page: match links_of(parts.headers).last {
            Some(u) => page_number_of(u),
            None => None},
        total_count: None,
        incomplete_results: None}
}

/// A response parser for one page of results
#[derive(Debug)]
pub struct PageParser {
    next_url: Option<HttpUrl>,
    info: Option<PaginationInfo>,
    buf: Vec<u8>}

impl PageParser {
    pub closed spec fn spec_next_url(&self) -> Option<HttpUrlView> {
        opt_url_view(self.next_url)
    }

    pub closed spec fn spec_info(&self) -> Option<PaginationInfo> {
        self.info
    }

    pub closed spec fn spec_buf(&self) -> Seq<u8> {
        self.buf@
    }

    /// A parser that has seen nothing yet
    pub fn new() -> (r: PageParser)
        ensures
            r.spec_next_url() is None,
            r.spec_info() is None,
            r.spec_buf() == Seq::<u8>::empty(),
    {
        PageParser { next_url: None, info: None, buf: Vec::new() }
    }

    /// Take note of the response parts: the page number of the request URL,
    /// and the `next` and `last` links.
    pub fn handle_parts(&mut self, parts: &ResponseParts)
        ensures
            final(self).spec_info() == Some(parts_info(parts@)),
            final(self).spec_next_url() == links_of(parts@.headers).next,
            final(self).spec_buf() == old(self).spec_buf(),
    {
        let links = pagination_links(parts.headers());
        let current_page = get_page_number(parts.url());
        let last_page = links.last_page_number();
        self.info = Some(PaginationInfo { current_page, last_page, total_count: None, incomplete_results: None });
        self.next_url = links.next;
        reserve_for(&mut self.buf, parts);
    }

    /// Take in a chunk of the body
    pub fn handle_bytes(&mut self, buf: &[u8])
        ensures
            final(self).spec_info() == old(self).spec_info(),
            final(self).spec_next_url() == old(self).spec_next_url(),
            final(self).spec_buf() == old(self).spec_buf() + buf@,
    {
        append_bytes(&mut self.buf, buf);
    }

    /// Combine the decoded page with what the response parts gave
    pub fn finish<T>(self, page: Result<Page<T>, CommonError>) -> (r: Result<PageResponse<T>, CommonError>)
        requires
            self.spec_info() is Some,
        ensures
            match page {
                Ok(p) => r matches Ok(resp) && opt_url_view(resp.next_url) == self.spec_next_url() && resp.items@ == p.items@
                    && resp.info == (PaginationInfo {
                        total_count: p.total_count,
                        incomplete_results: p.incomplete_results,
                        ..self.spec_info()->0
                    }),
                Err(e) => r == Err::<PageResponse<T>, CommonError>(e)},
    {
        let PageParser { next_url, info, buf: _ } = self;
        let p = match page {
            Ok(p) => p,
            Err(e) => return Err(e)};
        let mut info = info.unwrap();
        info.total_count = p.total_count;
        info.incomplete_results = p.incomplete_results;
        Ok(PageResponse { next_url, items: p.items, info })
    }

    /// Finish: decode the body as a page and combine it with what the
    /// response parts gave
    pub fn end(self) -> (r: Result<PageResponse<serde_json::Value>, CommonError>)
        requires
            self.spec_info() is Some,
        ensures
            match decoded_shape(self.spec_buf()) {
                None => r matches Err(CommonError::Json(_)),
                Some(Ok((n, t, i))) => r matches Ok(resp) && opt_url_view(resp.next_url) == self.spec_next_url()
                    && resp.items@.len() == n
                    && resp.info == (PaginationInfo { total_count: t, incomplete_results: i, ..self.spec_info()->0 }),
                Some(Err(pe)) => r matches Err(CommonError::Page(x)) && x == pe,
            },
    {
        let page = decode_page(self.buf.as_slice());
        self.finish(page)
    }
}

/// The decimal digits of a number
pub open spec fn decimal_text(n: nat) -> Seq<char>
    decreases n,
{
    if n < 10 {
        seq![digit_char(n)]
    } else {
        decimal_text(n / 10).push(digit_char(n % 10))
    }
}

pub open spec fn digit_char(d: nat) -> char {
    if d == 0 { '0' } else if d == 1 { '1' } else if d == 2 { '2' } else if d == 3 { '3' } else if d == 4 { '4' }
    else if d == 5 { '5' } else if d == 6 { '6' } else if d == 7 { '7' } else if d == 8 { '8' } else { '9' }
}

fn digit_str(d: u64) -> (r: &'static str)
    requires
        d < 10,
    ensures
        r@ == seq![digit_char(d as nat)],
{
    proof {
        reveal_strlit("0");
        reveal_strlit("1");
        reveal_strlit("2");
        reveal_strlit("3");
        reveal_strlit("4");
        reveal_strlit("5");
        reveal_strlit("6");
        reveal_strlit("7");
        reveal_strlit("8");
        reveal_strlit("9");
    }
    if d == 0 { "0" } else if d == 1 { "1" } else if d == 2 { "2" } else if d == 3 { "3" } else if d == 4 { "4" }
    else if d == 5 { "5" } else if d == 6 { "6" } else if d == 7 { "7" } else if d == 8 { "8" } else { "9" }
}

/// The decimal text of a number, as `u64::to_string` gives it
pub fn u64_to_decimal(n: u64) -> (r: String)
    ensures
        r@ == decimal_text(n as nat),
    decreases n,
{
    if n < 10 {
        let mut s = String::new();
        s.append(digit_str(n));
        s
    } else {
        let mut s = u64_to_decimal(n / 10);
        s.append(digit_str(n % 10));
        s
    }
}

/// The name/value pairs of query parameters, as views
pub open spec fn params_view(p: Seq<(String, String)>) -> Seq<(Seq<char>, Seq<char>)> {
    p.map_values(|x: (String, String)| (x.0@, x.1@))
}

/// A request for one page of results
#[derive(Debug)]
pub struct PageRequest {
    endpoint: Endpoint,
    params: Vec<(String, String)>,
    headers: http::HeaderMap,
    timeout: Option<std::time::Duration>}

impl PageRequest {
    pub closed spec fn spec_endpoint(&self) -> EndpointView {
        self.endpoint@
    }

    pub closed spec fn spec_params(&self) -> Seq<(Seq<char>, Seq<char>)> {
        params_view(self.params@)
    }

    pub closed spec fn spec_headers(&self) -> Map<Seq<char>, Seq<Seq<u8>>> {
        header_entries(self.headers)
    }

    pub closed spec fn spec_timeout(&self) -> Option<std::time::Duration> {
        self.timeout
    }

    /// A GET request for the given endpoint, with no parameters, headers or
    /// timeout
    pub fn new(endpoint: Endpoint) -> (r: PageRequest)
        ensures
            r.spec_endpoint() == endpoint@,
            r.spec_params() == Seq::<(Seq<char>, Seq<char>)>::empty(),
            is_empty_entries(r.spec_headers()),
            r.spec_timeout() is None,
    {
        let r = PageRequest { endpoint, params: Vec::new(), headers: new_headers(), timeout: None };
        proof {
            assert(params_view(r.params@) =~= Seq::<(Seq<char>, Seq<char>)>::empty());
        }
        r
    }

    /// Replace the query parameters
    pub fn with_params(self, params: Vec<(String, String)>) -> (r: Self)
        ensures
            r.spec_params() == params_view(params@),
            r.spec_endpoint() == self.spec_endpoint(),
            r.spec_headers() == self.spec_headers(),
            r.spec_timeout() == self.spec_timeout(),
    {
        PageRequest { params, ..self }
    }

    /// Replace the headers
    pub fn with_headers(self, headers: http::HeaderMap) -> (r: Self)
        ensures
            r.spec_headers() == header_entries(headers),
            r.spec_endpoint() == self.spec_endpoint(),
            r.spec_params() == self.spec_params(),
            r.spec_timeout() == self.spec_timeout(),
    {
        PageRequest { headers, ..self }
    }

    /// Replace the timeout
    pub fn with_timeout(self, timeout: Option<std::time::Duration>) -> (r: Self)
        ensures
            r.spec_timeout() == timeout,
            r.spec_endpoint() == self.spec_endpoint(),
            r.spec_params() == self.spec_params(),
            r.spec_headers() == self.spec_headers(),
    {
        PageRequest { timeout, ..self }
    }

    /// Add a `page` query parameter
    pub fn with_page_number(self, page: u64) -> (r: Self)
        ensures
            r.spec_params() == self.spec_params().push(("page"@, decimal_text(page as nat))),
            r.spec_endpoint() == self.spec_endpoint(),
            r.spec_headers() == self.spec_headers(),
            r.spec_timeout() == self.spec_timeout(),
    {
        let mut s = self;
        let name = "page".to_owned();
        let value = u64_to_decimal(page);
        s.params.push((name, value));
        proof {
            assert(params_view(s.params@) =~= params_view(self.params@).push(("page"@, decimal_text(page as nat))));
        }
        s
    }

    /// The endpoint
    pub fn endpoint(&self) -> (r: Endpoint)
        ensures
            r@ == self.spec_endpoint(),
    {
        self.endpoint.clone_endpoint()
    }

    /// The method: always GET
    pub fn method(&self) -> (r: crate::method::Method)
        ensures
            r == crate::method::Method::Get,
    {
        crate::method::Method::Get
    }

    /// The query parameters
    pub fn params(&self) -> (r: &Vec<(String, String)>)
        ensures
            params_view(r@) == self.spec_params(),
    {
        &self.params
    }

    /// The headers
    pub fn headers(&self) -> (r: &http::HeaderMap)
        ensures
            header_entries(*r) == self.spec_headers(),
    {
        &self.headers
    }

    /// The timeout
    pub fn timeout(&self) -> (r: Option<std::time::Duration>)
        ensures
            r == self.spec_timeout(),
    {
        self.timeout
    }

    /// The parser for the response
    pub fn parser(&self) -> (r: PageParser)
        ensures
            r.spec_info() is None,
            r.spec_next_url() is None,
            r.spec_buf() == Seq::<u8>::empty(),
    {
        PageParser::new()
    }
}

/// The state of a pagination session
#[derive(Clone, Copy, Debug, Eq, Hash, Ord, PartialEq, PartialOrd, Structural)]
pub enum PaginationState {
    /// No request has been made yet
    NotStarted,
    /// At least one page has been fetched
    Paging,
    /// The session is over: the pages ran out, or a request failed
    Ended}

/// What the driver of a pagination session does next
#[derive(Debug)]
pub enum PaginationStep<T> {
    /// Hand this item to the consumer
    Yield(T),
    /// Fetch the page at this endpoint; the request's own query parameters
    /// are added only when `first` is true
    Fetch { endpoint: Endpoint, first: bool },
    /// No more items
    Finished}

/// The mathematical value of a pagination session
pub struct PaginatorView<T> {
    pub next_url: Option<EndpointView>,
    pub info: Option<PaginationInfo>,
    pub items: Seq<T>,
    pub state: PaginationState}

/// The session after a step, and what the step does: `0` yields the first
/// buffered item, `1` fetches `next_url`, `2` finishes
pub open spec fn step_kind<T>(v: PaginatorView<T>) -> nat {
    if v.items.len() > 0 {
        0
    } else if v.next_url is Some {
        1
    } else {
        2
    }
}

pub open spec fn after_step<T>(v: PaginatorView<T>) -> PaginatorView<T> {
    if v.items.len() > 0 {
        PaginatorView { items: v.items.drop_first(), ..v }
    } else if v.next_url is Some {
        v
    } else {
        PaginatorView { next_url: None, info: None, items: Seq::empty(), state: PaginationState::Ended }
    }
}

/// The session after a page fetch: `Some` with the next URL, items and
/// metadata of a page that arrived, `None` for a failed fetch
pub open spec fn after_page<T>(v: PaginatorView<T>, page: Option<(Option<HttpUrlView>, Seq<T>, PaginationInfo)>) -> PaginatorView<T> {
    match page {
        Some((next, items, info)) => PaginatorView {
            next_url: match next {
                Some(u) => Some(EndpointView::Url(u)),
                None => None},
            info: Some(info),
            items,
            state: PaginationState::Paging},
        None => PaginatorView { next_url: None, info: None, items: Seq::empty(), state: PaginationState::Ended }}
}

/// The decisions of a pagination session, apart from the fetching itself:
/// which item to hand out, which page to fetch, and when to stop.  The
/// driver calls [`Paginator::next_step`] and, after each `Fetch`, hands the
/// outcome to [`Paginator::page_fetched`].
#[derive(Debug)]
pub struct Paginator<T> {
    next_url: Option<Endpoint>,
    info: Option<PaginationInfo>,
    items: Vec<T>,
    state: PaginationState}

pub open spec fn opt_endpoint_view(o: Option<Endpoint>) -> Option<EndpointView> {
    match o {
        Some(e) => Some(e@),
        None => None}
}

impl<T> View for Paginator<T> {
    type V = PaginatorView<T>;

    closed spec fn view(&self) -> PaginatorView<T> {
        PaginatorView {
            next_url: opt_endpoint_view(self.next_url),
            info: self.info,
            items: self.items@,
            state: self.state}
    }
}

impl<T> Paginator<T> {
    /// A session that starts at the given endpoint
    pub fn new(endpoint: Endpoint) -> (r: Paginator<T>)
        ensures
            r@ == (PaginatorView::<T> {
                next_url: Some(endpoint@),
                info: None,
                items: Seq::empty(),
                state: PaginationState::NotStarted}),
    {
        Paginator { next_url: Some(endpoint), info: None, items: Vec::new(), state: PaginationState::NotStarted }
    }

    /// The metadata of the page last fetched, while the session lasts
    pub fn info(&self) -> (r: Option<PaginationInfo>)
        ensures
            r == self@.info,
    {
        self.info
    }

    /// The state of the session
    pub fn state(&self) -> (r: PaginationState)
        ensures
            r == self@.state,
    {
        self.state
    }

    /// Decide what to do next: hand out the next buffered item; else fetch
    /// the next page, if there is one; else end the session.
    pub fn next_step(&mut self) -> (r: PaginationStep<T>)
        ensures
            final(self)@ == after_step(old(self)@),
            step_kind(old(self)@) == 0 ==> r == PaginationStep::Yield(old(self)@.items[0]),
            step_kind(old(self)@) == 1 ==> (r matches PaginationStep::Fetch { endpoint, first } && Some(endpoint@) == old(self)@.next_url
                && first == (old(self)@.state == PaginationState::NotStarted)),
            step_kind(old(self)@) == 2 ==> r is Finished,
    {
        if self.items.len() > 0 {
            let item = self.items.remove(0);
            proof {
                assert(self.items@ =~= old(self)@.items.drop_first());
            }
            return PaginationStep::Yield(item);
        }
        match &self.next_url {
            Some(url) => {
                let first = match self.state {
                    PaginationState::NotStarted => true,
                    _ => false};
                PaginationStep::Fetch { endpoint: url.clone_endpoint(), first }
            },
            None => {
                self.state = PaginationState::Ended;
                self.info = None;
                self.items = Vec::new();
                PaginationStep::Finished
            }}
    }

    /// Take in the outcome of a page fetch.  A page that arrived is buffered
    /// and its `next` link becomes the page to fetch next; a failure ends the
    /// session, and its error is handed back to be passed on once.
    pub fn page_fetched<E>(&mut self, outcome: Result<PageResponse<T>, E>) -> (r: Option<E>)
        ensures
            match outcome {
                Ok(p) => r is None && final(self)@ == after_page(old(self)@, Some((opt_url_view(p.next_url), p.items@, p.info))),
                Err(e) => r == Some(e) && final(self)@ == after_page(old(self)@, None)},
    {
        match outcome {
            Ok(page) => {
                let PageResponse { next_url, items, info } = page;
                self.state = PaginationState::Paging;
                self.next_url = match next_url {
                    Some(u) => Some(Endpoint::Url(u)),
                    None => None};
                self.items = items;
                self.info = Some(info);
                None
            },
            Err(e) => {
                self.next_url = None;
                self.state = PaginationState::Ended;
                self.items = Vec::new();
                self.info = None;
                Some(e)
            }}
    }
}

/// A bare array is a page of those items with no metadata.
pub proof fn lemma_array_page<T>(items: Vec<T>)
    ensures
        page_of(RawPage::Array(items)) == Ok::<_, ParsePageError>((items@, None::<u64>, None::<bool>)),
{
}

/// An object with exactly one array field is a page of that array's items,
/// with the `total_count` and `incomplete_results` fields read; other fields
/// do not matter.  An object with no array field, or with several, is not a
/// page.
pub proof fn lemma_object_page<T>(fields: Vec<(String, MapPageValue<T>)>)
    ensures
        lists_in(fields@).len() == 1 ==> page_of(RawPage::Object(fields)) == Ok::<_, ParsePageError>(
            (lists_in(fields@)[0], total_count_of(fields@), incomplete_of(fields@))),
        lists_in(fields@).len() != 1 ==> page_of(RawPage::Object(fields)) is Err,
{
}

/// Adding a field that is not an array, and is neither `total_count` nor
/// `incomplete_results`, changes nothing in the page.
pub proof fn lemma_unrelated_field_ignored<T>(fields: Seq<(String, MapPageValue<T>)>, extra: (String, MapPageValue<T>))
    requires
        !(extra.1 is List),
        extra.0@ != "total_count"@,
        extra.0@ != "incomplete_results"@,
    ensures
        lists_in(fields.push(extra)) == lists_in(fields),
        total_count_of(fields.push(extra)) == total_count_of(fields),
        incomplete_of(fields.push(extra)) == incomplete_of(fields),
{
    assert(fields.push(extra).drop_last() =~= fields);
}

/// A session starts in the `NotStarted` state, and its first step fetches
/// the initial endpoint with the request's parameters.
pub proof fn lemma_session_starts_unstarted<T>(e: EndpointView)
    ensures
        ({
            let v = PaginatorView::<T> { next_url: Some(e), info: None, items: Seq::empty(), state: PaginationState::NotStarted };
            step_kind(v) == 1 && after_step(v) == v
        }),
{
}

/// After a page arrives the session is `Paging`, whatever state it was in.
pub proof fn lemma_page_arrival_pages<T>(v: PaginatorView<T>, next: Option<HttpUrlView>, items: Seq<T>, info: PaginationInfo)
    ensures
        after_page(v, Some((next, items, info))).state == PaginationState::Paging,
        after_page(v, Some((next, items, info))).info == Some(info),
{
}

/// When the buffered items run out and there is no `next` link, the session
/// ends; from then on every step finishes again without fetching anything.
pub proof fn lemma_exhausted_session_ends<T>(v: PaginatorView<T>)
    requires
        v.items.len() == 0,
        v.next_url is None,
    ensures
        step_kind(v) == 2,
        after_step(v).state == PaginationState::Ended,
        step_kind(after_step(v)) == 2,
        after_step(after_step(v)) == after_step(v),
{
}

/// After a failed fetch the session is `Ended` for good: every later step
/// finishes, without fetching and without another error.
pub proof fn lemma_failure_ends_session<T>(v: PaginatorView<T>)
    ensures
        after_page(v, None).state == PaginationState::Ended,
        step_kind(after_page(v, None)) == 2,
        after_step(after_page(v, None)) == after_page(v, None),
{
}

} // verus!
