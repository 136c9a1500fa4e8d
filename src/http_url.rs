use vstd::prelude::*;
use vstd::utf8::encode_utf8;

verus! {

/// The parts of a URL as the URL parser reports them: scheme, everything
/// before the path, the percent-encoded path segments (`None` for a
/// cannot-be-a-base URL), the query and the fragment.
pub type UrlPartsView = (Seq<char>, Seq<char>, Option<Seq<Seq<char>>>, Option<Seq<char>>, Option<Seq<char>>);

/// What `url::Url::parse` makes of a string, taken apart; `None` when it
/// fails to parse.
pub uninterp spec fn parsed_url(s: Seq<char>) -> Option<UrlPartsView>;

/// A path segment after percent-encoding by `url::PathSegmentsMut::push`
pub uninterp spec fn encoded_segment(s: Seq<char>) -> Seq<char>;

/// An uppercase hexadecimal digit
pub open spec fn hex_digit(d: u8) -> char {
    if d < 10 {
        (48 + d) as u8 as char
    } else {
        (55 + d) as u8 as char
    }
}

/// Whether `application/x-www-form-urlencoded` byte serialization keeps a
/// byte as it is: `*`, `-`, `.`, `_`, digits and ASCII letters
pub open spec fn form_unchanged(b: u8) -> bool {
    b == 42 || b == 45 || b == 46 || b == 95 || (48 <= b <= 57) || (65 <= b <= 90) || (97 <= b <= 122)
}

/// One byte after form serialization: kept, a space as `+`, anything else
/// as `%XX` with uppercase hexadecimal digits
pub open spec fn form_byte(b: u8) -> Seq<char> {
    if form_unchanged(b) {
        seq![b as char]
    } else if b == 32 {
        seq!['+']
    } else {
        seq!['%', hex_digit(b / 16), hex_digit(b % 16)]
    }
}

pub open spec fn form_bytes(b: Seq<u8>) -> Seq<char>
    decreases b.len(),
{
    if b.len() == 0 {
        Seq::empty()
    } else {
        form_bytes(b.drop_last()) + form_byte(b.last())
    }
}

/// A string after `application/x-www-form-urlencoded` byte serialization of
/// its UTF-8 bytes
pub open spec fn form_encoded(s: Seq<char>) -> Seq<char> {
    form_bytes(encode_utf8(s))
}

/// The decoded name/value pairs of an `application/x-www-form-urlencoded`
/// query string
pub uninterp spec fn query_pairs_of(q: Seq<char>) -> Seq<(Seq<char>, Seq<char>)>;

/// Error raised by the URL parser
#[verifier::external_type_specification]
#[verifier::external_body]
pub struct ExUrlParseError(url::ParseError);

struct ParsedUrl {
    scheme: String,
    prefix: String,
    segments: Option<Vec<String>>,
    query: Option<String>,
    fragment: Option<String>,
}

pub open spec fn opt_view(o: Option<String>) -> Option<Seq<char>> {
    match o {
        Some(s) => Some(s@),
        None => None,
    }
}

pub open spec fn strings_view(v: Seq<String>) -> Seq<Seq<char>> {
    v.map_values(|s: String| s@)
}

pub open spec fn opt_strings_view(o: Option<Vec<String>>) -> Option<Seq<Seq<char>>> {
    match o {
        Some(v) => Some(strings_view(v@)),
        None => None,
    }
}

/// Relies on `url::Url::parse`, `Url::scheme`, slicing up to
/// `Position::BeforePath`, `Url::path_segments`, `Url::query` and
/// `Url::fragment`: the URL's parts as the parser reports them.  When path
/// segments are reported there is at least one (the documentation of
/// `path_segments` says so).
#[verifier::external_body]
fn parse_url_parts(s: &str) -> (r: Result<ParsedUrl, url::ParseError>)
    ensures
        r is Ok <==> parsed_url(s@) is Some,
        r matches Ok(p) ==> parsed_url(s@) == Some((p.scheme@, p.prefix@, opt_strings_view(p.segments), opt_view(p.query), opt_view(p.fragment))),
        r matches Ok(p) ==> (p.segments matches Some(v) ==> v@.len() >= 1),
{
    match url::Url::parse(s) {
        Ok(u) => Ok(ParsedUrl {
            scheme: u.scheme().to_string(),
            prefix: u[..url::Position::BeforePath].to_string(),
            segments: u.path_segments().map(|it| it.map(String::from).collect()),
            query: u.query().map(String::from),
            fragment: u.fragment().map(String::from),
        }),
        Err(e) => Err(e),
    }
}

/// Relies on `url::PathSegmentsMut::push`, applied to a URL whose path is
/// empty: the percent-encoded form of one segment that is not a dot segment
/// (`parse_path` drops tabs and newlines, then treats "." and ".." apart).  Its documentation says
/// that `/` and `%` are encoded, and `?` and `#` are encoded as in any path,
/// so the result holds none of them; nothing is added to an empty segment.
#[verifier::external_body]
fn encode_segment(seg: &str) -> (r: String)
    requires
        is_plain_segment(seg@),
    ensures
        r@ == encoded_segment(seg@),
        forall|i: int| 0 <= i < r@.len() ==> r@[i] != '/' && r@[i] != '?' && r@[i] != '#',
        seg@.len() == 0 ==> r@.len() == 0,
{
    let mut u = url::Url::parse("http://h/").expect("constant URL is valid");
    u.path_segments_mut().expect("HTTP URLs can be a base").clear().push(seg);
    u.path()[1..].to_string()
}

/// Relies on `url::form_urlencoded::byte_serialize`: the form-encoding of a
/// string, as `query_pairs_mut().append_pair` writes it (bytes kept by
/// `byte_serialized_unchanged`, a space as `+`, others by
/// `percent_encode_byte`).
#[verifier::external_body]
fn form_encode(s: &str) -> (r: String)
    ensures
        r@ == form_encoded(s@),
{
    url::form_urlencoded::byte_serialize(s.as_bytes()).collect()
}

/// Relies on `url::form_urlencoded::parse`: the decoded name/value pairs of a
/// query string, in order, as `Url::query_pairs` yields them.
#[verifier::external_body]
pub(crate) fn query_pairs(q: &str) -> (r: Vec<(String, String)>)
    ensures
        r@.map_values(|p: (String, String)| (p.0@, p.1@)) == query_pairs_of(q@),
{
    url::form_urlencoded::parse(q.as_bytes()).map(|(k, v)| (k.into_owned(), v.into_owned())).collect()
}

/// The mathematical value of an HTTP(S) URL
pub struct HttpUrlView {
    pub scheme: Seq<char>,
    pub prefix: Seq<char>,
    pub segments: Seq<Seq<char>>,
    pub query: Option<Seq<char>>,
    pub fragment: Option<Seq<char>>,
}

/// A URL whose scheme is "http" or "https", held as its parts: the text
/// before the path, the percent-encoded path segments, the encoded query and
/// the fragment.
#[derive(Debug, Eq, Hash, PartialEq)]
pub struct HttpUrl {
    scheme: String,
    prefix: String,
    segments: Vec<String>,
    query: Option<String>,
    fragment: Option<String>,
}

pub open spec fn is_http_scheme(s: Seq<char>) -> bool {
    s == "http"@ || s == "https"@
}

impl View for HttpUrl {
    type V = HttpUrlView;

    closed spec fn view(&self) -> HttpUrlView {
        HttpUrlView {
            scheme: self.scheme@,
            prefix: self.prefix@,
            segments: strings_view(self.segments@),
            query: opt_view(self.query),
            fragment: opt_view(self.fragment),
        }
    }
}

impl HttpUrl {
    #[verifier::type_invariant]
    spec fn inv(&self) -> bool {
        is_http_scheme(self.scheme@) && self.segments@.len() >= 1
    }
}

/// The path segments joined with `/`
pub open spec fn join_segments(segs: Seq<Seq<char>>) -> Seq<char>
    decreases segs.len(),
{
    if segs.len() == 0 {
        Seq::empty()
    } else if segs.len() == 1 {
        segs[0]
    } else {
        join_segments(segs.drop_last()) + "/"@ + segs.last()
    }
}

/// The text of a URL
pub open spec fn serialize(v: HttpUrlView) -> Seq<char> {
    let base = v.prefix + "/"@ + join_segments(v.segments);
    let with_query = match v.query {
        Some(q) => base + "?"@ + q,
        None => base,
    };
    match v.fragment {
        Some(f) => with_query + "#"@ + f,
        None => with_query,
    }
}

/// Drop a trailing empty segment, so that the path is treated as a directory
pub open spec fn pop_if_empty(segs: Seq<Seq<char>>) -> Seq<Seq<char>> {
    if segs.len() > 0 && segs.last().len() == 0 {
        segs.drop_last()
    } else {
        segs
    }
}

/// The path that new segments follow: the path without a trailing empty
/// segment, and nothing at all when that leaves the path "/"
pub open spec fn base_segments(segs: Seq<Seq<char>>) -> Seq<Seq<char>> {
    let p = pop_if_empty(segs);
    if p.len() == 1 && p[0].len() == 0 {
        Seq::empty()
    } else {
        p
    }
}

/// A path component that holds no `/`, `?` or `#`, so it stays one component
pub open spec fn no_delimiters(s: Seq<char>) -> bool {
    forall|i: int| 0 <= i < s.len() ==> s[i] != '/' && s[i] != '?' && s[i] != '#'
}

/// Whether a segment is added by `push` (dot segments are skipped)
pub open spec fn is_pushed(s: Seq<char>) -> bool {
    s != "."@ && s != ".."@
}

/// A segment without the ASCII tab and newline characters, which the URL
/// parser drops
pub open spec fn strip_controls(s: Seq<char>) -> Seq<char>
    decreases s.len(),
{
    if s.len() == 0 {
        Seq::empty()
    } else {
        let rest = strip_controls(s.drop_last());
        let c = s.last();
        if c == '\t' || c == '\n' || c == '\r' {
            rest
        } else {
            rest.push(c)
        }
    }
}

/// Append one segment to a path, where an empty list stands for the path
/// "/".  "." and ".." are skipped; a segment that is ".." once tabs and
/// newlines are dropped removes the last segment and leaves a trailing
/// slash, one that is "." leaves a trailing slash; an empty segment adds
/// nothing to the path "/".
pub open spec fn push_segment(segs: Seq<Seq<char>>, s: Seq<char>) -> Seq<Seq<char>> {
    if !is_pushed(s) {
        segs
    } else if strip_controls(s) == ".."@ {
        if segs.len() <= 1 {
            Seq::empty()
        } else {
            segs.drop_last().push(Seq::empty())
        }
    } else if strip_controls(s) == "."@ {
        if segs.len() == 0 {
            Seq::empty()
        } else {
            segs.push(Seq::empty())
        }
    } else if segs.len() == 0 && encoded_segment(s).len() == 0 {
        segs
    } else {
        segs.push(encoded_segment(s))
    }
}

/// A segment that `push` percent-encodes and appends as it is
pub open spec fn is_plain_segment(s: Seq<char>) -> bool {
    is_pushed(s) && strip_controls(s) != ".."@ && strip_controls(s) != "."@
}

/// Append several segments in order
pub open spec fn push_segments(segs: Seq<Seq<char>>, new: Seq<Seq<char>>) -> Seq<Seq<char>>
    decreases new.len(),
{
    if new.len() == 0 {
        segs
    } else {
        push_segment(push_segments(segs, new.drop_last()), new.last())
    }
}

/// An empty path is the path "/", with one empty segment
pub open spec fn normalize(segs: Seq<Seq<char>>) -> Seq<Seq<char>> {
    if segs.len() == 0 {
        seq![Seq::empty()]
    } else {
        segs
    }
}

/// The path segments after `extend`
pub open spec fn extended_segments(segs: Seq<Seq<char>>, new: Seq<Seq<char>>) -> Seq<Seq<char>> {
    normalize(push_segments(base_segments(segs), new))
}

/// The path segments after `ensure_dirpath`
pub open spec fn dirpath_segments(segs: Seq<Seq<char>>) -> Seq<Seq<char>> {
    let b = base_segments(segs);
    if b.len() == 0 {
        seq![Seq::empty()]
    } else {
        b.push(Seq::empty())
    }
}

/// One `key=value` pair as it is appended to a query
pub open spec fn query_pair_text(key: Seq<char>, value: Seq<char>) -> Seq<char> {
    form_encoded(key) + "="@ + form_encoded(value)
}

/// The query after appending a pair
pub open spec fn appended_query(q: Option<Seq<char>>, key: Seq<char>, value: Seq<char>) -> Seq<char> {
    match q {
        Some(s) => if s.len() > 0 {
            s + "&"@ + query_pair_text(key, value)
        } else {
            query_pair_text(key, value)
        },
        None => query_pair_text(key, value),
    }
}

/// The URL with its path replaced
pub open spec fn with_segments(v: HttpUrlView, segs: Seq<Seq<char>>) -> HttpUrlView {
    HttpUrlView { segments: segs, ..v }
}

/// The result of parsing a string as an HTTP(S) URL
pub open spec fn parse_http_url(s: Seq<char>) -> Option<HttpUrlView> {
    match parsed_url(s) {
        Some((scheme, prefix, Some(segments), query, fragment)) => if is_http_scheme(scheme)
            && segments.len() >= 1 {
            Some(HttpUrlView { scheme, prefix, segments, query, fragment })
        } else {
            None
        },
        _ => None,
    }
}

/// Error returned when parsing an [`HttpUrl`] fails
#[derive(Clone, Copy, Debug, Eq, PartialEq)]
pub enum ParseHttpUrlError {
    /// The string was a valid URL, but the scheme was neither HTTP nor HTTPS
    BadScheme,
    /// The string was not a valid URL
    Url(url::ParseError),
}

/// Error returned when a URL's scheme is neither "http" nor "https"
#[derive(Clone, Copy, Debug, Eq, Hash, PartialEq, Structural)]
pub struct NotHttpError;

fn string_of(s: &str) -> (r: String)
    ensures
        r@ == s@,
{
    s.to_owned()
}

fn is_http_scheme_exec(s: &String) -> (r: bool)
    ensures
        r == is_http_scheme(s@),
{
    let http = string_of("http");
    let https = string_of("https");
    *s == http || *s == https
}

fn clone_opt(o: &Option<String>) -> (r: Option<String>)
    ensures
        opt_view(r) == opt_view(*o),
{
    match o {
        Some(s) => Some(s.clone()),
        None => None,
    }
}

fn copy_strings(v: &Vec<String>) -> (r: Vec<String>)
    ensures
        r@.len() == v@.len(),
        strings_view(r@) == strings_view(v@),
{
    let mut r: Vec<String> = Vec::new();
    let mut i: usize = 0;
    while i < v.len()
        invariant
            0 <= i <= v@.len(),
            strings_view(r@) == strings_view(v@.subrange(0, i as int)),
            r@.len() == i,
        decreases v@.len() - i,
    {
        let s = v[i].clone();
        r.push(s);
        i = i + 1;
        proof {
            assert(strings_view(v@.subrange(0, i as int)) =~= strings_view(v@.subrange(0, i - 1 as int)).push(v@[i - 1]@));
        }
    }
    proof {
        assert(v@.subrange(0, v@.len() as int) == v@);
    }
    r
}

fn pop_if_empty_exec(segs: &mut Vec<String>)
    ensures
        strings_view(final(segs)@) == base_segments(strings_view(old(segs)@)),
{
    let n = segs.len();
    if n > 0 && segs[n - 1].unicode_len() == 0 {
        segs.pop();
        proof {
            assert(strings_view(segs@) =~= strings_view(old(segs)@).drop_last());
        }
    }
    if segs.len() == 1 && segs[0].unicode_len() == 0 {
        let ghost before = strings_view(segs@);
        segs.pop();
        proof {
            assert(strings_view(final(segs)@) =~= Seq::<Seq<char>>::empty());
            assert(before.len() == 1 && before[0].len() == 0);
        }
    }
}

fn normalize_exec(segs: &mut Vec<String>)
    ensures
        strings_view(final(segs)@) == normalize(strings_view(old(segs)@)),
        final(segs)@.len() >= 1,
{
    if segs.len() == 0 {
        segs.push(String::new());
        proof {
            assert(strings_view(final(segs)@) =~= seq![Seq::<char>::empty()]);
        }
    }
}

fn strip_controls_exec(s: &str) -> (r: Vec<char>)
    ensures
        r@ == strip_controls(s@),
{
    let n = s.unicode_len();
    let mut r: Vec<char> = Vec::new();
    let mut i: usize = 0;
    while i < n
        invariant
            n == s@.len(),
            0 <= i <= n,
            r@ == strip_controls(s@.subrange(0, i as int)),
        decreases n - i,
    {
        let c = s.get_char(i);
        proof {
            assert(s@.subrange(0, i + 1 as int).drop_last() =~= s@.subrange(0, i as int));
        }
        if !(c == '\t' || c == '\n' || c == '\r') {
            r.push(c);
        }
        i = i + 1;
    }
    proof {
        assert(s@.subrange(0, n as int) =~= s@);
    }
    r
}

fn chars_equal(v: &Vec<char>, t: &str) -> (r: bool)
    ensures
        r == (v@ == t@),
{
    let m = t.unicode_len();
    if v.len() != m {
        return false;
    }
    let mut i: usize = 0;
    while i < m
        invariant
            m == t@.len(),
            v@.len() == m,
            0 <= i <= m,
            forall|j: int| 0 <= j < i ==> v@[j] == t@[j],
        decreases m - i,
    {
        if v[i] != t.get_char(i) {
            return false;
        }
        i = i + 1;
    }
    proof {
        assert(v@ =~= t@);
    }
    true
}

fn push_segment_exec(segs: &mut Vec<String>, s: &str)
    ensures
        strings_view(final(segs)@) == push_segment(strings_view(old(segs)@), s@),
        is_plain_segment(s@) ==> no_delimiters(encoded_segment(s@)),
{
    let dot = string_of(".");
    let dotdot = string_of("..");
    let owned = string_of(s);
    if owned == dot || owned == dotdot {
        return;
    }
    let stripped = strip_controls_exec(s);
    if chars_equal(&stripped, "..") {
        if segs.len() <= 1 {
            *segs = Vec::new();
            proof {
                assert(strings_view(segs@) =~= Seq::<Seq<char>>::empty());
            }
        } else {
            segs.pop();
            segs.push(String::new());
            proof {
                assert(strings_view(segs@) =~= strings_view(old(segs)@).drop_last().push(Seq::<char>::empty()));
            }
        }
        return;
    }
    if chars_equal(&stripped, ".") {
        if segs.len() > 0 {
            segs.push(String::new());
            proof {
                assert(strings_view(segs@) =~= strings_view(old(segs)@).push(Seq::<char>::empty()));
            }
        } else {
            proof {
                assert(strings_view(segs@) =~= Seq::<Seq<char>>::empty());
            }
        }
        return;
    }
    let enc = encode_segment(s);
    if segs.len() == 0 && enc.unicode_len() == 0 {
        return;
    }
    segs.push(enc);
    proof {
        assert(strings_view(final(segs)@) =~= strings_view(old(segs)@).push(encoded_segment(s@)));
    }
}

impl HttpUrl {
    /// Parse an HTTP(S) URL
    pub fn parse(s: &str) -> (r: Result<HttpUrl, ParseHttpUrlError>)
        ensures
            r matches Ok(u) ==> parse_http_url(s@) == Some(u@),
            r is Ok <==> parse_http_url(s@) is Some,
            r matches Err(ParseHttpUrlError::Url(_)) <==> parsed_url(s@) is None,
    {
        match parse_url_parts(s) {
            Err(e) => Err(ParseHttpUrlError::Url(e)),
            Ok(p) => {
                let ParsedUrl { scheme, prefix, segments, query, fragment } = p;
                if !is_http_scheme_exec(&scheme) {
                    return Err(ParseHttpUrlError::BadScheme);
                }
                match segments {
                    Some(segments) => {
                        if segments.len() == 0 {
                            return Err(ParseHttpUrlError::BadScheme);
                        }
                        Ok(HttpUrl { scheme, prefix, segments, query, fragment })
                    },
                    None => Err(ParseHttpUrlError::BadScheme),
                }
            },
        }
    }

    /// The text of the URL
    pub fn as_str(&self) -> (r: String)
        ensures
            r@ == serialize(self@),
    {
        let mut r = self.prefix.clone();
        r.append("/");
        let mut i: usize = 0;
        while i < self.segments.len()
            invariant
                0 <= i <= self.segments@.len(),
                r@ == self.prefix@ + "/"@ + join_segments(strings_view(self.segments@.subrange(0, i as int))),
            decreases self.segments@.len() - i,
        {
            if i > 0 {
                r.append("/");
            }
            r.append(self.segments[i].as_str());
            proof {
                let segs = strings_view(self.segments@.subrange(0, i + 1 as int));
                assert(segs.drop_last() =~= strings_view(self.segments@.subrange(0, i as int)));
                if i == 0 {
                    assert(segs.len() == 1);
                }
            }
            i = i + 1;
        }
        proof {
            assert(self.segments@.subrange(0, self.segments@.len() as int) == self.segments@);
        }
        match &self.query {
            Some(q) => {
                r.append("?");
                r.append(q.as_str());
            },
            None => {},
        }
        match &self.fragment {
            Some(f) => {
                r.append("#");
                r.append(f.as_str());
            },
            None => {},
        }
        r
    }

    /// The percent-encoded path segments of the URL
    pub fn path_segments(&self) -> (r: Vec<String>)
        ensures
            strings_view(r@) == self@.segments,
    {
        copy_strings(&self.segments)
    }

    /// The encoded query of the URL, if any
    pub fn query(&self) -> (r: Option<String>)
        ensures
            opt_view(r) == self@.query,
    {
        clone_opt(&self.query)
    }

    /// Append the given path segment to this URL's path component.
    ///
    /// If the URL does not end with a forward slash, one will be appended, and
    /// then the segment will be added after that.
    pub fn push(&mut self, segment: &str)
        ensures
            final(self)@ == with_segments(old(self)@, extended_segments(old(self)@.segments, seq![segment@])),
            is_plain_segment(segment@) ==> no_delimiters(encoded_segment(segment@)),
    {
        let mut segs = copy_strings(&self.segments);
        pop_if_empty_exec(&mut segs);
        push_segment_exec(&mut segs, segment);
        let ghost pushed = strings_view(segs@);
        proof {
            let n = seq![segment@];
            let start = base_segments(old(self)@.segments);
            assert(n.drop_last() =~= Seq::<Seq<char>>::empty());
            assert(push_segments(start, n.drop_last()) == start);
            assert(n.last() == segment@);
            assert(push_segments(start, n) == pushed);
        }
        normalize_exec(&mut segs);
        self.set_segments(segs);
    }

    fn set_segments(&mut self, segs: Vec<String>)
        requires
            segs@.len() >= 1,
        ensures
            final(self)@ == with_segments(old(self)@, strings_view(segs@)),
    {
        proof {
            use_type_invariant(&*self);
        }
        let scheme = self.scheme.clone();
        let prefix = self.prefix.clone();
        let query = clone_opt(&self.query);
        let fragment = clone_opt(&self.fragment);
        *self = HttpUrl { scheme, prefix, segments: segs, query, fragment };
    }

    /// Append the given path segments to this URL's path component.
    ///
    /// If the URL does not end with a forward slash, one will be appended, and
    /// then the segments will be added after that.
    pub fn extend(&mut self, segments: &Vec<String>)
        ensures
            final(self)@ == with_segments(old(self)@, extended_segments(old(self)@.segments, strings_view(segments@))),
            forall|i: int| 0 <= i < segments@.len() && is_plain_segment(#[trigger] segments@[i]@) ==> no_delimiters(encoded_segment(segments@[i]@)),
    {
        let mut segs = copy_strings(&self.segments);
        pop_if_empty_exec(&mut segs);
        let ghost start = strings_view(segs@);
        let mut i: usize = 0;
        while i < segments.len()
            invariant
                0 <= i <= segments@.len(),
                strings_view(segs@) == push_segments(start, strings_view(segments@.subrange(0, i as int))),
                forall|j: int| 0 <= j < i && is_plain_segment(#[trigger] segments@[j]@) ==> no_delimiters(encoded_segment(segments@[j]@)),
            decreases segments@.len() - i,
        {
            push_segment_exec(&mut segs, segments[i].as_str());
            proof {
                let n = strings_view(segments@.subrange(0, i + 1 as int));
                assert(n.drop_last() =~= strings_view(segments@.subrange(0, i as int)));
            }
            i = i + 1;
        }
        proof {
            assert(segments@.subrange(0, segments@.len() as int) == segments@);
        }
        normalize_exec(&mut segs);
        self.set_segments(segs);
    }

    /// Append a trailing forward slash to the URL if it does not already end
    /// with one
    pub fn ensure_dirpath(&mut self)
        ensures
            final(self)@ == with_segments(old(self)@, dirpath_segments(old(self)@.segments)),
    {
        let mut segs = copy_strings(&self.segments);
        pop_if_empty_exec(&mut segs);
        segs.push(String::new());
        proof {
            let b = base_segments(old(self)@.segments);
            if b.len() == 0 {
                assert(strings_view(segs@) =~= seq![Seq::<char>::empty()]);
            } else {
                assert(strings_view(segs@) =~= b.push(Seq::<char>::empty()));
            }
        }
        self.set_segments(segs);
    }

    /// Resolve an endpoint against this URL: a complete URL is used as it is,
    /// and path segments extend this URL's path.
    pub fn join_endpoint(&self, endpoint: Endpoint) -> (r: HttpUrl)
        ensures
            r@ == joined(self@, endpoint@),
    {
        match endpoint {
            Endpoint::Url(url) => url,
            Endpoint::Path(path) => {
                let mut url = self.clone_url();
                url.extend(&path);
                url
            },
        }
    }

    /// A copy of the URL
    pub fn clone_url(&self) -> (r: HttpUrl)
        ensures
            r@ == self@,
    {
        proof {
            use_type_invariant(self);
        }
        HttpUrl {
            scheme: self.scheme.clone(),
            prefix: self.prefix.clone(),
            segments: copy_strings(&self.segments),
            query: clone_opt(&self.query),
            fragment: clone_opt(&self.fragment),
        }
    }

    /// Append `"{key}={value}"` (after form-encoding) to the URL's query
    /// parameters
    pub fn append_query_param(&mut self, key: &str, value: &str)
        ensures
            final(self)@ == (HttpUrlView { query: Some(appended_query(old(self)@.query, key@, value@)), ..old(self)@ }),
    {
        proof {
            use_type_invariant(&*self);
        }
        let mut pair = form_encode(key);
        pair.append("=");
        let v = form_encode(value);
        pair.append(v.as_str());
        let q = match &self.query {
            Some(q) => {
                if q.unicode_len() > 0 {
                    let mut s = q.clone();
                    s.append("&");
                    s.append(pair.as_str());
                    s
                } else {
                    pair
                }
            },
            None => pair,
        };
        let scheme = self.scheme.clone();
        let prefix = self.prefix.clone();
        let segments = copy_strings(&self.segments);
        let fragment = clone_opt(&self.fragment);
        *self = HttpUrl { scheme, prefix, segments, query: Some(q), fragment };
    }
}

impl std::str::FromStr for HttpUrl {
    type Err = ParseHttpUrlError;

    /// Parse an HTTP(S) URL
    fn from_str(s: &str) -> Result<HttpUrl, ParseHttpUrlError> {
        HttpUrl::parse(s)
    }
}

impl Clone for HttpUrl {
    fn clone(&self) -> (r: HttpUrl)
        ensures
            r@ == self@,
    {
        self.clone_url()
    }
}

/// The default base API URL, `https://api.github.com`, as its parts
pub open spec fn default_api_url() -> HttpUrlView {
    HttpUrlView {
        scheme: "https"@,
        prefix: "https://api.github.com"@,
        segments: seq![Seq::empty()],
        query: None,
        fragment: None,
    }
}

impl HttpUrl {
    /// The default base API URL, `https://api.github.com`
    pub fn default_api() -> (r: HttpUrl)
        ensures
            r@ == default_api_url(),
    {
        let mut segments: Vec<String> = Vec::new();
        segments.push(String::new());
        proof {
            assert(strings_view(segments@) =~= seq![Seq::<char>::empty()]);
        }
        HttpUrl {
            scheme: string_of("https"),
            prefix: string_of("https://api.github.com"),
            segments,
            query: None,
            fragment: None,
        }
    }
}

/// A description of an API endpoint to make a request to.
///
/// This can be either a complete URL or a sequence of path components to
/// append to the client's base API URL.
#[derive(Clone, Debug, Eq, PartialEq)]
pub enum Endpoint {
    /// A complete HTTP(S) URL, used as-is
    Url(HttpUrl),
    /// A sequence of path components appended to the base URL
    Path(Vec<String>),
}

/// The mathematical value of an endpoint
pub enum EndpointView {
    Url(HttpUrlView),
    Path(Seq<Seq<char>>),
}

impl View for Endpoint {
    type V = EndpointView;

    open spec fn view(&self) -> EndpointView {
        match self {
            Endpoint::Url(u) => EndpointView::Url(u@),
            Endpoint::Path(p) => EndpointView::Path(strings_view(p@)),
        }
    }
}

/// The URL that a request to `endpoint` goes to, with `base` as the base URL
pub open spec fn joined(base: HttpUrlView, endpoint: EndpointView) -> HttpUrlView {
    match endpoint {
        EndpointView::Url(u) => u,
        EndpointView::Path(p) => with_segments(base, extended_segments(base.segments, p)),
    }
}

impl Endpoint {
    /// An endpoint made of path components
    pub fn from_segments(segments: Vec<String>) -> (r: Endpoint)
        ensures
            r@ == EndpointView::Path(strings_view(segments@)),
    {
        Endpoint::Path(segments)
    }

    /// An endpoint that is a complete URL
    pub fn from_url(url: HttpUrl) -> (r: Endpoint)
        ensures
            r@ == EndpointView::Url(url@),
    {
        Endpoint::Url(url)
    }

    /// A copy of the endpoint
    pub fn clone_endpoint(&self) -> (r: Endpoint)
        ensures
            r@ == self@,
    {
        match self {
            Endpoint::Url(u) => Endpoint::Url(u.clone_url()),
            Endpoint::Path(p) => Endpoint::Path(copy_strings(p)),
        }
    }
}

/// Extending a path that ends with "/" gives the same path as extending it
/// without the trailing "/".
pub proof fn lemma_extend_ignores_trailing_slash(segs: Seq<Seq<char>>, new: Seq<Seq<char>>)
    requires
        segs.len() >= 1,
        segs.last().len() != 0,
    ensures
        extended_segments(segs.push(Seq::empty()), new) == extended_segments(segs, new),
{
    assert(segs.push(Seq::empty()).drop_last() =~= segs);
}

/// Pushing one segment that is not a dot segment and encodes to some text
/// adds exactly one path component, after the path without its trailing
/// empty segment (the path "/" counting as no segment at all).
pub proof fn lemma_push_adds_one_component(segs: Seq<Seq<char>>, s: Seq<char>)
    requires
        segs.len() >= 1,
        is_plain_segment(s),
        encoded_segment(s).len() > 0,
    ensures
        extended_segments(segs, seq![s]) == base_segments(segs).push(encoded_segment(s)),
{
    let n = seq![s];
    assert(n.drop_last() =~= Seq::<Seq<char>>::empty());
    assert(push_segments(base_segments(segs), n.drop_last()) == base_segments(segs));
}

/// `ensure_dirpath` is idempotent.
pub proof fn lemma_ensure_dirpath_idempotent(segs: Seq<Seq<char>>)
    ensures
        dirpath_segments(dirpath_segments(segs)) == dirpath_segments(segs),
{
    let b = base_segments(segs);
    if b.len() == 0 {
        assert(pop_if_empty(dirpath_segments(segs)) =~= Seq::<Seq<char>>::empty());
    } else {
        assert(dirpath_segments(segs).drop_last() =~= b);
        assert(pop_if_empty(dirpath_segments(segs)) == b);
    }
}

/// Form serialization writes a space byte as `+`, and keeps letters, digits
/// and `*-._` as they are.
pub proof fn lemma_form_space_is_plus(b: Seq<u8>, x: u8)
    ensures
        form_bytes(b.push(x)) == form_bytes(b) + form_byte(x),
        x == 32 ==> form_byte(x) == seq!['+'],
        form_unchanged(x) ==> form_byte(x) == seq![x as char],
{
    assert(b.push(x).drop_last() =~= b);
}

/// Appending a second pair keeps the query written so far, and the new pair
/// follows it after a separator: nothing is overwritten, whatever the keys.
pub proof fn lemma_append_query_keeps_earlier(q: Option<Seq<char>>, k1: Seq<char>, v1: Seq<char>, k2: Seq<char>, v2: Seq<char>)
    ensures
        appended_query(Some(appended_query(q, k1, v1)), k2, v2) == appended_query(q, k1, v1) + "&"@ + query_pair_text(k2, v2),
{
    reveal_strlit("=");
    assert(query_pair_text(k1, v1).len() >= 1);
    match q {
        Some(s) => {
            if s.len() > 0 {
                assert((s + "&"@ + query_pair_text(k1, v1)).len() >= 1);
            }
        },
        None => {},
    }
}

} // verus!
