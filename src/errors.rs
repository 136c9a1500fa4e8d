use vstd::prelude::*;
use serde_json::Error as JsonError;
use vstd::utf8::{valid_utf8, decode_utf8};
use vstd::std_specs::convert::IntoSpec;
use crate::headers::{content_type_is_json, content_type_json};
use crate::http_url::{HttpUrl, HttpUrlView};
use crate::method::Method;
use crate::response::{Response, ResponseParts, ResponsePartsView};
use crate::pagination::ParsePageError;
use crate::parser::{append_bytes, reserve_for};

verus! {

/// An I/O error
#[verifier::external_type_specification]
#[verifier::external_body]
pub struct ExIoError(std::io::Error);

/// A UTF-8 decoding error
#[verifier::external_type_specification]
#[verifier::external_body]
pub struct ExUtf8Error(std::str::Utf8Error);

/// A JSON error
#[verifier::external_type_specification]
#[verifier::external_body]
pub struct ExJsonError(JsonError);

/// A JSON value
#[verifier::external_type_specification]
#[verifier::external_body]
pub struct ExJsonValue(serde_json::Value);

/// Whether bytes are a JSON document, as `serde_json::from_slice` judges
pub uninterp spec fn json_parses(b: Seq<u8>) -> bool;

/// Whether a character has the Unicode `White_Space` property (as listed in
/// the Unicode Character Database's `PropList.txt`)
pub open spec fn white_space(c: char) -> bool {
    let u = c as u32;
    (0x09 <= u <= 0x0D) || u == 0x20 || u == 0x85 || u == 0xA0 || u == 0x1680 || (0x2000 <= u <= 0x200A)
        || u == 0x2028 || u == 0x2029 || u == 0x202F || u == 0x205F || u == 0x3000
}

/// Relies on `serde_json::from_slice::<serde_json::Value>`: succeeds exactly
/// on JSON documents.
#[verifier::external_body]
pub fn parse_json(b: &[u8]) -> (r: Result<serde_json::Value, serde_json::Error>)
    ensures
        r is Ok <==> json_parses(b@),
{
    serde_json::from_slice(b)
}

/// The text of a JSON value as `serde_json::to_string_pretty` writes it
pub uninterp spec fn pretty_of(v: serde_json::Value) -> Seq<char>;

/// Relies on `serde_json::to_string_pretty`: the pretty-printed text of a
/// value.  Writing a `Value` into a string does not fail: its map keys are
/// strings.
#[verifier::external_body]
fn pretty_json(v: &serde_json::Value) -> (r: Option<String>)
    ensures
        r is Some,
        r matches Some(t) ==> t@ == pretty_of(*v),
{
    serde_json::to_string_pretty(v).ok()
}

/// Relies on `std::str::from_utf8`: succeeds exactly on valid UTF-8, and the
/// text is what the bytes encode.
#[verifier::external_body]
pub fn decode_utf8_text(b: &[u8]) -> (r: Result<String, std::str::Utf8Error>)
    ensures
        r is Ok <==> valid_utf8(b@),
        r matches Ok(s) ==> s@ == decode_utf8(b@),
{
    std::str::from_utf8(b).map(String::from)
}

/// Relies on `char::is_whitespace`: the Unicode `White_Space` property.
#[verifier::external_body]
fn is_whitespace(c: char) -> (r: bool)
    ensures
        r == white_space(c),
{
    c.is_whitespace()
}

/// Errors raised by the built-in request bodies and response parsers
#[derive(Debug)]
pub enum CommonError {
    /// An I/O error
    Io(std::io::Error),
    /// A body that should have been UTF-8 was not
    Utf8(std::str::Utf8Error),
    /// A body was not the JSON that was expected
    Json(serde_json::Error),
    /// A body was JSON, but not in the shape of a page of results
    Page(ParsePageError)}

/// Error returned when a response body cannot be read or parsed
#[derive(Debug)]
pub enum ParseResponseError<E> {
    /// Reading the response body failed
    Read(std::io::Error),
    /// Parsing the response body failed
    Parse(E)}

impl<E> ParseResponseError<E> {
    /// Convert the parse error into another error type
    pub fn convert_parse_error<E2>(self) -> (r: ParseResponseError<E2>)
        where
            E: Into<E2>,
        ensures
            r is Read <==> self is Read,
            self matches ParseResponseError::Parse(e) ==> (r matches ParseResponseError::Parse(e2) && (
            <E as IntoSpec<E2>>::obeys_into_spec() ==> e2 == <E as IntoSpec<E2>>::into_spec(e))),
    {
        match self {
            ParseResponseError::Read(e) => ParseResponseError::Read(e),
            ParseResponseError::Parse(e) => ParseResponseError::Parse(e.into())}
    }
}

/// The body of an error response
#[derive(Debug)]
pub enum ErrorBody {
    /// The body was empty or only whitespace
    Empty,
    /// The body was not UTF-8
    Bytes(Vec<u8>),
    /// The body was text
    Text(String),
    /// The body was JSON
    Json(serde_json::Value)}

impl ErrorBody {
    /// The text to show for the body: pretty-printed JSON, or the text as it
    /// is; `None` for an empty or binary body.
    pub fn pretty_text(&self) -> (r: Option<String>)
        ensures
            self is Empty ==> r is None,
            self is Bytes ==> r is None,
            self matches ErrorBody::Text(s) ==> r matches Some(t) && t@ == s@,
            self matches ErrorBody::Json(v) ==> (r matches Some(t) && t@ == pretty_of(*v)),
    {
        match self {
            ErrorBody::Empty => None,
            ErrorBody::Bytes(_) => None,
            ErrorBody::Text(s) => Some(s.clone()),
            ErrorBody::Json(v) => pretty_json(v)}
    }
}

/// Whether all characters of a string have the `White_Space` property
pub open spec fn all_white_space(s: Seq<char>) -> bool {
    forall|i: int| 0 <= i < s.len() ==> white_space(#[trigger] s[i])
}

fn is_all_whitespace(s: &String) -> (r: bool)
    ensures
        r == all_white_space(s@),
{
    let n = s.as_str().unicode_len();
    let mut i: usize = 0;
    while i < n
        invariant
            n == s@.len(),
            0 <= i <= n,
            forall|j: int| 0 <= j < i ==> white_space(#[trigger] s@[j]),
        decreases n - i,
    {
        if !is_whitespace(s.as_str().get_char(i)) {
            return false;
        }
        i = i + 1;
    }
    true
}

/// The kind of body that an error response's bytes give, with the headers
/// it came with: `0` for an empty body, `1` for bytes, `2` for text and `3`
/// for JSON; `None` when the headers declare JSON that does not parse.
pub open spec fn error_body_kind(headers: Map<Seq<char>, Seq<Seq<u8>>>, body: Seq<u8>) -> Option<nat> {
    if content_type_json(headers) {
        if json_parses(body) { Some(3) } else { None }
    } else if !valid_utf8(body) {
        Some(1)
    } else if all_white_space(decode_utf8(body)) {
        Some(0)
    } else {
        Some(2)
    }
}

pub open spec fn body_kind(b: ErrorBody) -> nat {
    match b {
        ErrorBody::Empty => 0,
        ErrorBody::Bytes(_) => 1,
        ErrorBody::Text(_) => 2,
        ErrorBody::Json(_) => 3}
}

/// Classify the body of an error response: JSON when the headers say so,
/// else text, else raw bytes; text that is only whitespace is empty.
pub fn error_body_from(headers: &http::HeaderMap, body: Vec<u8>) -> (r: Result<ErrorBody, CommonError>)
    ensures
        match r {
            Ok(b) => error_body_kind(crate::headers::header_entries(*headers), body@) == Some(body_kind(b))
                && (b matches ErrorBody::Bytes(v) ==> v@ == body@)
                && (b matches ErrorBody::Text(s) ==> s@ == decode_utf8(body@)),
            Err(e) => error_body_kind(crate::headers::header_entries(*headers), body@) is None && e is Json},
{
    if content_type_is_json(headers) {
        match parse_json(body.as_slice()) {
            Ok(v) => Ok(ErrorBody::Json(v)),
            Err(e) => Err(CommonError::Json(e))}
    } else {
        match decode_utf8_text(body.as_slice()) {
            Ok(s) => {
                if is_all_whitespace(&s) {
                    Ok(ErrorBody::Empty)
                } else {
                    Ok(ErrorBody::Text(s))
                }
            },
            Err(_) => Ok(ErrorBody::Bytes(body))}
    }
}

/// A response with a 4xx or 5xx status
#[derive(Debug)]
pub struct ErrorResponse(pub Response<ErrorBody>);

impl ErrorResponse {
    /// The URL the request was sent to, before any redirects
    pub fn initial_url(&self) -> (r: &HttpUrl)
        ensures
            r@ == self.0.spec_parts().initial_url,
    {
        self.0.initial_url()
    }

    /// The URL of the response
    pub fn url(&self) -> (r: &HttpUrl)
        ensures
            r@ == self.0.spec_parts().url,
    {
        self.0.url()
    }

    /// The request method
    pub fn method(&self) -> (r: Method)
        ensures
            r == self.0.spec_parts().method,
    {
        self.0.method()
    }

    /// The status code
    pub fn status(&self) -> (r: u16)
        ensures
            r == self.0.spec_parts().status,
    {
        self.0.status()
    }

    /// The response headers
    pub fn headers(&self) -> (r: &http::HeaderMap)
        ensures
            crate::headers::header_entries(*r) == self.0.spec_parts().headers,
    {
        self.0.headers()
    }

    /// The body
    pub fn body_ref(&self) -> (r: &ErrorBody)
        ensures
            *r == self.0.spec_body(),
    {
        self.0.body_ref()
    }

    /// The body, giving up the rest
    pub fn into_body(self) -> (r: ErrorBody)
        ensures
            r == self.0.spec_body(),
    {
        self.0.into_body()
    }

    /// Split into parts and body
    pub fn into_parts(self) -> (r: (ResponseParts, ErrorBody))
        ensures
            r.0@ == self.0.spec_parts(),
            r.1 == self.0.spec_body(),
    {
        self.0.into_parts()
    }

    /// The text to show for the body, as [`ErrorBody::pretty_text`] gives it
    pub fn pretty_text(&self) -> (r: Option<String>)
        ensures
            self.0.spec_body() is Empty ==> r is None,
            self.0.spec_body() is Bytes ==> r is None,
            self.0.spec_body() matches ErrorBody::Text(s) ==> r matches Some(t) && t@ == s@,
            self.0.spec_body() matches ErrorBody::Json(v) ==> (r matches Some(t) && t@ == pretty_of(v)),
    {
        self.0.body_ref().pretty_text()
    }
}

/// The parser for the bodies of error responses
#[derive(Debug)]
pub struct ErrorResponseParser {
    parts: Option<ResponseParts>,
    body: Vec<u8>}

impl ErrorResponseParser {
    pub closed spec fn spec_parts(&self) -> Option<ResponsePartsView> {
        match self.parts {
            Some(p) => Some(p@),
            None => None}
    }

    pub closed spec fn spec_body(&self) -> Seq<u8> {
        self.body@
    }

    /// A parser that has seen nothing yet
    pub fn new() -> (r: ErrorResponseParser)
        ensures
            r.spec_parts() is None,
            r.spec_body() == Seq::<u8>::empty(),
    {
        ErrorResponseParser { parts: None, body: Vec::new() }
    }

    /// Take note of the response parts
    pub fn handle_parts(&mut self, parts: &ResponseParts)
        ensures
            final(self).spec_parts() == Some(parts@),
            final(self).spec_body() == old(self).spec_body(),
    {
        reserve_for(&mut self.body, parts);
        self.parts = Some(parts.clone_parts());
    }

    /// Take in a chunk of the body
    pub fn handle_bytes(&mut self, buf: &[u8])
        ensures
            final(self).spec_parts() == old(self).spec_parts(),
            final(self).spec_body() == old(self).spec_body() + buf@,
    {
        append_bytes(&mut self.body, buf);
    }

    /// Finish: classify the body received
    pub fn end(self) -> (r: Result<ErrorResponse, CommonError>)
        requires
            self.spec_parts() is Some,
        ensures
            match r {
                Ok(resp) => resp.0.spec_parts() == self.spec_parts()->0
                    && error_body_kind(self.spec_parts()->0.headers, self.spec_body()) == Some(body_kind(resp.0.spec_body()))
                    && (resp.0.spec_body() matches ErrorBody::Bytes(v) ==> v@ == self.spec_body())
                    && (resp.0.spec_body() matches ErrorBody::Text(s) ==> s@ == decode_utf8(self.spec_body())),
                Err(e) => error_body_kind(self.spec_parts()->0.headers, self.spec_body()) is None && e is Json},
    {
        let ErrorResponseParser { parts, body } = self;
        let parts = parts.unwrap();
        match error_body_from(parts.headers(), body) {
            Ok(b) => Ok(ErrorResponse(Response::from_parts(parts, b))),
            Err(e) => Err(e)}
    }
}

/// What went wrong with a request
#[derive(Debug)]
pub enum ErrorPayload<BackendError, E> {
    /// Making the request body failed before anything was sent
    PrepareRequest(E),
    /// Reading the request body failed
    ReadRequestBody(std::io::Error),
    /// The backend failed to send the request
    Send(BackendError),
    /// The server replied with a 4xx or 5xx status
    Status(ErrorResponse),
    /// The response body could not be read or parsed
    ParseResponse(ParseResponseError<E>)}

impl<BackendError, E> ErrorPayload<BackendError, E> {
    /// The text of the server's error body, for a `Status` error
    pub fn pretty_text(&self) -> (r: Option<String>)
        ensures
            !(self is Status) ==> r is None,
            self matches ErrorPayload::Status(resp) ==> (resp.0.spec_body() matches ErrorBody::Text(s) ==> (r matches Some(t) && t@ == s@)),
            self matches ErrorPayload::Status(resp) ==> (resp.0.spec_body() matches ErrorBody::Json(v) ==> (r matches Some(t) && t@ == pretty_of(v))),
            self matches ErrorPayload::Status(resp) ==> ((resp.0.spec_body() is Empty || resp.0.spec_body() is Bytes) ==> r is None),
    {
        match self {
            ErrorPayload::Status(r) => r.pretty_text(),
            _ => None}
    }
}

/// An error from making a request, with the method and the URL the request
/// was first sent to
#[derive(Debug)]
pub struct Error<BackendError, E> {
    url: HttpUrl,
    method: Method,
    payload: ErrorPayload<BackendError, E>}

impl<BackendError, E> Error<BackendError, E> {
    pub closed spec fn spec_url(&self) -> HttpUrlView {
        self.url@
    }

    pub closed spec fn spec_method(&self) -> Method {
        self.method
    }

    pub closed spec fn spec_payload(&self) -> &ErrorPayload<BackendError, E> {
        &self.payload
    }

    /// An error for a request with the given URL and method
    pub fn new(url: HttpUrl, method: Method, payload: ErrorPayload<BackendError, E>) -> (r: Self)
        ensures
            r.spec_url() == url@,
            r.spec_method() == method,
            r.spec_payload() == payload,
    {
        Error { url, method, payload }
    }

    /// The URL the request was first sent to
    pub fn url(&self) -> (r: &HttpUrl)
        ensures
            r@ == self.spec_url(),
    {
        &self.url
    }

    /// The method of the request
    pub fn method(&self) -> (r: Method)
        ensures
            r == self.spec_method(),
    {
        self.method
    }

    /// What went wrong
    pub fn payload_ref(&self) -> (r: &ErrorPayload<BackendError, E>)
        ensures
            r == self.spec_payload(),
    {
        &self.payload
    }

    /// What went wrong, giving up the rest
    pub fn into_payload(self) -> (r: ErrorPayload<BackendError, E>)
        ensures
            r == self.spec_payload(),
    {
        self.payload
    }

    /// The text of the server's error body, for a `Status` error
    pub fn pretty_text(&self) -> (r: Option<String>)
        ensures
            !(self.spec_payload() is Status) ==> r is None,
            self.spec_payload() matches ErrorPayload::Status(resp) ==> (resp.0.spec_body() matches ErrorBody::Text(s) ==> (r matches Some(t) && t@ == s@)),
            self.spec_payload() matches ErrorPayload::Status(resp) ==> (resp.0.spec_body() matches ErrorBody::Json(v) ==> (r matches Some(t) && t@ == pretty_of(v))),
            self.spec_payload() matches ErrorPayload::Status(resp) ==> ((resp.0.spec_body() is Empty || resp.0.spec_body() is Bytes) ==> r is None),
    {
        self.payload.pretty_text()
    }
}

} // verus!
