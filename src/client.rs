use vstd::prelude::*;
use crate::consts::{API_VERSION_HEADER, DEFAULT_ACCEPT, DEFAULT_API_VERSION, DEFAULT_USER_AGENT};
use crate::headers::{
    header_entries, insert_header, insert_if_valid, is_header_text, is_lower_header_name, new_headers,
    clone_headers, extend_headers, is_header_name, header_key, lemma_lower_name_is_key, names_at_most,
    max_header_names};
use vstd::set_lib::lemma_len_union;
use vstd::std_specs::convert::IntoSpec;
use crate::http_url::{HttpUrl, HttpUrlView, Endpoint, joined, appended_query};
use crate::method::Method;
use vstd::utf8::encode_utf8;
use crate::pagination::params_view;
use crate::errors::{Error, CommonError, ErrorPayload, ErrorResponse, ParseResponseError};

verus! {

/// The URL after appending query parameters in order
pub open spec fn with_params(u: HttpUrlView, params: Seq<(Seq<char>, Seq<char>)>) -> HttpUrlView
    decreases params.len(),
{
    if params.len() == 0 {
        u
    } else {
        let before = with_params(u, params.drop_last());
        HttpUrlView { query: Some(appended_query(before.query, params.last().0, params.last().1)), ..before }
    }
}

/// The timeout of a request: its own, else the client's
pub open spec fn effective_timeout(request: Option<std::time::Duration>, config: Option<std::time::Duration>) -> Option<std::time::Duration> {
    match request {
        Some(t) => Some(t),
        None => config}
}

/// The headers of a request: the client's defaults, overridden by the
/// body's, overridden by the request's own
pub open spec fn merged_headers(
    config: Map<Seq<char>, Seq<Seq<u8>>>,
    body: Map<Seq<char>, Seq<Seq<u8>>>,
    request: Map<Seq<char>, Seq<Seq<u8>>>,
) -> Map<Seq<char>, Seq<Seq<u8>>> {
    config.union_prefer_right(body).union_prefer_right(request)
}

/// The default headers: `Accept`, `X-GitHub-Api-Version` and `User-Agent`
pub open spec fn default_headers() -> Map<Seq<char>, Seq<Seq<u8>>> {
    insert_if_valid(
        insert_if_valid(
            insert_if_valid(Map::empty(), "accept"@, DEFAULT_ACCEPT@),
            API_VERSION_HEADER@,
            DEFAULT_API_VERSION@,
        ),
        "user-agent"@,
        DEFAULT_USER_AGENT@,
    )
}

/// The mathematical value of a client configuration
pub struct ClientConfigView {
    pub base_url: HttpUrlView,
    pub headers: Map<Seq<char>, Seq<Seq<u8>>>,
    pub timeout: Option<std::time::Duration>}

/// Configuration for a REST API client: base URL, default headers and
/// default timeout
#[derive(Debug)]
pub struct ClientConfig {
    base_url: HttpUrl,
    headers: http::HeaderMap,
    timeout: Option<std::time::Duration>}

/// The number of header names that a configuration, and each header
/// collection handed to [`ClientConfig::prepare_request`], may hold
pub open spec fn header_names_limit() -> nat {
    1000
}

/// Whether one more header name fits in the configuration
pub open spec fn has_header_room(v: ClientConfigView) -> bool {
    v.headers.dom().len() < header_names_limit()
}

impl ClientConfig {
    #[verifier::type_invariant]
    spec fn inv(&self) -> bool {
        names_at_most(header_entries(self.headers), header_names_limit())
    }
}

impl View for ClientConfig {
    type V = ClientConfigView;

    closed spec fn view(&self) -> ClientConfigView {
        ClientConfigView { base_url: self.base_url@, headers: header_entries(self.headers), timeout: self.timeout }
    }
}

/// The parts of a request that a backend needs, besides the body
#[derive(Debug)]
pub struct RequestParts {
    pub url: HttpUrl,
    pub method: Method,
    pub headers: http::HeaderMap,
    pub timeout: Option<std::time::Duration>}

/// A request ready to be sent: its parts and a body
#[derive(Debug)]
pub struct PreparedRequest<T> {
    parts: RequestParts,
    body: T}

impl<T> PreparedRequest<T> {
    pub closed spec fn spec_parts(&self) -> &RequestParts {
        &self.parts
    }

    pub closed spec fn spec_body(&self) -> T {
        self.body
    }

    /// Combine parts and a body
    pub fn from_parts(parts: RequestParts, body: T) -> (r: PreparedRequest<T>)
        ensures
            r.spec_parts() == parts,
            r.spec_body() == body,
    {
        PreparedRequest { parts, body }
    }

    /// Split into parts and body
    pub fn into_parts(self) -> (r: (RequestParts, T))
        ensures
            r.0 == self.spec_parts(),
            r.1 == self.spec_body(),
    {
        (self.parts, self.body)
    }

    /// The URL of the request
    pub fn url(&self) -> (r: &HttpUrl)
        ensures
            r@ == self.spec_parts().url@,
    {
        &self.parts.url
    }

    /// The method of the request
    pub fn method(&self) -> (r: Method)
        ensures
            r == self.spec_parts().method,
    {
        self.parts.method
    }

    /// The headers of the request
    pub fn headers(&self) -> (r: &http::HeaderMap)
        ensures
            header_entries(*r) == header_entries(self.spec_parts().headers),
    {
        &self.parts.headers
    }

    /// The body
    pub fn body_ref(&self) -> (r: &T)
        ensures
            *r == self.spec_body(),
    {
        &self.body
    }

    /// The body, giving up the parts
    pub fn into_body(self) -> (r: T)
        ensures
            r == self.spec_body(),
    {
        self.body
    }
}

fn set_header(h: &mut http::HeaderMap, name: &str, value: &str)
    requires
        is_header_name(name@),
        names_at_most(header_entries(*old(h)), header_names_limit()),
        header_entries(*old(h)).dom().len() < header_names_limit(),
    ensures
        header_entries(*final(h)) == insert_if_valid(header_entries(*old(h)), header_key(name@), value@),
        names_at_most(header_entries(*final(h)), header_names_limit()),
{
    let _ = insert_header(h, name, value);
}

proof fn lemma_header_names()
    ensures
        is_lower_header_name("accept"@),
        is_lower_header_name("user-agent"@),
        is_lower_header_name("authorization"@),
        is_lower_header_name(API_VERSION_HEADER@),
        is_header_name("accept"@) && header_key("accept"@) == "accept"@,
        is_header_name("user-agent"@) && header_key("user-agent"@) == "user-agent"@,
        is_header_name("authorization"@) && header_key("authorization"@) == "authorization"@,
        is_header_name(API_VERSION_HEADER@) && header_key(API_VERSION_HEADER@) == API_VERSION_HEADER@,
{
    reveal_strlit("accept");
    reveal_strlit("user-agent");
    reveal_strlit("authorization");
    reveal_strlit("x-github-api-version");
    lemma_lower_name_is_key("accept"@);
    lemma_lower_name_is_key("user-agent"@);
    lemma_lower_name_is_key("authorization"@);
    lemma_lower_name_is_key(API_VERSION_HEADER@);
}

/// The default header values are valid header values.
pub proof fn lemma_default_values_valid()
    ensures
        is_header_text(DEFAULT_ACCEPT@),
        is_header_text(DEFAULT_API_VERSION@),
        is_header_text(DEFAULT_USER_AGENT@),
{
    reveal_strlit("application/vnd.github+json");
    reveal_strlit("2022-11-28");
    reveal_strlit("ghreq/0.1.0 (https://github.com/jwodder/ghreq)");
}

impl ClientConfig {
    /// A configuration with the default base URL and headers and no timeout
    pub fn new() -> (r: ClientConfig)
        ensures
            r@.base_url == crate::http_url::default_api_url(),
            r@.headers == default_headers(),
            r@.headers == Map::<Seq<char>, Seq<Seq<u8>>>::empty().insert("accept"@, seq![encode_utf8(DEFAULT_ACCEPT@)])
                .insert(API_VERSION_HEADER@, seq![encode_utf8(DEFAULT_API_VERSION@)])
                .insert("user-agent"@, seq![encode_utf8(DEFAULT_USER_AGENT@)]),
            r@.timeout is None,
    {
        proof {
            lemma_header_names();
            lemma_default_values_valid();
        }
        let mut headers = new_headers();
        set_header(&mut headers, "accept", DEFAULT_ACCEPT);
        set_header(&mut headers, API_VERSION_HEADER, DEFAULT_API_VERSION);
        set_header(&mut headers, "user-agent", DEFAULT_USER_AGENT);
        ClientConfig { base_url: HttpUrl::default_api(), headers, timeout: None }
    }

    /// Set the base API URL, to which path endpoints are appended
    pub fn with_base_url(self, url: HttpUrl) -> (r: Self)
        ensures
            r@ == (ClientConfigView { base_url: url@, ..self@ }),
    {
        proof {
            use_type_invariant(&self);
        }
        ClientConfig { base_url: url, ..self }
    }

    /// Send the given access token in the `Authorization` header.  If
    /// `"Bearer {token}"` is not a valid header value, the configuration is
    /// returned unchanged as the error.
    pub fn with_auth_token(self, token: &str) -> (r: Result<Self, Self>)
        requires
            has_header_room(self@),
        ensures
            r is Ok <==> is_header_text("Bearer "@ + token@),
            r matches Ok(c) ==> c@ == (ClientConfigView {
                headers: insert_if_valid(self@.headers, "authorization"@, "Bearer "@ + token@),
                ..self@
            }),
            r matches Err(c) ==> c@ == self@,
    {
        proof {
            lemma_header_names();
        }
        proof {
            use_type_invariant(&self);
        }
        let mut value = "Bearer ".to_owned();
        value.append(token);
        let ClientConfig { base_url, mut headers, timeout } = self;
        let ok = insert_header(&mut headers, "authorization", value.as_str());
        if ok {
            Ok(ClientConfig { base_url, headers, timeout })
        } else {
            Err(ClientConfig { base_url, headers, timeout })
        }
    }

    /// Set the value of the `User-Agent` header
    pub fn with_user_agent(self, value: &str) -> (r: Self)
        requires
            is_header_text(value@),
            has_header_room(self@),
        ensures
            r@ == (ClientConfigView { headers: insert_if_valid(self@.headers, "user-agent"@, value@), ..self@ }),
    {
        proof {
            lemma_header_names();
        }
        proof {
            use_type_invariant(&self);
        }
        let ClientConfig { base_url, mut headers, timeout } = self;
        set_header(&mut headers, "user-agent", value);
        ClientConfig { base_url, headers, timeout }
    }

    /// Set the value of the `Accept` header
    pub fn with_accept(self, value: &str) -> (r: Self)
        requires
            is_header_text(value@),
            has_header_room(self@),
        ensures
            r@ == (ClientConfigView { headers: insert_if_valid(self@.headers, "accept"@, value@), ..self@ }),
    {
        proof {
            lemma_header_names();
        }
        proof {
            use_type_invariant(&self);
        }
        let ClientConfig { base_url, mut headers, timeout } = self;
        set_header(&mut headers, "accept", value);
        ClientConfig { base_url, headers, timeout }
    }

    /// Set the value of the `X-GitHub-Api-Version` header
    pub fn with_api_version(self, value: &str) -> (r: Self)
        requires
            is_header_text(value@),
            has_header_room(self@),
        ensures
            r@ == (ClientConfigView { headers: insert_if_valid(self@.headers, API_VERSION_HEADER@, value@), ..self@ }),
    {
        proof {
            lemma_header_names();
        }
        proof {
            use_type_invariant(&self);
        }
        let ClientConfig { base_url, mut headers, timeout } = self;
        set_header(&mut headers, API_VERSION_HEADER, value);
        ClientConfig { base_url, headers, timeout }
    }

    /// Add the given header and value to all outgoing requests
    pub fn with_header(self, name: &str, value: &str) -> (r: Self)
        requires
            is_header_name(name@),
            is_header_text(value@),
            has_header_room(self@),
        ensures
            r@ == (ClientConfigView { headers: insert_if_valid(self@.headers, header_key(name@), value@), ..self@ }),
    {
        proof {
            use_type_invariant(&self);
        }
        let ClientConfig { base_url, mut headers, timeout } = self;
        set_header(&mut headers, name, value);
        ClientConfig { base_url, headers, timeout }
    }

    /// Set the default timeout of each request
    pub fn set_timeout(self, timeout: std::time::Duration) -> (r: Self)
        ensures
            r@ == (ClientConfigView { timeout: Some(timeout), ..self@ }),
    {
        proof {
            use_type_invariant(&self);
        }
        ClientConfig { timeout: Some(timeout), ..self }
    }

    /// Combine the configuration with a backend
    pub fn with_backend<B>(self, backend: B) -> (r: Client<B>)
        ensures
            r.spec_config() == self@,
            r.spec_backend() == backend,
    {
        Client { config: self, backend }
    }

    /// Combine the configuration with an asynchronous backend
    pub fn with_async_backend<B>(self, backend: B) -> (r: AsyncClient<B>)
        ensures
            r.spec_config() == self@,
            r.spec_backend() == backend,
    {
        AsyncClient { config: self, backend }
    }

    /// The base URL
    pub fn base_url(&self) -> (r: &HttpUrl)
        ensures
            r@ == self@.base_url,
    {
        &self.base_url
    }

    /// The default headers
    pub fn headers(&self) -> (r: &http::HeaderMap)
        ensures
            header_entries(*r) == self@.headers,
    {
        &self.headers
    }

    /// The default timeout
    pub fn timeout(&self) -> (r: Option<std::time::Duration>)
        ensures
            r == self@.timeout,
    {
        self.timeout
    }

    /// Build the parts of a request: the endpoint resolved against the base
    /// URL with the query parameters appended in order; the request's timeout,
    /// else the default one; and the default headers, overridden by the
    /// body's headers, overridden by the request's own.
    pub fn prepare_request(
        &self,
        endpoint: Endpoint,
        method: Method,
        params: &Vec<(String, String)>,
        timeout: Option<std::time::Duration>,
        body_headers: http::HeaderMap,
        request_headers: http::HeaderMap,
    ) -> (r: RequestParts)
        requires
            names_at_most(header_entries(body_headers), header_names_limit()),
            names_at_most(header_entries(request_headers), header_names_limit()),
        ensures
            r.url@ == with_params(joined(self@.base_url, endpoint@), params_view(params@)),
            r.method == method,
            header_entries(r.headers) == merged_headers(self@.headers, header_entries(body_headers), header_entries(request_headers)),
            r.timeout == effective_timeout(timeout, self@.timeout),
    {
        let mut url = self.base_url.join_endpoint(endpoint);
        let ghost start = url@;
        let mut i: usize = 0;
        while i < params.len()
            invariant
                0 <= i <= params@.len(),
                url@ == with_params(start, params_view(params@.subrange(0, i as int))),
            decreases params@.len() - i,
        {
            url.append_query_param(params[i].0.as_str(), params[i].1.as_str());
            proof {
                let p = params_view(params@.subrange(0, i + 1 as int));
                assert(p.drop_last() =~= params_view(params@.subrange(0, i as int)));
            }
            i = i + 1;
        }
        proof {
            assert(params@.subrange(0, params@.len() as int) =~= params@);
        }
        let timeout = match timeout {
            Some(t) => Some(t),
            None => self.timeout};
        proof {
            use_type_invariant(self);
        }
        let mut headers = clone_headers(&self.headers);
        let ghost c = header_entries(headers);
        let ghost b = header_entries(body_headers);
        extend_headers(&mut headers, body_headers);
        proof {
            lemma_len_union(c.dom(), b.dom());
            assert(header_entries(headers).dom() =~= c.dom().union(b.dom()));
        }
        extend_headers(&mut headers, request_headers);
        RequestParts { url, method, headers, timeout }
    }
}

/// Whether a status code is a client or server error (4xx or 5xx), whose
/// body goes to the error parser
pub open spec fn is_error_status_spec(status: u16) -> bool {
    400 <= status < 600
}

/// Whether a status code is a client or server error (4xx or 5xx)
pub fn is_error_status(status: u16) -> (r: bool)
    ensures
        r == is_error_status_spec(status),
{
    400 <= status && status < 600
}

/// The error for a request whose body could not be made
pub fn prepare_failure<BE, E>(url: HttpUrl, method: Method, e: E) -> (r: Error<BE, E>)
    ensures
        r.spec_url() == url@,
        r.spec_method() == method,
        r.spec_payload() == ErrorPayload::<BE, E>::PrepareRequest(e),
{
    Error::new(url, method, ErrorPayload::PrepareRequest(e))
}

/// The error for a request that the backend failed to send
pub fn send_failure<BE, E>(url: HttpUrl, method: Method, e: BE) -> (r: Error<BE, E>)
    ensures
        r.spec_url() == url@,
        r.spec_method() == method,
        r.spec_payload() == ErrorPayload::<BE, E>::Send(e),
{
    Error::new(url, method, ErrorPayload::Send(e))
}

/// The parse error as the request's error type sees it
pub open spec fn converted_parse_error<E>(pe: ParseResponseError<CommonError>, q: ParseResponseError<E>) -> bool
    where
        CommonError: Into<E>,
{
    (q is Read <==> pe is Read) && (pe matches ParseResponseError::Parse(ce) ==> (q matches ParseResponseError::Parse(e2)
        && (<CommonError as IntoSpec<E>>::obeys_into_spec() ==> e2 == <CommonError as IntoSpec<E>>::into_spec(ce))))
}

/// The outcome of a request whose response had an error status, given what
/// the error parser made of the body: a `Status` error carrying the parsed
/// response, or a `ParseResponse` error when the body could not be read or
/// parsed.  Either way the request failed.
pub fn error_status_outcome<BE, E, O>(
    url: HttpUrl,
    method: Method,
    parsed: Result<ErrorResponse, ParseResponseError<CommonError>>,
) -> (r: Result<O, Error<BE, E>>)
    where
        CommonError: Into<E>,
    ensures
        r matches Err(e) && e.spec_url() == url@ && e.spec_method() == method
            && (parsed matches Ok(x) ==> e.spec_payload() == ErrorPayload::<BE, E>::Status(x))
            && (parsed matches Err(pe) ==> (e.spec_payload() matches ErrorPayload::ParseResponse(q)
                && converted_parse_error(pe, *q))),
{
    match parsed {
        Ok(resp) => Err(Error::new(url, method, ErrorPayload::Status(resp))),
        Err(e) => Err(Error::new(url, method, ErrorPayload::ParseResponse(e.convert_parse_error()))),
    }
}

/// The outcome of a request whose response had a success status, given what
/// the request's own parser made of the body
pub fn success_outcome<BE, E, O>(
    url: HttpUrl,
    method: Method,
    parsed: Result<O, ParseResponseError<CommonError>>,
) -> (r: Result<O, Error<BE, E>>)
    where
        CommonError: Into<E>,
    ensures
        parsed matches Ok(o) ==> r == Ok::<O, Error<BE, E>>(o),
        parsed matches Err(pe) ==> (r matches Err(e) && e.spec_url() == url@ && e.spec_method() == method
            && (e.spec_payload() matches ErrorPayload::ParseResponse(q) && converted_parse_error(pe, *q))),
{
    match parsed {
        Ok(o) => Ok(o),
        Err(e) => Err(Error::new(url, method, ErrorPayload::ParseResponse(e.convert_parse_error()))),
    }
}

/// A client: a configuration and a backend
#[derive(Debug)]
pub struct Client<B> {
    config: ClientConfig,
    backend: B}

impl<B> Client<B> {
    pub closed spec fn spec_config(&self) -> ClientConfigView {
        self.config@
    }

    pub closed spec fn spec_backend(&self) -> B {
        self.backend
    }

    /// Combine a configuration and a backend
    pub fn new(config: ClientConfig, backend: B) -> (r: Client<B>)
        ensures
            r.spec_config() == config@,
            r.spec_backend() == backend,
    {
        Client { config, backend }
    }

    /// The configuration
    pub fn config(&self) -> (r: &ClientConfig)
        ensures
            r@ == self.spec_config(),
    {
        &self.config
    }

    /// The backend
    pub fn backend_ref(&self) -> (r: &B)
        ensures
            *r == self.spec_backend(),
    {
        &self.backend
    }

    /// The backend, to change
    pub fn backend_mut(&mut self) -> (r: &mut B)
        ensures
            *r == old(self).spec_backend(),
            final(self).spec_config() == old(self).spec_config(),
            final(self).spec_backend() == *final(r),
    {
        &mut self.backend
    }
}

/// An asynchronous client: a configuration and an asynchronous backend
#[derive(Debug)]
pub struct AsyncClient<B> {
    config: ClientConfig,
    backend: B,
}

impl<B> AsyncClient<B> {
    pub closed spec fn spec_config(&self) -> ClientConfigView {
        self.config@
    }

    pub closed spec fn spec_backend(&self) -> B {
        self.backend
    }

    /// Combine a configuration and an asynchronous backend
    pub fn new(config: ClientConfig, backend: B) -> (r: AsyncClient<B>)
        ensures
            r.spec_config() == config@,
            r.spec_backend() == backend,
    {
        AsyncClient { config, backend }
    }

    /// The configuration
    pub fn config(&self) -> (r: &ClientConfig)
        ensures
            r@ == self.spec_config(),
    {
        &self.config
    }

    /// The backend
    pub fn backend_ref(&self) -> (r: &B)
        ensures
            *r == self.spec_backend(),
    {
        &self.backend
    }

    /// The backend, to change
    pub fn backend_mut(&mut self) -> (r: &mut B)
        ensures
            *r == old(self).spec_backend(),
            final(self).spec_config() == old(self).spec_config(),
            final(self).spec_backend() == *final(r),
    {
        &mut self.backend
    }
}

} // verus!
