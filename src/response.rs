use vstd::prelude::*;
use crate::headers::{header_entries, clone_headers};
use crate::http_url::{HttpUrl, HttpUrlView};
use crate::method::Method;

verus! {

/// The parts of an HTTP response other than its body
#[derive(Debug)]
pub struct ResponseParts {
    /// The URL the request was sent to, before any redirects
    pub initial_url: HttpUrl,
    /// The URL of the response, after any redirects
    pub url: HttpUrl,
    /// The request method
    pub method: Method,
    /// The status code
    pub status: u16,
    /// The response headers
    pub headers: http::HeaderMap,
}

/// The mathematical value of response parts
pub struct ResponsePartsView {
    pub initial_url: HttpUrlView,
    pub url: HttpUrlView,
    pub method: Method,
    pub status: u16,
    pub headers: Map<Seq<char>, Seq<Seq<u8>>>,
}

impl View for ResponseParts {
    type V = ResponsePartsView;

    open spec fn view(&self) -> ResponsePartsView {
        ResponsePartsView {
            initial_url: self.initial_url@,
            url: self.url@,
            method: self.method,
            status: self.status,
            headers: header_entries(self.headers),
        }
    }
}

impl ResponseParts {
    /// Gather the parts of a response
    pub fn new(initial_url: HttpUrl, url: HttpUrl, method: Method, status: u16, headers: http::HeaderMap) -> (r: ResponseParts)
        ensures
            r@ == (ResponsePartsView { initial_url: initial_url@, url: url@, method, status, headers: header_entries(headers) }),
    {
        ResponseParts { initial_url, url, method, status, headers }
    }

    /// The URL the request was sent to, before any redirects
    pub fn initial_url(&self) -> (r: &HttpUrl)
        ensures
            r@ == self@.initial_url,
    {
        &self.initial_url
    }

    /// The URL of the response
    pub fn url(&self) -> (r: &HttpUrl)
        ensures
            r@ == self@.url,
    {
        &self.url
    }

    /// The request method
    pub fn method(&self) -> (r: Method)
        ensures
            r == self@.method,
    {
        self.method
    }

    /// The status code
    pub fn status(&self) -> (r: u16)
        ensures
            r == self@.status,
    {
        self.status
    }

    /// The response headers
    pub fn headers(&self) -> (r: &http::HeaderMap)
        ensures
            header_entries(*r) == self@.headers,
    {
        &self.headers
    }

    /// A copy of the parts
    pub fn clone_parts(&self) -> (r: ResponseParts)
        ensures
            r@ == self@,
    {
        ResponseParts {
            initial_url: self.initial_url.clone_url(),
            url: self.url.clone_url(),
            method: self.method,
            status: self.status,
            headers: clone_headers(&self.headers),
        }
    }
}

/// A response: its parts and a body
#[derive(Debug)]
pub struct Response<T> {
    parts: ResponseParts,
    body: T,
}

impl<T> Response<T> {
    pub closed spec fn spec_parts(&self) -> ResponsePartsView {
        self.parts@
    }

    pub closed spec fn spec_body(&self) -> T {
        self.body
    }

    /// Combine parts and a body
    pub fn from_parts(parts: ResponseParts, body: T) -> (r: Response<T>)
        ensures
            r.spec_parts() == parts@,
            r.spec_body() == body,
    {
        Response { parts, body }
    }

    /// Split into parts and body
    pub fn into_parts(self) -> (r: (ResponseParts, T))
        ensures
            r.0@ == self.spec_parts(),
            r.1 == self.spec_body(),
    {
        (self.parts, self.body)
    }

    /// The parts of the response
    pub fn parts(&self) -> (r: &ResponseParts)
        ensures
            r@ == self.spec_parts(),
    {
        &self.parts
    }

    /// The URL the request was sent to, before any redirects
    pub fn initial_url(&self) -> (r: &HttpUrl)
        ensures
            r@ == self.spec_parts().initial_url,
    {
        &self.parts.initial_url
    }

    /// The URL of the response
    pub fn url(&self) -> (r: &HttpUrl)
        ensures
            r@ == self.spec_parts().url,
    {
        &self.parts.url
    }

    /// The request method
    pub fn method(&self) -> (r: Method)
        ensures
            r == self.spec_parts().method,
    {
        self.parts.method
    }

    /// The status code
    pub fn status(&self) -> (r: u16)
        ensures
            r == self.spec_parts().status,
    {
        self.parts.status
    }

    /// The response headers
    pub fn headers(&self) -> (r: &http::HeaderMap)
        ensures
            header_entries(*r) == self.spec_parts().headers,
    {
        &self.parts.headers
    }

    /// The body
    pub fn body_ref(&self) -> (r: &T)
        ensures
            *r == self.spec_body(),
    {
        &self.body
    }

    /// The body, to change
    pub fn body_mut(&mut self) -> (r: &mut T)
        ensures
            *r == old(self).spec_body(),
            final(self).spec_parts() == old(self).spec_parts(),
            final(self).spec_body() == *final(r),
    {
        &mut self.body
    }

    /// The body, giving up the parts
    pub fn into_body(self) -> (r: T)
        ensures
            r == self.spec_body(),
    {
        self.body
    }
}

} // verus!
