use vstd::prelude::*;
use crate::headers::{header_entries, new_headers, set_content_length, insert_header, decimal_bytes, is_lower_header_name, lemma_lower_name_is_key};
use vstd::utf8::encode_utf8;

verus! {

/// The headers of an empty request body: `Content-Length: 0`
pub fn empty_body_headers() -> (r: http::HeaderMap)
    ensures
        header_entries(r) == Map::<Seq<char>, Seq<Seq<u8>>>::empty().insert("content-length"@, seq![decimal_bytes(0)]),
{
    let mut h = new_headers();
    set_content_length(&mut h, 0);
    h
}

/// The headers of a body of `len` bytes held in memory: its
/// `Content-Length`, when the length fits in a `u64`
pub fn sized_body_headers(len: usize) -> (r: http::HeaderMap)
    ensures
        header_entries(r) == Map::<Seq<char>, Seq<Seq<u8>>>::empty().insert("content-length"@, seq![decimal_bytes(len as nat)]),
{
    let mut h = new_headers();
    set_content_length(&mut h, len as u64);
    h
}

/// The headers of a JSON request body: `Content-Type: application/json`
pub fn json_body_headers() -> (r: http::HeaderMap)
    ensures
        header_entries(r) == Map::<Seq<char>, Seq<Seq<u8>>>::empty().insert("content-type"@, seq![encode_utf8("application/json"@)]),
{
    proof {
        reveal_strlit("content-type");
        reveal_strlit("application/json");
        assert(is_lower_header_name("content-type"@));
        lemma_lower_name_is_key("content-type"@);
    }
    let mut h = new_headers();
    let _ = insert_header(&mut h, "content-type", "application/json");
    h
}

/// A request body made by serializing a value as JSON
#[derive(Clone, Copy, Debug, Default, Hash, Eq, Ord, PartialEq, PartialOrd)]
pub struct JsonBody<T>(T);

impl<T> JsonBody<T> {
    pub closed spec fn spec_value(&self) -> T {
        self.0
    }

    /// A body holding the given value
    pub fn new(value: T) -> (r: JsonBody<T>)
        ensures
            r.spec_value() == value,
    {
        JsonBody(value)
    }

    /// The value to serialize
    pub fn value(&self) -> (r: &T)
        ensures
            *r == self.spec_value(),
    {
        &self.0
    }

    /// The value, giving up the body
    pub fn into_value(self) -> (r: T)
        ensures
            r == self.spec_value(),
    {
        self.0
    }
}

} // verus!
