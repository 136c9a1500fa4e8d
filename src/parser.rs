use vstd::prelude::*;
use vstd::utf8::{valid_utf8, decode_utf8};
use crate::errors::{CommonError, json_parses, parse_json, decode_utf8_text};
use crate::headers::content_length;
use crate::response::ResponseParts;

verus! {

/// Text decoded from bytes, with each invalid UTF-8 sequence replaced by
/// U+FFFD, as `bstr::ByteVec::into_string_lossy` does it
pub uninterp spec fn lossy_text(b: Seq<u8>) -> Seq<char>;

/// Relies on `bstr::ByteVec::into_string_lossy`: lossy decoding, which on
/// valid UTF-8 is the plain decoding.
#[verifier::external_body]
fn into_string_lossy(b: Vec<u8>) -> (r: String)
    ensures
        r@ == lossy_text(b@),
        valid_utf8(b@) ==> r@ == decode_utf8(b@),
{
    bstr::ByteVec::into_string_lossy(b)
}

/// Append a chunk of bytes to a buffer
pub fn append_bytes(buf: &mut Vec<u8>, chunk: &[u8])
    ensures
        final(buf)@ == old(buf)@ + chunk@,
{
    let mut i: usize = 0;
    while i < chunk.len()
        invariant
            0 <= i <= chunk@.len(),
            buf@ == old(buf)@ + chunk@.subrange(0, i as int),
        decreases chunk@.len() - i,
    {
        buf.push(chunk[i]);
        i = i + 1;
        proof {
            assert(chunk@.subrange(0, i as int) == chunk@.subrange(0, i - 1 as int).push(chunk@[i - 1]));
            assert(buf@ =~= old(buf)@ + chunk@.subrange(0, i as int));
        }
    }
    proof {
        assert(chunk@.subrange(0, chunk@.len() as int) =~= chunk@);
    }
}

/// Reserve room in a buffer for the body that the response's
/// `Content-Length` announces, if any; the contents do not change.
pub fn reserve_for(buf: &mut Vec<u8>, parts: &ResponseParts)
    ensures
        final(buf)@ == old(buf)@,
{
    match content_length(parts.headers()) {
        Some(size) => {
            if size <= usize::MAX as u64 {
                buf.reserve(size as usize);
            }
        },
        None => {}}
}

/// A parser that discards the response body
#[derive(Clone, Copy, Debug, Default, Eq, Hash, Ord, PartialEq, PartialOrd)]
pub struct Ignore;

impl Ignore {
    /// A new parser
    pub fn new() -> (r: Ignore)
        ensures
            r == Ignore,
    {
        Ignore
    }

    /// Ignore the response parts
    pub fn handle_parts(&mut self, parts: &ResponseParts)
        ensures
            *final(self) == *old(self),
    {
    }

    /// Ignore a chunk of the body
    pub fn handle_bytes(&mut self, buf: &[u8])
        ensures
            *final(self) == *old(self),
    {
    }

    /// Finish: always succeeds
    pub fn end(self) -> (r: Result<(), CommonError>)
        ensures
            r is Ok,
    {
        Ok(())
    }
}

/// A parser that decodes the body as UTF-8, failing on invalid UTF-8
#[derive(Clone, Debug, Default, Eq, PartialEq)]
pub struct Utf8Text(Vec<u8>);

impl Utf8Text {
    pub closed spec fn spec_buf(&self) -> Seq<u8> {
        self.0@
    }

    /// A new parser
    pub fn new() -> (r: Self)
        ensures
            r.spec_buf() == Seq::<u8>::empty(),
    {
        Utf8Text(Vec::new())
    }

    /// Take note of the response parts
    pub fn handle_parts(&mut self, parts: &ResponseParts)
        ensures
            final(self).spec_buf() == old(self).spec_buf(),
    {
        reserve_for(&mut self.0, parts);
    }

    /// Take in a chunk of the body
    pub fn handle_bytes(&mut self, buf: &[u8])
        ensures
            final(self).spec_buf() == old(self).spec_buf() + buf@,
    {
        append_bytes(&mut self.0, buf);
    }

    /// Finish: the text of the body
    pub fn end(self) -> (r: Result<String, CommonError>)
        ensures
            r is Ok <==> valid_utf8(self.spec_buf()),
            r matches Ok(s) ==> s@ == decode_utf8(self.spec_buf()),
            r matches Err(e) ==> e is Utf8,
    {
        match decode_utf8_text(self.0.as_slice()) {
            Ok(s) => Ok(s),
            Err(e) => Err(CommonError::Utf8(e))}
    }
}

/// A parser that decodes the body as UTF-8, replacing invalid sequences
#[derive(Clone, Debug, Default, Eq, PartialEq)]
pub struct LossyUtf8Text(Vec<u8>);

impl LossyUtf8Text {
    pub closed spec fn spec_buf(&self) -> Seq<u8> {
        self.0@
    }

    /// A new parser
    pub fn new() -> (r: Self)
        ensures
            r.spec_buf() == Seq::<u8>::empty(),
    {
        LossyUtf8Text(Vec::new())
    }

    /// Take note of the response parts
    pub fn handle_parts(&mut self, parts: &ResponseParts)
        ensures
            final(self).spec_buf() == old(self).spec_buf(),
    {
        reserve_for(&mut self.0, parts);
    }

    /// Take in a chunk of the body
    pub fn handle_bytes(&mut self, buf: &[u8])
        ensures
            final(self).spec_buf() == old(self).spec_buf() + buf@,
    {
        append_bytes(&mut self.0, buf);
    }

    /// Finish: the text of the body; never fails
    pub fn end(self) -> (r: Result<String, CommonError>)
        ensures
            r matches Ok(s) && s@ == lossy_text(self.spec_buf()),
            valid_utf8(self.spec_buf()) ==> (r matches Ok(s) && s@ == decode_utf8(self.spec_buf())),
    {
        Ok(into_string_lossy(self.0))
    }
}

/// A parser that decodes the body as a JSON value
#[derive(Clone, Debug, Default, Eq, PartialEq)]
pub struct JsonResponse {
    buf: Vec<u8>}

impl JsonResponse {
    pub closed spec fn spec_buf(&self) -> Seq<u8> {
        self.buf@
    }

    /// A new parser
    pub fn new() -> (r: JsonResponse)
        ensures
            r.spec_buf() == Seq::<u8>::empty(),
    {
        JsonResponse { buf: Vec::new() }
    }

    /// Take note of the response parts
    pub fn handle_parts(&mut self, parts: &ResponseParts)
        ensures
            final(self).spec_buf() == old(self).spec_buf(),
    {
        reserve_for(&mut self.buf, parts);
    }

    /// Take in a chunk of the body
    pub fn handle_bytes(&mut self, buf: &[u8])
        ensures
            final(self).spec_buf() == old(self).spec_buf() + buf@,
    {
        append_bytes(&mut self.buf, buf);
    }

    /// Finish: the JSON value of the body
    pub fn end(self) -> (r: Result<serde_json::Value, CommonError>)
        ensures
            r is Ok <==> json_parses(self.spec_buf()),
            r matches Err(e) ==> e is Json,
    {
        match parse_json(self.buf.as_slice()) {
            Ok(v) => Ok(v),
            Err(e) => Err(CommonError::Json(e))}
    }
}

/// A parser that hands the body to a writer; the first write error is kept
/// and reported at the end, and later chunks are then not written
#[derive(Debug, Default)]
pub struct ToWriter<W> {
    writer: W,
    err: Option<std::io::Error>}

impl<W> ToWriter<W> {
    pub closed spec fn spec_writer(&self) -> W {
        self.writer
    }

    pub closed spec fn spec_failed(&self) -> bool {
        self.err is Some
    }

    /// A parser writing to the given writer
    pub fn new(writer: W) -> (r: ToWriter<W>)
        ensures
            r.spec_writer() == writer,
            !r.spec_failed(),
    {
        ToWriter { writer, err: None }
    }

    /// Whether the next chunk should be written: no write has failed yet
    pub fn accepts_bytes(&self) -> (r: bool)
        ensures
            r == !self.spec_failed(),
    {
        self.err.is_none()
    }

    /// The writer, to write the next chunk to
    pub fn writer_mut(&mut self) -> (r: &mut W)
        ensures
            *r == old(self).spec_writer(),
            final(self).spec_writer() == *final(r),
            final(self).spec_failed() == old(self).spec_failed(),
    {
        &mut self.writer
    }

    /// Record the outcome of writing a chunk; only the first error is kept
    pub fn record_write(&mut self, outcome: Result<(), std::io::Error>)
        ensures
            final(self).spec_writer() == old(self).spec_writer(),
            final(self).spec_failed() == (old(self).spec_failed() || outcome is Err),
    {
        if let Err(e) = outcome {
            if self.err.is_none() {
                self.err = Some(e);
            }
        }
    }

    /// Finish: fails with the kept write error, if any
    pub fn end(self) -> (r: Result<(), CommonError>)
        ensures
            r is Ok <==> !self.spec_failed(),
            r matches Err(e) ==> e is Io,
    {
        match self.err {
            Some(e) => Err(CommonError::Io(e)),
            None => Ok(())}
    }
}

} // verus!
