//! The request and response values that cross the boundary.
use vstd::prelude::*;

verus! {

/// An HTTP request, owned by whichever side holds it.
///
/// Its header fields are kept as the caller wrote them, in that order and
/// with the names' case as given; finalizing turns that record into the form
/// the protocol engine writes from.
pub struct hyper_request {
    pub method: String,
    pub uri: String,
    pub headers: Vec<(String, String)>,
    /// Whether the header record has been made ready for the wire.
    pub finalized: bool,
}

impl hyper_request {
    /// A request with no header fields, not yet finalized.
    pub fn new(method: String, uri: String) -> (r: hyper_request)
        ensures
            r.method@ == method@,
            r.uri@ == uri@,
            r.headers@.len() == 0,
            !r.finalized,
    {
        hyper_request { method, uri, headers: Vec::new(), finalized: false }
    }

    /// Appends a header field, keeping the name's case and the order of
    /// appending.
    pub fn add_header(&mut self, name: String, value: String)
        ensures
            final(self).headers@ == old(self).headers@.push((name, value)),
            final(self).method == old(self).method,
            final(self).uri == old(self).uri,
            final(self).finalized == old(self).finalized,
    {
        self.headers.push((name, value));
    }

    /// Makes the header record ready for the wire: case and order as the
    /// caller wrote them are what the engine is handed.
    pub fn finalize_request(&mut self)
        ensures
            final(self).headers == old(self).headers,
            final(self).method == old(self).method,
            final(self).uri == old(self).uri,
            final(self).finalized,
    {
        self.finalized = true;
    }

    /// The number of header fields.
    pub fn header_count(&self) -> (n: usize)
        ensures
            n == self.headers@.len(),
    {
        self.headers.len()
    }
}

/// An HTTP response, as the protocol engine reported it.
pub struct hyper_response {
    pub status: u16,
    pub headers: Vec<(String, String)>,
}

impl hyper_response {
    /// Wraps a response that the engine produced.
    pub fn wrap(status: u16, headers: Vec<(String, String)>) -> (r: hyper_response)
        ensures
            r.status == status,
            r.headers == headers,
    {
        hyper_response { status, headers }
    }

    /// The status code.
    pub fn status(&self) -> (s: u16)
        ensures
            s == self.status,
    {
        self.status
    }
}

/// A transport handle: a token that names the embedding program's byte
/// stream, which this library never reads or writes itself.
#[derive(Debug, Clone, Copy, PartialEq, Eq, Structural)]
pub struct hyper_io {
    pub id: u64,
}

} // verus!
