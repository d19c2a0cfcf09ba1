//! What the library reads of an HTTP reply.
use vstd::prelude::*;

verus! {

/// A reply's status code and body text, as received.
#[derive(Debug, Clone, PartialEq, Eq)]
pub struct HttpReply {
    pub status: u16,
    pub body: String,
}

/// The success range of HTTP status codes.
pub open spec fn success_code(code: u16) -> bool {
    200 <= code && code <= 299
}

/// Whether `code` is a success status (200 to 299).
pub fn is_success(code: u16) -> (r: bool)
    ensures
        r == success_code(code),
{
    200 <= code && code <= 299
}

} // verus!
