//! The closed set of outcome kinds a client call can produce: transport
//! failures, decode failures, local I/O failures, and the typed mapping of
//! server status codes. No kind is ever retried; each is surfaced verbatim.

use vstd::prelude::*;

verus! {

/// Everything that can go wrong with a client call.
#[derive(Debug)]
pub enum Error {
    /// The network/HTTP call itself failed; payload describes the failure.
    Transport(String),
    /// A response body that was expected to be structured data failed to
    /// parse; payload is the offending text.
    Decode(String),
    /// A local file read or write failed; payload describes the failure.
    Io(String),
    /// The server responded 404; payload is the resource path.
    NotFound(String),
    /// The server responded 409; payload is the resource path.
    AlreadyExists(String),
    /// The server responded 400; payload is the server-supplied diagnostic.
    BadRequest(String),
    /// The server responded with any other non-success status; payload is the
    /// numeric status code.
    Server(u16),
}

impl PartialEq for Error {
    fn eq(&self, other: &Error) -> (r: bool) {
        match (self, other) {
            (Error::Transport(a), Error::Transport(b)) => *a == *b,
            (Error::Decode(a), Error::Decode(b)) => *a == *b,
            (Error::Io(a), Error::Io(b)) => *a == *b,
            (Error::NotFound(a), Error::NotFound(b)) => *a == *b,
            (Error::AlreadyExists(a), Error::AlreadyExists(b)) => *a == *b,
            (Error::BadRequest(a), Error::BadRequest(b)) => *a == *b,
            (Error::Server(a), Error::Server(b)) => *a == *b,
            _ => false,
        }
    }
}

impl vstd::std_specs::cmp::PartialEqSpecImpl for Error {
    open spec fn obeys_eq_spec() -> bool {
        true
    }

    open spec fn eq_spec(&self, other: &Error) -> bool {
        match (self, other) {
            (Error::Transport(a), Error::Transport(b)) => a@ == b@,
            (Error::Decode(a), Error::Decode(b)) => a@ == b@,
            (Error::Io(a), Error::Io(b)) => a@ == b@,
            (Error::NotFound(a), Error::NotFound(b)) => a@ == b@,
            (Error::AlreadyExists(a), Error::AlreadyExists(b)) => a@ == b@,
            (Error::BadRequest(a), Error::BadRequest(b)) => a@ == b@,
            (Error::Server(a), Error::Server(b)) => a == b,
            _ => false,
        }
    }
}

} // verus!
