//! The one error contract every backend surfaces through.
use vstd::prelude::*;

verus! {

/// Why a completion call failed.
#[derive(Debug, Clone)]
pub enum CompletionError {
    /// The request's `stream` flag does not match the operation it was
    /// handed to: a caller bug, not a backend failure.
    ProtocolViolation,
    /// The backend could not be reached; the text says why.
    Unavailable(String),
    /// A synchronous call got a non-success HTTP status, with the full body.
    BadStatus { code: u16, body: String },
    /// The operation is not wired for this backend.
    Unimplemented,
    /// No backend has been loaded yet.
    NoModelLoaded,
}

} // verus!
