//! The failure report of the synchronization service.
use vstd::prelude::*;
use vstd::string::StringExecFns;

use crate::trusted::{json_string, json_string_literal};
use crate::types::{Character, Chat};

verus! {

/// A failure of a synchronization request, with its description.
#[derive(Debug, Clone)]
pub struct Error(pub String);

/// An HTTP response for the service's host to send.
#[derive(Debug, Clone)]
pub struct ErrorResponse {
    pub status: u16,
    pub content_type: String,
    pub body: String,
}

/// The query naming the client a synchronization request comes from.
#[derive(Debug, Clone)]
pub struct ClientIdQuery {
    pub client_id: String,
}

/// The JSON object whose `error` member is the given, already encoded, JSON
/// string.
pub fn error_body(quoted: &str) -> (r: String)
    ensures
        r@ == "{\"error\":"@ + quoted@ + "}"@,
{
    let mut body = "{\"error\":".to_owned();
    body.append(quoted);
    body.append("}");
    body
}

/// The records a client uploads in a full synchronization, and the
/// service's complete set it gets back.
#[derive(Debug)]
pub struct SyncAllPayload {
    pub characters: Vec<Character>,
    pub chats: Vec<Chat>,
}

impl Error {
    /// The response reporting the failure: an internal-error status and a
    /// JSON object whose `error` member is the description.
    pub fn into_response(self) -> (r: ErrorResponse)
        ensures
            r.status == 500,
            r.content_type@ == "application/json"@,
            r.body@ == "{\"error\":"@ + json_string_literal(self.0@) + "}"@,
    {
        let quoted = json_string(self.0.as_str());
        let body = error_body(quoted.as_str());
        ErrorResponse { status: 500, content_type: "application/json".to_owned(), body }
    }
}

} // verus!
