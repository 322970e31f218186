//! Errors reported by the control-plane client.

use vstd::prelude::*;

verus! {

/// The two kinds of failure a control-plane call can end in: the server
/// rejected the credentials, or the server could not be reached (or its
/// answer could not be decoded).
#[derive(Clone, Copy, Debug, PartialEq, Eq, Structural)]
pub enum APIErrorKind {
    APIAuthError,
    APIConnectionError,
}

/// An error from the control plane, carrying its kind, the message the
/// server (or the transport) gave, and a numeric code: the HTTP status for
/// an authentication failure, 502 for a transport failure.
#[derive(Debug)]
pub struct APIError {
    pub kind: APIErrorKind,
    pub message: String,
    pub code: i32,
}

impl APIError {
    pub fn new(kind: APIErrorKind, message: String, code: i32) -> (e: APIError)
        ensures
            e.kind == kind,
            e.message@ == message@,
            e.code == code,
    {
        APIError { kind, message, code }
    }

    pub fn kind(&self) -> (k: APIErrorKind)
        ensures
            k == self.kind,
    {
        self.kind
    }

    pub fn code(&self) -> (c: i32)
        ensures
            c == self.code,
    {
        self.code
    }

    /// The server's (or transport's) message.
    pub fn message(&self) -> (m: &String)
        ensures
            m@ == self.message@,
    {
        &self.message
    }
}

} // verus!
