//! Error taxonomy shared by every handler and both transport faces.

use vstd::prelude::*;

verus! {

/// Machine-readable class of a failure.
///
/// `BadRequest` covers malformed input and unresolvable federation
/// selectors; `Unauthorized` a bad or missing bearer credential;
/// `Upstream` a failure reported by the federation backend;
/// `NotImplemented` a stable capability gap; `Internal` a failure of the
/// gateway itself, such as an event stream ending without an outcome.
#[derive(Clone, Copy, Debug, PartialEq, Eq, Structural)]
pub enum ErrorKind {
    BadRequest,
    Unauthorized,
    Upstream,
    NotImplemented,
    Internal,
}

/// An error carried back to one caller: a class plus a human-readable text.
#[derive(Debug)]
pub struct GatewayError {
    pub kind: ErrorKind,
    pub message: String,
}

/// HTTP status used for an error class on the REST face.
pub open spec fn spec_status_code(kind: ErrorKind) -> u16 {
    match kind {
        ErrorKind::BadRequest => 400,
        ErrorKind::Unauthorized => 401,
        ErrorKind::Upstream => 502,
        ErrorKind::NotImplemented => 501,
        ErrorKind::Internal => 500,
    }
}

impl GatewayError {
    pub fn new(kind: ErrorKind, message: String) -> (r: GatewayError)
        ensures
            r.kind == kind,
            r.message == message,
    {
        GatewayError { kind, message }
    }

    pub fn bad_request(message: &str) -> (r: GatewayError)
        ensures
            r.kind == ErrorKind::BadRequest,
            r.message@ == message@,
    {
        GatewayError { kind: ErrorKind::BadRequest, message: message.to_owned() }
    }

    pub fn upstream(message: &str) -> (r: GatewayError)
        ensures
            r.kind == ErrorKind::Upstream,
            r.message@ == message@,
    {
        GatewayError { kind: ErrorKind::Upstream, message: message.to_owned() }
    }

    pub fn internal(message: &str) -> (r: GatewayError)
        ensures
            r.kind == ErrorKind::Internal,
            r.message@ == message@,
    {
        GatewayError { kind: ErrorKind::Internal, message: message.to_owned() }
    }

    pub fn not_implemented() -> (r: GatewayError)
        ensures
            r.kind == ErrorKind::NotImplemented,
            r.message@ == "Not implemented"@,
    {
        GatewayError { kind: ErrorKind::NotImplemented, message: "Not implemented".to_owned() }
    }

    /// Status code of this error on the REST face.
    pub fn status_code(&self) -> (r: u16)
        ensures
            r == spec_status_code(self.kind),
    {
        match self.kind {
            ErrorKind::BadRequest => 400,
            ErrorKind::Unauthorized => 401,
            ErrorKind::Upstream => 502,
            ErrorKind::NotImplemented => 501,
            ErrorKind::Internal => 500,
        }
    }
}

} // verus!
