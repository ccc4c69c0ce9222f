//! A failed call to an upstream service, as plain values.
use vstd::prelude::*;

verus! {

/// How a call to an upstream service failed.
#[derive(Clone, Copy, Debug, PartialEq, Eq, Structural)]
pub enum RequestErrorKind {
    /// The upstream answered with this status, outside 2xx.
    Status(u16),
    /// The upstream answered 2xx with a body of an unexpected shape.
    Body,
    /// The call failed below HTTP (connection, DNS, timeout); the transport
    /// may still have seen a status.
    Transport(Option<u16>),
}

/// A failed call to an upstream service, with the transport's diagnostic.
#[derive(Debug)]
pub struct RequestError {
    pub kind: RequestErrorKind,
    pub message: String,
}

impl RequestError {
    /// The HTTP status that came with the failure, if any.
    pub open spec fn spec_status(&self) -> Option<u16> {
        match self.kind {
            RequestErrorKind::Status(s) => Some(s),
            RequestErrorKind::Body => None,
            RequestErrorKind::Transport(s) => s,
        }
    }

    pub fn status(&self) -> (r: Option<u16>)
        ensures
            r == self.spec_status(),
    {
        match self.kind {
            RequestErrorKind::Status(s) => Some(s),
            RequestErrorKind::Body => None,
            RequestErrorKind::Transport(s) => s,
        }
    }
}

} // verus!
