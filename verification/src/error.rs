//! The failure taxonomy shared by every component of the harness.

use vstd::prelude::*;
use vstd::string::StringExecFns;

verus! {

/// The broad classes of failure the harness distinguishes.
///
/// `ApiConnectionFailure` covers broker connect and channel-open failures,
/// `TestAssertFailure` a non-zero assertion-script exit, and
/// `InternalFailure` everything else (serialization, locking, I/O,
/// subprocess spawning, missing configuration).
#[derive(Debug, Copy, Clone, PartialEq, Eq, Structural)]
pub enum ErrorKind {
    ApiConnectionFailure,
    InternalFailure,
    TestAssertFailure,
}

/// A tagged failure: a kind together with a human-readable message.
#[derive(Debug, Clone)]
pub struct Error {
    pub kind: ErrorKind,
    pub message: String,
}

impl Error {
    /// Builds an error of the given kind carrying the given message.
    pub fn new(kind: ErrorKind, message: String) -> (r: Error)
        ensures
            r.kind == kind,
            r.message@ == message@,
    {
        Error { kind, message }
    }

    /// The kind of this error.
    pub fn kind(&self) -> (r: ErrorKind)
        ensures
            r == self.kind,
    {
        self.kind
    }

    /// The message of this error.
    pub fn message(&self) -> (r: &str)
        ensures
            r@ == self.message@,
    {
        self.message.as_str()
    }

    /// Builds an error whose message is a fixed prefix followed by a detail
    /// taken from the failure at hand.
    pub fn with_detail(kind: ErrorKind, prefix: &str, detail: &str) -> (r: Error)
        ensures
            r.kind == kind,
            r.message@ == prefix@ + detail@,
    {
        let mut message: String = prefix.to_owned();
        message.append(detail);
        Error::new(kind, message)
    }
}

} // verus!
