//! What a connection writes before it is closed.
//!
//! A connection serves one request and is then closed, whatever the client
//! asked for: there is no keep-alive.

use crate::error::EigenError;
use vstd::prelude::*;
use vstd::string::StringExecFns;

verus! {

/// Whether a connection stays open for a second request.
pub const KEEP_ALIVE: bool = false;

/// The status of every response that is written: success.
pub const STATUS_OK: u16 = 200;

/// The body of every response that is written.
pub open spec fn greeting() -> Seq<char> {
    "Hello World!"@
}

/// How a connection ends.
#[derive(Debug, PartialEq, Eq)]
pub enum Disposition {
    /// The status and the body are written, then the connection is closed.
    Respond { status: u16, body: String },
    /// The connection is closed with nothing written. The reason is for the
    /// log only: the client sees a dropped connection.
    Close { reason: EigenError },
}

impl Disposition {
    /// The body that the client receives, if it receives one.
    pub open spec fn written(&self) -> Option<Seq<char>> {
        match self {
            Disposition::Respond { body, .. } => Some(body@),
            Disposition::Close { .. } => None,
        }
    }

    /// The status that the client receives, if it receives one.
    pub open spec fn status(&self) -> Option<u16> {
        match self {
            Disposition::Respond { status, .. } => Some(*status),
            Disposition::Close { .. } => None,
        }
    }

    /// The failure that closed the connection early, if one did.
    pub open spec fn failure(&self) -> Option<EigenError> {
        match self {
            Disposition::Respond { .. } => None,
            Disposition::Close { reason } => Some(*reason),
        }
    }
}

/// The body that the client receives for a request with the given outcome.
pub open spec fn written_for<T>(outcome: Result<T, EigenError>) -> Option<Seq<char>> {
    match outcome {
        Ok(_) => Some(greeting()),
        Err(_) => None,
    }
}

/// The status that the client receives for a request with the given outcome.
pub open spec fn status_for<T>(outcome: Result<T, EigenError>) -> Option<u16> {
    match outcome {
        Ok(_) => Some(STATUS_OK),
        Err(_) => None,
    }
}

/// The failure that closes the connection early for the given outcome.
pub open spec fn failure_for<T>(outcome: Result<T, EigenError>) -> Option<EigenError> {
    match outcome {
        Ok(_) => None,
        Err(e) => Some(e),
    }
}

/// Decides how the connection ends, from the outcome of its request.
///
/// Every successful request gets the same status and body. No failure is
/// turned into a response: this is the one place where a failure becomes a
/// closed connection.
pub fn dispose<T>(outcome: &Result<T, EigenError>) -> (d: Disposition)
    ensures
        d.written() == written_for(*outcome),
        d.status() == status_for(*outcome),
        d.failure() == failure_for(*outcome),
{
    match outcome {
        Ok(_) => Disposition::Respond { status: STATUS_OK, body: String::from_str("Hello World!") },
        Err(e) => Disposition::Close { reason: *e },
    }
}

} // verus!
