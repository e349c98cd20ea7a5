//! The failure kinds shared by every part of the service.

use vstd::prelude::*;
use vstd::string::StringExecFns;

verus! {

/// Why the service could not go on, or could not answer a request.
///
/// A kind carries nothing beyond its tag.
#[derive(Debug, Clone, Copy, PartialEq, Eq, Structural)]
pub enum EigenError {
    /// Accepting a new connection failed.
    ConnectionError,
    /// The listening socket could not be bound.
    ListenError,
    /// The request body could not be read to its end.
    AggregateError,
    /// The request body is not a signature record.
    ParseError,
    /// The query string of a score request is missing or malformed.
    InvalidQuery,
    /// No endpoint answers to the request's method and path.
    InvalidRequest,
}

impl EigenError {
    /// The kind's name, as it is written in diagnostics.
    pub open spec fn name(self) -> Seq<char> {
        match self {
            EigenError::ConnectionError => "ConnectionError"@,
            EigenError::ListenError => "ListenError"@,
            EigenError::AggregateError => "AggregateError"@,
            EigenError::ParseError => "ParseError"@,
            EigenError::InvalidQuery => "InvalidQuery"@,
            EigenError::InvalidRequest => "InvalidRequest"@,
        }
    }

    /// Whether the kind ends the whole service rather than one request.
    pub open spec fn fatal(self) -> bool {
        self == EigenError::ListenError || self == EigenError::ConnectionError
    }

    /// Tells the kinds that end the service from those that end one request.
    pub fn is_fatal(&self) -> (r: bool)
        ensures
            r == self.fatal(),
    {
        match self {
            EigenError::ListenError => true,
            EigenError::ConnectionError => true,
            _ => false,
        }
    }

    /// Writes the kind out by its name.
    pub fn to_string(&self) -> (r: String)
        ensures
            r@ == self.name(),
    {
        match self {
            EigenError::ConnectionError => String::from_str("ConnectionError"),
            EigenError::ListenError => String::from_str("ListenError"),
            EigenError::AggregateError => String::from_str("AggregateError"),
            EigenError::ParseError => String::from_str("ParseError"),
            EigenError::InvalidQuery => String::from_str("InvalidQuery"),
            EigenError::InvalidRequest => String::from_str("InvalidRequest"),
        }
    }
}

} // verus!
