//! The record that a signature request submits.

use crate::error::EigenError;
use vstd::prelude::*;

verus! {

/// A public key and a signature over it, split into its components.
///
/// Each component is one byte, so a record always holds four values in the
/// range of a byte: there is no partial record.
#[derive(Debug, Clone, Copy, PartialEq, Eq, Structural)]
pub struct SignatureData {
    pub pubkey: u8,
    pub sig_r_x: u8,
    pub sig_r_y: u8,
    pub sig_s: u8,
}

/// What came of reading the body of a signature request and decoding it.
#[derive(Debug, Clone, Copy, PartialEq, Eq, Structural)]
pub enum Submission {
    /// The transport failed before the body was read to its end.
    Unreadable,
    /// The body was read but is not a record: it is not JSON, a field is
    /// missing, or a field is not a byte.
    Undecodable,
    /// The body was read and holds this record.
    Record(SignatureData),
}

/// The record that a submission hands over, or why there is none.
pub open spec fn submitted(submission: Submission) -> Result<SignatureData, EigenError> {
    match submission {
        Submission::Unreadable => Err(EigenError::AggregateError),
        Submission::Undecodable => Err(EigenError::ParseError),
        Submission::Record(data) => Ok(data),
    }
}

/// Takes the record out of a submission, or names the failure.
pub fn accept(submission: Submission) -> (r: Result<SignatureData, EigenError>)
    ensures
        r == submitted(submission),
{
    match submission {
        Submission::Unreadable => Err(EigenError::AggregateError),
        Submission::Undecodable => Err(EigenError::ParseError),
        Submission::Record(data) => Ok(data),
    }
}

} // verus!
