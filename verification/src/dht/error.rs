//! The errors of the key table and their messages.

use vstd::prelude::*;
use vstd::string::*;

verus! {

/// What can go wrong in the key table. Each carries the text that its
/// message ends with.
#[derive(Debug)]
pub enum ServiceError {
    /// The store failed.
    InternalError(String),
    /// No record matches the query.
    RecordNotFound(String),
    /// The signature does not match, or cannot be read.
    InvalidSignature(String),
    /// The method is neither of the two known ones.
    InvalidMethod(String),
    /// The caller does not own the record.
    InvalidOwner(String),
    /// The scheme tag names no supported scheme.
    NotSupportedEncryptionType(String),
    /// No scheme tag was given.
    NoEncryptionType(),
}

impl ServiceError {
    /// The message of the error.
    pub open spec fn text(&self) -> Seq<char> {
        match self {
            ServiceError::InternalError(s) => "Internal error: "@ + s@,
            ServiceError::RecordNotFound(s) => "Record not found: "@ + s@,
            ServiceError::InvalidSignature(s) => "Invalid signature: "@ + s@,
            ServiceError::InvalidMethod(s) => "Invalid method: "@ + s@,
            ServiceError::InvalidOwner(s) => "Invalid owner: "@ + s@,
            ServiceError::NotSupportedEncryptionType(s) => "Not supported encryption: "@ + s@,
            ServiceError::NoEncryptionType() => "Does not specify encryption"@,
        }
    }

    /// The message of the error.
    pub fn to_string(&self) -> (message: String)
        ensures
            message@ == self.text(),
    {
        match self {
            ServiceError::InternalError(s) => String::from_str("Internal error: ").concat(s.as_str()),
            ServiceError::RecordNotFound(s) => String::from_str("Record not found: ").concat(
                s.as_str(),
            ),
            ServiceError::InvalidSignature(s) => String::from_str("Invalid signature: ").concat(
                s.as_str(),
            ),
            ServiceError::InvalidMethod(s) => String::from_str("Invalid method: ").concat(s.as_str()),
            ServiceError::InvalidOwner(s) => String::from_str("Invalid owner: ").concat(s.as_str()),
            ServiceError::NotSupportedEncryptionType(s) => String::from_str(
                "Not supported encryption: ",
            ).concat(s.as_str()),
            ServiceError::NoEncryptionType() => String::from_str("Does not specify encryption"),
        }
    }
}

} // verus!
