//! The errors of the node and their messages.

use vstd::prelude::*;
use vstd::string::*;

verus! {

/// What can go wrong in the node. Each carries the text that its message
/// ends with.
#[derive(Debug)]
pub enum ServiceError {
    /// The store failed.
    InternalError(String),
    /// No record matches the query.
    RecordNotFound(String),
    /// A record that must not exist yet is already there.
    RecordFound(String),
    /// The signature does not match, or cannot be read.
    InvalidSignature(String),
    /// The public key fits no signature scheme.
    InvalidEncryption(String),
    /// The method is none of the four known ones.
    InvalidMethod(String),
    /// The caller does not own the record.
    InvalidOwner(String),
    /// The scheme tag names no supported scheme.
    NotSupportedEncryptionType(String),
    /// No scheme tag was given.
    NoEncryptionType(),
    /// The payload does not fit the method.
    InvalidDataFormatForMethodType(String),
    /// No meta-contract identifier was given.
    NoProgramId(),
}

/// An error of the node, as plain values.
pub enum ServiceErrorView {
    InternalError(Seq<char>),
    RecordNotFound(Seq<char>),
    RecordFound(Seq<char>),
    InvalidSignature(Seq<char>),
    InvalidEncryption(Seq<char>),
    InvalidMethod(Seq<char>),
    InvalidOwner(Seq<char>),
    NotSupportedEncryptionType(Seq<char>),
    NoEncryptionType,
    InvalidDataFormatForMethodType(Seq<char>),
    NoProgramId,
}

impl View for ServiceError {
    type V = ServiceErrorView;

    open spec fn view(&self) -> ServiceErrorView {
        match self {
            ServiceError::InternalError(s) => ServiceErrorView::InternalError(s@),
            ServiceError::RecordNotFound(s) => ServiceErrorView::RecordNotFound(s@),
            ServiceError::RecordFound(s) => ServiceErrorView::RecordFound(s@),
            ServiceError::InvalidSignature(s) => ServiceErrorView::InvalidSignature(s@),
            ServiceError::InvalidEncryption(s) => ServiceErrorView::InvalidEncryption(s@),
            ServiceError::InvalidMethod(s) => ServiceErrorView::InvalidMethod(s@),
            ServiceError::InvalidOwner(s) => ServiceErrorView::InvalidOwner(s@),
            ServiceError::NotSupportedEncryptionType(s) => ServiceErrorView::NotSupportedEncryptionType(s@),
            ServiceError::NoEncryptionType() => ServiceErrorView::NoEncryptionType,
            ServiceError::InvalidDataFormatForMethodType(s) => ServiceErrorView::InvalidDataFormatForMethodType(s@),
            ServiceError::NoProgramId() => ServiceErrorView::NoProgramId,
        }
    }
}

impl ServiceErrorView {
    /// The message of the error.
    pub open spec fn text(self) -> Seq<char> {
        match self {
            ServiceErrorView::InternalError(s) => "Internal error: "@ + s,
            ServiceErrorView::RecordNotFound(s) => "Record not found: "@ + s,
            ServiceErrorView::RecordFound(s) => "Record found: "@ + s,
            ServiceErrorView::InvalidSignature(s) => "Invalid signature: "@ + s,
            ServiceErrorView::InvalidEncryption(s) => "Invalid encryption key: "@ + s,
            ServiceErrorView::InvalidMethod(s) => "Invalid method: "@ + s,
            ServiceErrorView::InvalidOwner(s) => "Invalid owner: "@ + s,
            ServiceErrorView::NotSupportedEncryptionType(s) => "Not supported encryption: "@ + s,
            ServiceErrorView::InvalidDataFormatForMethodType(s) => "Invalid data format: "@ + s,
            ServiceErrorView::NoEncryptionType => "Does not specify encryption"@,
            ServiceErrorView::NoProgramId => "No Meta Contract ID specify"@,
        }
    }

    /// The error of a query that matched no record.
    pub open spec fn not_found() -> ServiceErrorView {
        ServiceErrorView::RecordNotFound("No record found"@)
    }
}

impl Clone for ServiceError {
    fn clone(&self) -> (r: Self)
        ensures
            r == *self,
    {
        match self {
            ServiceError::InternalError(s) => ServiceError::InternalError(s.clone()),
            ServiceError::RecordNotFound(s) => ServiceError::RecordNotFound(s.clone()),
            ServiceError::RecordFound(s) => ServiceError::RecordFound(s.clone()),
            ServiceError::InvalidSignature(s) => ServiceError::InvalidSignature(s.clone()),
            ServiceError::InvalidEncryption(s) => ServiceError::InvalidEncryption(s.clone()),
            ServiceError::InvalidMethod(s) => ServiceError::InvalidMethod(s.clone()),
            ServiceError::InvalidOwner(s) => ServiceError::InvalidOwner(s.clone()),
            ServiceError::NotSupportedEncryptionType(s) => ServiceError::NotSupportedEncryptionType(
                s.clone(),
            ),
            ServiceError::NoEncryptionType() => ServiceError::NoEncryptionType(),
            ServiceError::InvalidDataFormatForMethodType(s) => ServiceError::InvalidDataFormatForMethodType(
                s.clone(),
            ),
            ServiceError::NoProgramId() => ServiceError::NoProgramId(),
        }
    }
}

impl ServiceError {
    /// The message of the error.
    pub open spec fn text(&self) -> Seq<char> {
        self@.text()
    }

    /// The message of the error.
    pub fn to_string(&self) -> (message: String)
        ensures
            message@ == self.text(),
    {
        match self {
            ServiceError::InternalError(s) => String::from_str("Internal error: ").concat(s.as_str()),
            ServiceError::RecordNotFound(s) => String::from_str("Record not found: ").concat(
                s.as_str(),
            ),
            ServiceError::RecordFound(s) => String::from_str("Record found: ").concat(s.as_str()),
            ServiceError::InvalidSignature(s) => String::from_str("Invalid signature: ").concat(
                s.as_str(),
            ),
            ServiceError::InvalidEncryption(s) => String::from_str("Invalid encryption key: ").concat(
                s.as_str(),
            ),
            ServiceError::InvalidMethod(s) => String::from_str("Invalid method: ").concat(s.as_str()),
            ServiceError::InvalidOwner(s) => String::from_str("Invalid owner: ").concat(s.as_str()),
            ServiceError::NotSupportedEncryptionType(s) => String::from_str(
                "Not supported encryption: ",
            ).concat(s.as_str()),
            ServiceError::NoEncryptionType() => String::from_str("Does not specify encryption"),
            ServiceError::InvalidDataFormatForMethodType(s) => String::from_str(
                "Invalid data format: ",
            ).concat(s.as_str()),
            ServiceError::NoProgramId() => String::from_str("No Meta Contract ID specify"),
        }
    }

    /// The error of a query that matched no record.
    pub fn not_found() -> (e: ServiceError)
        ensures
            e matches ServiceError::RecordNotFound(s) && s@ == "No record found"@,
            e@ == ServiceErrorView::not_found(),
    {
        ServiceError::RecordNotFound(String::from_str("No record found"))
    }
}

} // verus!
