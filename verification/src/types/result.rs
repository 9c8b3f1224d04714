//! The plain result: a success flag and an error message.

use vstd::prelude::*;
use vstd::string::*;

verus! {

/// The relational store's error.
#[verifier::external_type_specification]
#[verifier::external_body]
pub struct ExSqliteError(marine_sqlite_connector::Error);

/// The outcome of an operation without a payload.
pub struct FdbResult {
    pub success: bool,
    pub err_msg: String,
}

/// Calls `to_string` of `marine_sqlite_connector::Error`. Trusted for
/// nothing: the message is whatever the store's error prints.
#[verifier::external_body]
fn error_text(e: &marine_sqlite_connector::Error) -> String {
    e.to_string()
}

impl FdbResult {
    /// The record of a store operation: success with an empty message, or
    /// failure with the message of the store's error.
    pub fn from_res(res: Result<(), marine_sqlite_connector::Error>) -> (r: FdbResult)
        ensures
            r.success == res.is_ok(),
            res.is_ok() ==> r.err_msg@.len() == 0,
    {
        match res {
            Ok(_v) => FdbResult { success: true, err_msg: String::new() },
            Err(e) => FdbResult { success: false, err_msg: error_text(&e) },
        }
    }

    /// The record of a failure with the message `e`.
    pub fn from_err_str(e: &str) -> (r: FdbResult)
        ensures
            !r.success,
            r.err_msg@ == e@,
    {
        FdbResult { success: false, err_msg: String::from_str(e) }
    }
}

} // verus!
