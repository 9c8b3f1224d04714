//! Results of retrieval.

use vstd::prelude::*;
use vstd::string::*;
use crate::types::retrieval::FdbRetrieval;

verus! {

/// The outcome of fetching one datum.
#[derive(Debug)]
pub struct FdbGetResult {
    pub success: bool,
    pub error: String,
    pub data: String,
}

impl FdbGetResult {
    /// The record of an outcome: the datum on success, the message and an
    /// empty datum on failure.
    pub fn from(result: Result<String, String>) -> (r: Self)
        ensures
            match result {
                Ok(data) => r.success && r.error@.len() == 0 && r.data == data,
                Err(err) => !r.success && r.error == err && r.data@.len() == 0,
            },
    {
        match result {
            Ok(data) => Self { success: true, error: String::new(), data },
            Err(err) => Self { success: false, error: err, data: String::new() },
        }
    }
}

/// The outcome of fetching several data.
pub struct FdbGetResults {
    pub success: bool,
    pub error: String,
    pub datas: Vec<FdbRetrieval>,
}

impl FdbGetResults {
    /// The record of an outcome: the data on success, the message and no
    /// data on failure.
    pub fn from(result: Result<Vec<FdbRetrieval>, String>) -> (r: Self)
        ensures
            match result {
                Ok(datas) => r.success && r.error@.len() == 0 && r.datas == datas,
                Err(err) => !r.success && r.error == err && r.datas@.len() == 0,
            },
    {
        match result {
            Ok(datas) => Self { success: true, error: String::new(), datas },
            Err(err) => Self { success: false, error: err, datas: Vec::new() },
        }
    }
}

} // verus!
