//! Records of the key table and the results that carry them.

use vstd::prelude::*;
use vstd::string::*;

verus! {

/// One entry of the key table: who owns which content under which key.
#[derive(Debug, Default)]
pub struct FdbDht {
    pub public_key: String,
    pub alias: String,
    pub cid: String,
    pub data_key: String,
}

/// The outcome of fetching several entries.
pub struct DhtsGetResult {
    pub success: bool,
    pub error: String,
    pub datas: Vec<FdbDht>,
}

impl DhtsGetResult {
    /// The record of an outcome: the entries on success, the message and
    /// no entries on failure.
    pub fn from(result: Result<Vec<FdbDht>, String>) -> (r: Self)
        ensures
            match result {
                Ok(datas) => r.success && r.error@.len() == 0 && r.datas == datas,
                Err(err) => !r.success && r.error == err && r.datas@.len() == 0,
            },
    {
        match result {
            Ok(datas) => Self { success: true, error: String::new(), datas },
            Err(err) => Self { success: false, error: err, datas: Vec::new() },
        }
    }
}

/// The outcome of fetching one entry.
pub struct DhtGetResult {
    pub success: bool,
    pub error: String,
    pub data: FdbDht,
}

impl DhtGetResult {
    /// The record of an outcome: the entry on success, the message and an
    /// entry of empty fields on failure.
    pub fn from(result: Result<FdbDht, String>) -> (r: Self)
        ensures
            match result {
                Ok(data) => r.success && r.error@.len() == 0 && r.data == data,
                Err(err) => !r.success && r.error == err && r.data.public_key@.len() == 0
                    && r.data.alias@.len() == 0 && r.data.cid@.len() == 0 && r.data.data_key@.len()
                    == 0,
            },
    {
        match result {
            Ok(data) => Self { success: true, error: String::new(), data },
            Err(err) => Self {
                success: false,
                error: err,
                data: FdbDht {
                    public_key: String::new(),
                    alias: String::new(),
                    cid: String::new(),
                    data_key: String::new(),
                },
            },
        }
    }
}

} // verus!
