//! Results of the content store.

use vstd::prelude::*;
use vstd::string::*;

verus! {

/// The outcome of storing a block: its content identifier on success.
#[derive(Debug)]
pub struct IpfsDagPutResult {
    pub success: bool,
    pub error: String,
    pub cid: String,
}

impl IpfsDagPutResult {
    /// The record of an outcome: the identifier on success, the message
    /// and an empty identifier on failure.
    pub fn from(result: Result<String, String>) -> (r: Self)
        ensures
            match result {
                Ok(cid) => r.success && r.error@.len() == 0 && r.cid == cid,
                Err(err) => !r.success && r.error == err && r.cid@.len() == 0,
            },
    {
        match result {
            Ok(cid) => Self { success: true, error: String::new(), cid },
            Err(err) => Self { success: false, error: err, cid: String::new() },
        }
    }
}

/// The outcome of fetching a block: its JSON text on success.
#[derive(Debug)]
pub struct IpfsDagGetResult {
    pub success: bool,
    pub error: String,
    pub block: String,
}

impl IpfsDagGetResult {
    /// The record of an outcome: the block on success, the message and an
    /// empty block on failure.
    pub fn from(result: Result<String, String>) -> (r: Self)
        ensures
            match result {
                Ok(block) => r.success && r.error@.len() == 0 && r.block == block,
                Err(err) => !r.success && r.error == err && r.block@.len() == 0,
            },
    {
        match result {
            Ok(block) => Self { success: true, error: String::new(), block },
            Err(err) => Self { success: false, error: err, block: String::new() },
        }
    }
}

} // verus!
