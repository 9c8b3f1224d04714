//! A block as it is handed out: with the key and the owner it was found under.

use vstd::prelude::*;
use crate::ipfsdag::block::Block;

verus! {

/// A stored block with the data key, the owner and the identifier that
/// lead to it.
#[derive(Debug)]
pub struct FdbRetrieval {
    pub key: String,
    pub public_key: String,
    pub cid: String,
    pub block: Block,
}

} // verus!
