//! The content store: blocks kept under identifiers computed from their
//! content, each naming the block before it.

use vstd::prelude::*;
use vstd::string::*;
use crate::ipfsdag::block::block_json;
use crate::ipfsdag::store::{lookup, put_answer, put_error_text, with_put, Dag};
use crate::types::ipfs::{IpfsDagGetResult, IpfsDagPutResult};

pub mod block;
pub mod store;

verus! {

/// Makes a block from `content` and the transaction envelope, links it to
/// the block `previous_cid`, stores it in `dag` and answers its identifier.
pub fn put_block(
    dag: &mut Dag,
    content: String,
    previous_cid: String,
    transaction: String,
    timestamp: u64,
) -> (r: IpfsDagPutResult)
    requires
        old(dag).wf(),
    ensures
        final(dag).wf(),
        final(dag)@ == with_put(old(dag)@, content@, previous_cid@, transaction@, timestamp),
        match put_answer(old(dag)@, content@, previous_cid@, transaction@, timestamp) {
            Ok(cid) => r.success && r.error@.len() == 0 && r.cid@ == cid,
            Err(e) => !r.success && r.cid@.len() == 0 && r.error@ == put_error_text(e),
        },
{
    dag.put_block(content, previous_cid, transaction, timestamp)
}

/// Stores `content` in a block of `dag` that starts a chain and carries an
/// empty envelope, and answers its identifier.
pub fn put(dag: &mut Dag, content: String, timestamp: u64) -> (r: IpfsDagPutResult)
    requires
        old(dag).wf(),
    ensures
        final(dag).wf(),
        final(dag)@ == with_put(old(dag)@, content@, Seq::empty(), "{}"@, timestamp),
        match put_answer(old(dag)@, content@, Seq::empty(), "{}"@, timestamp) {
            Ok(cid) => r.success && r.error@.len() == 0 && r.cid@ == cid,
            Err(e) => !r.success && r.cid@.len() == 0 && r.error@ == put_error_text(e),
        },
{
    dag.put(content, timestamp)
}

/// Fetches the JSON text of the block that `dag` holds under `hash`.
pub fn get(dag: &Dag, hash: String) -> (r: IpfsDagGetResult)
    requires
        dag.wf(),
    ensures
        match lookup(dag@, hash@) {
            Some(block) => r.success && r.error@.len() == 0 && r.block@ == block_json(block),
            None => !r.success && r.block@.len() == 0 && r.error@ == "block not found"@,
        },
{
    dag.get(hash)
}

} // verus!
