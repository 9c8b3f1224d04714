//! What holds of the node whatever is asked of it: submissions are
//! recorded once, owners are the only ones to change what they own,
//! chains grow by one block an update, clones start chains of their own,
//! and no rule is registered twice.

use vstd::prelude::*;
use vstd::string::*;
use crate::ipfsdag::block::{content_value_spec, serialize_spec, BlockView};
use crate::ipfsdag::store::{
    chain, cid_of, holds, law_chain_linked, lemma_put_extends, lemma_put_keeps, lemma_put_preserves,
    lookup, put_answer, put_outcome, well_formed, with_block, StoredBlockView,
};
use crate::json::json_compact_text;
use crate::node::cron::{rule_for, triple_key, Cron, CronKey, SerdeCron};
use crate::node::data_types::DataTypeClone;
use crate::node::defaults::{RECEIPT_STATUS_FAILED, STATUS_DONE};
use crate::node::error::ServiceErrorView;
use crate::node::meta_contract_impl::binding_of;
use crate::node::metadatas::{FinalMetadata, Metadata, MetadataView};
use crate::node::metadatas_impl::{slot, with_cid, MetadataKey, MetadataKeyView};
use crate::node::storage_impl::{
    first, first_index, lemma_first_after_change, lemma_first_after_push, lemma_first_index, Selector,
    StorageView,
};
use crate::node::transaction::{Transaction, TransactionRequest, TransactionView};
use crate::node::transaction::{TransactionReceipt};
use crate::node::transaction_receipt::{receipt_of, with_receipt, ReceiptKey, ReceiptKeyView};
use crate::node::transactions_impl::{transaction_of, with_status, TransactionKey, TransactionKeyView};
use crate::node::validators::{
    bind_error, bound, clone_applied, clone_created, clone_slot, cron_applied, cron_created, cron_error,
    answer_for, envelope_of, finalized, finished, forbidden, item_applied, item_created, item_slot,
    items_applied, meta_contract_failure, meta_contract_validated, origin_slot, pending, receipt_for, External,
    Progress,
};
use crate::node::{admissible, checked, precheck, published, submission_error, submitted, TransactionPayload};

verus! {

/// Submitting the same request a second time gives the same hash and
/// changes nothing: the transaction is recorded once.
pub proof fn law_idempotent_submission(
    s: StorageView,
    req: TransactionRequest,
    payload: TransactionPayload,
    first_time: u64,
    second_time: u64,
)
    requires
        s.wf(),
    ensures
        submitted(published(s, req, payload, first_time), req, payload, second_time).hash == submitted(
            s,
            req,
            payload,
            first_time,
        ).hash,
        published(published(s, req, payload, first_time), req, payload, second_time) == published(
            s,
            req,
            payload,
            first_time,
        ),
{
    let s1 = published(s, req, payload, first_time);
    let tx = submitted(s, req, payload, first_time);
    assert(s1.metadatas == s.metadatas && s1.meta_contracts == s.meta_contracts && s1.crons == s.crons);
    assert(precheck(s1, req, payload) == precheck(s, req, payload));
    assert(checked(s1, req, payload) == checked(s, req, payload));
    assert(submission_error(s1, req, payload) == submission_error(s, req, payload));
    if transaction_of(s.transactions, tx.hash) is None {
        lemma_first_after_push::<Transaction, TransactionKey>(
            s.transactions,
            TransactionKeyView::Hash(tx.hash),
            tx,
        );
    }
}

/// Every submission is recorded: after it, the store holds a transaction
/// under the hash that the submission answers. A submission that is
/// rejected when it is first recorded does not wait for a finalisation.
pub proof fn law_submission_is_recorded(
    s: StorageView,
    req: TransactionRequest,
    payload: TransactionPayload,
    timestamp: u64,
)
    requires
        s.wf(),
    ensures
        transaction_of(
            published(s, req, payload, timestamp).transactions,
            submitted(s, req, payload, timestamp).hash,
        ) is Some,
        submission_error(s, req, payload) is Some && transaction_of(
            s.transactions,
            submitted(s, req, payload, timestamp).hash,
        ) is None ==> pending(
            published(s, req, payload, timestamp),
            submitted(s, req, payload, timestamp).hash,
        ) is None,
{
    let tx = submitted(s, req, payload, timestamp);
    if transaction_of(s.transactions, tx.hash) is None {
        lemma_first_after_push::<Transaction, TransactionKey>(
            s.transactions,
            TransactionKeyView::Hash(tx.hash),
            tx,
        );
        assert(s.transactions.push(tx)[s.transactions.len() as int] == tx);
    }
}

/// A rule is changed by its owner only: a cron transaction of another
/// key has the error of an invalid owner and leaves the store as it was.
pub proof fn law_rule_ownership(s: StorageView, tx: TransactionView, payload: SerdeCron)
    requires
        rule_for(s.crons, payload.address@, payload.chain@, payload.topic@) is Some,
        rule_for(s.crons, payload.address@, payload.chain@, payload.topic@)->0.public_key != tx.public_key,
    ensures
        cron_error(s, tx, Some(payload)) == Some(ServiceErrorView::InvalidOwner(tx.public_key).text()),
        cron_applied(s, tx, Some(payload)) == s,
{
}

/// A binding is changed by its owner only: the finalisation of a contract
/// transaction of another key fails with the error of an invalid owner
/// and leaves every binding as it was.
pub proof fn law_binding_ownership(s: StorageView, hash: Seq<char>, timestamp: u64)
    requires
        s.wf(),
        pending(s, hash) is Some,
        pending(s, hash)->0.method == "contract"@,
        binding_of(s.meta_contracts, pending(s, hash)->0.token_key) is Some,
        binding_of(s.meta_contracts, pending(s, hash)->0.token_key)->0.public_key != pending(
            s,
            hash,
        )->0.public_key,
    ensures
        meta_contract_validated(s, hash, timestamp).meta_contracts == s.meta_contracts,
        meta_contract_failure(s, hash) == Some(
            ServiceErrorView::InvalidOwner(pending(s, hash)->0.public_key).text(),
        ),
        answer_for(s, hash, meta_contract_failure(s, hash), timestamp) is Ok,
        answer_for(s, hash, meta_contract_failure(s, hash), timestamp)->Ok_0.status == RECEIPT_STATUS_FAILED,
        answer_for(s, hash, meta_contract_failure(s, hash), timestamp)->Ok_0.error_text
            == ServiceErrorView::InvalidOwner(pending(s, hash)->0.public_key).text(),
{
}

/// An item that names a slot which enforces its ownership, in a
/// transaction of another key, is rejected with the error of an invalid
/// owner, and neither store changes.
pub proof fn law_foreign_write_rejected(
    p: Progress,
    tx: TransactionView,
    envelope: Seq<char>,
    item: FinalMetadata,
    loose: i64,
    timestamp: u64,
)
    requires
        slot(p.storage.metadatas, item_slot(tx, item)) is Some,
        forbidden(slot(p.storage.metadatas, item_slot(tx, item))->0, tx),
    ensures
        item_applied(p, tx, envelope, item, loose, timestamp) == (Progress {
            error: Some(ServiceErrorView::InvalidOwner(tx.public_key).text()),
            ..p
        }),
{
}

/// Applying an item keeps the store valid and every slot in its place.
pub proof fn lemma_item_keeps(
    p: Progress,
    tx: TransactionView,
    envelope: Seq<char>,
    item: FinalMetadata,
    loose: i64,
    timestamp: u64,
)
    requires
        p.storage.wf(),
        well_formed(p.dag),
    ensures
        item_applied(p, tx, envelope, item, loose, timestamp).storage.wf(),
        well_formed(item_applied(p, tx, envelope, item, loose, timestamp).dag),
        item_applied(p, tx, envelope, item, loose, timestamp).storage.transactions == p.storage.transactions,
        item_applied(p, tx, envelope, item, loose, timestamp).storage.receipts == p.storage.receipts,
        item_applied(p, tx, envelope, item, loose, timestamp).storage.metadatas.len()
            >= p.storage.metadatas.len(),
        forall|k: int|
            0 <= k < p.storage.metadatas.len() && forbidden(#[trigger] p.storage.metadatas[k], tx)
                ==> item_applied(p, tx, envelope, item, loose, timestamp).storage.metadatas[k]
                == p.storage.metadatas[k],
{
    let key = item_slot(tx, item);
    let rows = p.storage.metadatas;
    let q = item_applied(p, tx, envelope, item, loose, timestamp);
    lemma_first_index::<Metadata, MetadataKey>(rows, key);
    match slot(rows, key) {
        Some(m) => {
            if !forbidden(m, tx) {
                match serialize_spec(item.content@, m.cid, envelope, timestamp) {
                    Some(block) => {
                        if put_outcome(p.dag, block) is Ok {
                            lemma_put_keeps(p.dag, block);
                            let after = q.storage.metadatas;
                            let i = first_index::<Metadata, MetadataKey>(rows, key)->0;
                            assert forall|a: int, b: int|
                                #![trigger after[a], after[b]]
                                0 <= a < b < after.len() implies !after[a].same_slot(after[b]) by {
                                assert(!rows[a].same_slot(rows[b]));
                            }
                            assert forall|k: int|
                                0 <= k < rows.len() && forbidden(
                                    #[trigger] rows[k],
                                    tx,
                                ) implies after[k] == rows[k] by {
                                if MetadataKey::selects(key, rows[k]) {
                                    if k < i {
                                        assert(!rows[k].same_slot(rows[i]));
                                    } else if k > i {
                                        assert(!rows[i].same_slot(rows[k]));
                                    }
                                }
                            }
                        }
                    },
                    None => {},
                }
            }
        },
        None => {
            match serialize_spec(item.content@, Seq::empty(), envelope, timestamp) {
                Some(block) => {
                    if put_outcome(p.dag, block) is Ok {
                        lemma_put_keeps(p.dag, block);
                        let after = q.storage.metadatas;
                        assert forall|a: int, b: int|
                            #![trigger after[a], after[b]]
                            0 <= a < b < after.len() implies !after[a].same_slot(after[b]) by {
                            if b < rows.len() {
                                assert(!rows[a].same_slot(rows[b]));
                            } else {
                                assert(!MetadataKey::selects(key, rows[a]));
                            }
                        }
                    }
                },
                None => {},
            }
        },
    }
}

/// Applying items keeps the stores valid.
pub proof fn lemma_items_keep(
    p: Progress,
    tx: TransactionView,
    envelope: Seq<char>,
    items: Seq<FinalMetadata>,
    loose: i64,
    timestamp: u64,
)
    requires
        p.storage.wf(),
        well_formed(p.dag),
    ensures
        items_applied(p, tx, envelope, items, loose, timestamp).storage.wf(),
        well_formed(items_applied(p, tx, envelope, items, loose, timestamp).dag),
        items_applied(p, tx, envelope, items, loose, timestamp).storage.transactions == p.storage.transactions,
        items_applied(p, tx, envelope, items, loose, timestamp).storage.receipts == p.storage.receipts,
        items_applied(p, tx, envelope, items, loose, timestamp).storage.metadatas.len()
            >= p.storage.metadatas.len(),
        forall|k: int|
            0 <= k < p.storage.metadatas.len() && forbidden(#[trigger] p.storage.metadatas[k], tx)
                ==> items_applied(p, tx, envelope, items, loose, timestamp).storage.metadatas[k]
                == p.storage.metadatas[k],
    decreases items.len(),
{
    if items.len() > 0 {
        let q = items_applied(p, tx, envelope, items.drop_last(), loose, timestamp);
        lemma_items_keep(p, tx, envelope, items.drop_last(), loose, timestamp);
        lemma_item_keeps(q, tx, envelope, items.last(), loose, timestamp);
        let r = item_applied(q, tx, envelope, items.last(), loose, timestamp);
        assert forall|k: int|
            0 <= k < p.storage.metadatas.len() && forbidden(
                #[trigger] p.storage.metadatas[k],
                tx,
            ) implies r.storage.metadatas[k] == p.storage.metadatas[k] by {
            assert(q.storage.metadatas[k] == p.storage.metadatas[k]);
            assert(forbidden(q.storage.metadatas[k], tx));
        }
    }
}

/// Whatever items a transaction brings, it never changes a slot that
/// enforces its ownership and is owned by another key: the slot keeps
/// its content identifier and everything else.
pub proof fn law_slot_ownership(
    p: Progress,
    tx: TransactionView,
    envelope: Seq<char>,
    items: Seq<FinalMetadata>,
    loose: i64,
    timestamp: u64,
    k: int,
)
    requires
        p.storage.wf(),
        well_formed(p.dag),
        0 <= k < p.storage.metadatas.len(),
        forbidden(p.storage.metadatas[k], tx),
    ensures
        k < items_applied(p, tx, envelope, items, loose, timestamp).storage.metadatas.len(),
        items_applied(p, tx, envelope, items, loose, timestamp).storage.metadatas[k]
            == p.storage.metadatas[k],
{
    lemma_items_keep(p, tx, envelope, items, loose, timestamp);
}

/// The chain of the slot `key`: the blocks from the content it points
/// to, newest first; empty where there is no such slot.
pub open spec fn chain_of(p: Progress, key: MetadataKeyView) -> Seq<BlockView> {
    match slot(p.storage.metadatas, key) {
        Some(m) => chain(p.dag, m.cid),
        None => Seq::empty(),
    }
}

/// The content that the slot `key` points to; empty where there is no
/// such slot.
pub open spec fn pointer_of(p: Progress, key: MetadataKeyView) -> Seq<char> {
    match slot(p.storage.metadatas, key) {
        Some(m) => m.cid,
        None => Seq::empty(),
    }
}

/// The block that an item writes: its content, linked to the content
/// that its slot points to.
pub open spec fn item_block(
    p: Progress,
    tx: TransactionView,
    envelope: Seq<char>,
    item: FinalMetadata,
    timestamp: u64,
) -> Option<BlockView> {
    serialize_spec(item.content@, pointer_of(p, item_slot(tx, item)), envelope, timestamp)
}

/// Whether an item is applied with success: its transaction may write to
/// the slot, and the content store accepts the block.
pub open spec fn item_succeeds(
    p: Progress,
    tx: TransactionView,
    envelope: Seq<char>,
    item: FinalMetadata,
    timestamp: u64,
) -> bool {
    &&& slot(p.storage.metadatas, item_slot(tx, item)) is Some ==> !forbidden(
        slot(p.storage.metadatas, item_slot(tx, item))->0,
        tx,
    )
    &&& put_answer(p.dag, item.content@, pointer_of(p, item_slot(tx, item)), envelope, timestamp) is Ok
}

/// An update that succeeds puts one block in front of the chain of its
/// slot: the slot points to the new block, and the new block names the
/// content that the slot pointed to.
pub proof fn law_update_extends_chain(
    p: Progress,
    tx: TransactionView,
    envelope: Seq<char>,
    item: FinalMetadata,
    loose: i64,
    timestamp: u64,
)
    requires
        p.storage.wf(),
        well_formed(p.dag),
        item_succeeds(p, tx, envelope, item, timestamp),
    ensures
        item_block(p, tx, envelope, item, timestamp) is Some,
        item_block(p, tx, envelope, item, timestamp)->0.previous == pointer_of(p, item_slot(tx, item)),
        chain_of(item_applied(p, tx, envelope, item, loose, timestamp), item_slot(tx, item)) == seq![
            item_block(p, tx, envelope, item, timestamp)->0,
        ] + chain_of(p, item_slot(tx, item)),
        item_applied(p, tx, envelope, item, loose, timestamp).error == p.error,
{
    let key = item_slot(tx, item);
    let rows = p.storage.metadatas;
    let q = item_applied(p, tx, envelope, item, loose, timestamp);
    let block = item_block(p, tx, envelope, item, timestamp)->0;
    let cid = cid_of(block);
    lemma_first_index::<Metadata, MetadataKey>(rows, key);
    lemma_put_extends(p.dag, block);
    assert(q.dag == with_block(p.dag, block));
    match slot(rows, key) {
        Some(m) => {
            let change = |x: MetadataView| with_cid(x, key, cid);
            lemma_first_after_change::<Metadata, MetadataKey>(rows, key, change);
            let i = first_index::<Metadata, MetadataKey>(rows, key)->0;
            assert(q.storage.metadatas == rows.map_values(change));
            assert(q.storage.metadatas[i] == with_cid(rows[i], key, cid));
            assert(slot(q.storage.metadatas, key)->0.cid == cid);
        },
        None => {
            let created = item_created(tx, item, cid, loose);
            lemma_first_after_push::<Metadata, MetadataKey>(rows, key, created);
            assert(q.storage.metadatas == rows.push(created));
            assert(q.storage.metadatas[rows.len() as int] == created);
            assert(chain(p.dag, Seq::<char>::empty()) =~= Seq::<BlockView>::empty());
        },
    }
}

/// One update of a slot: an item, the transaction that brings it, and
/// when it is applied.
pub struct Update {
    pub tx: TransactionView,
    pub envelope: Seq<char>,
    pub item: FinalMetadata,
    pub loose: i64,
    pub timestamp: u64,
}

/// The stores after the updates were applied, one after the other.
pub open spec fn updated(p: Progress, updates: Seq<Update>) -> Progress
    decreases updates.len(),
{
    if updates.len() == 0 {
        p
    } else {
        let u = updates.last();
        item_applied(updated(p, updates.drop_last()), u.tx, u.envelope, u.item, u.loose, u.timestamp)
    }
}

/// Whether every update succeeds when they are applied one after the other.
pub open spec fn all_succeed(p: Progress, updates: Seq<Update>) -> bool
    decreases updates.len(),
{
    if updates.len() == 0 {
        true
    } else {
        let u = updates.last();
        all_succeed(p, updates.drop_last()) && item_succeeds(
            updated(p, updates.drop_last()),
            u.tx,
            u.envelope,
            u.item,
            u.timestamp,
        )
    }
}

/// The content of the block that holds `content`.
pub open spec fn stored_content(content: Seq<char>) -> Seq<char> {
    content_value_spec(json_compact_text(content), content)
}

/// Updates of one slot that succeed put their blocks in front of its
/// chain, the latest first.
pub proof fn lemma_updates_extend_chain(p: Progress, key: MetadataKeyView, updates: Seq<Update>)
    requires
        p.storage.wf(),
        well_formed(p.dag),
        forall|i: int| 0 <= i < updates.len() ==> item_slot((#[trigger] updates[i]).tx, updates[i].item) == key,
        all_succeed(p, updates),
    ensures
        updated(p, updates).storage.wf(),
        well_formed(updated(p, updates).dag),
        chain_of(updated(p, updates), key).len() == updates.len() + chain_of(p, key).len(),
        chain_of(updated(p, updates), key).subrange(
            updates.len() as int,
            chain_of(updated(p, updates), key).len() as int,
        ) == chain_of(p, key),
        forall|j: int|
            0 <= j < updates.len() ==> (#[trigger] chain_of(updated(p, updates), key)[j]).content
                == stored_content(updates[updates.len() - 1 - j].item.content@),
    decreases updates.len(),
{
    if updates.len() == 0 {
        assert(chain_of(p, key).subrange(0, chain_of(p, key).len() as int) =~= chain_of(p, key));
    } else {
        let front = updates.drop_last();
        let u = updates.last();
        let q = updated(p, front);
        assert forall|i: int| 0 <= i < front.len() implies item_slot((#[trigger] front[i]).tx, front[i].item)
            == key by {
            assert(front[i] == updates[i]);
        }
        lemma_updates_extend_chain(p, key, front);
        lemma_item_keeps(q, u.tx, u.envelope, u.item, u.loose, u.timestamp);
        assert(item_slot(updates[updates.len() - 1].tx, updates[updates.len() - 1].item) == key);
        law_update_extends_chain(q, u.tx, u.envelope, u.item, u.loose, u.timestamp);
        let before = chain_of(q, key);
        let after = chain_of(updated(p, updates), key);
        let block = item_block(q, u.tx, u.envelope, u.item, u.timestamp)->0;
        assert(after == seq![block] + before);
        assert(after.subrange(updates.len() as int, after.len() as int) =~= before.subrange(
            front.len() as int,
            before.len() as int,
        ));
        assert forall|j: int| 0 <= j < updates.len() implies (#[trigger] after[j]).content
            == stored_content(updates[updates.len() - 1 - j].item.content@) by {
            if j > 0 {
                assert(after[j] == before[j - 1]);
                assert(front[front.len() - 1 - (j - 1)] == updates[updates.len() - 1 - j]);
            }
        }
    }
}

/// After N updates of a slot that did not exist, each a success, the
/// chain of the slot has exactly N blocks, the newest first; every block
/// but the last names the block after it, and the last names none: the
/// oldest block is N - 1 hops from the newest.
pub proof fn law_chain_integrity(p: Progress, key: MetadataKeyView, updates: Seq<Update>)
    requires
        p.storage.wf(),
        well_formed(p.dag),
        slot(p.storage.metadatas, key) is None,
        updates.len() > 0,
        forall|i: int| 0 <= i < updates.len() ==> item_slot((#[trigger] updates[i]).tx, updates[i].item) == key,
        all_succeed(p, updates),
    ensures
        slot(updated(p, updates).storage.metadatas, key) is Some,
        chain_of(updated(p, updates), key).len() == updates.len(),
        forall|j: int|
            0 <= j < updates.len() ==> (#[trigger] chain_of(updated(p, updates), key)[j]).content
                == stored_content(updates[updates.len() - 1 - j].item.content@),
        forall|j: int|
            0 <= j < updates.len() - 1 ==> (#[trigger] chain_of(updated(p, updates), key)[j]).previous.len()
                > 0 && lookup(updated(p, updates).dag, chain_of(updated(p, updates), key)[j].previous)
                == Some(chain_of(updated(p, updates), key)[j + 1]),
        chain_of(updated(p, updates), key).last().previous.len() == 0,
{
    lemma_updates_extend_chain(p, key, updates);
    let q = updated(p, updates);
    assert(chain_of(p, key).len() == 0);
    assert(slot(q.storage.metadatas, key) is Some);
    law_chain_linked(q.dag, slot(q.storage.metadatas, key)->0.cid);
}

/// Whether a clone is applied with success: the payload names an origin
/// that exists and has a block, the new slot does not exist yet, and the
/// content store accepts the copy.
pub open spec fn clone_succeeds(
    p: Progress,
    tx: TransactionView,
    meta_contract_id: Seq<char>,
    payload: Option<DataTypeClone>,
    timestamp: u64,
) -> bool {
    &&& payload is Some
    &&& slot(p.storage.metadatas, origin_slot(payload->0)) is Some
    &&& slot(
        p.storage.metadatas,
        clone_slot(tx, slot(p.storage.metadatas, origin_slot(payload->0))->0),
    ) is None
    &&& lookup(p.dag, slot(p.storage.metadatas, origin_slot(payload->0))->0.cid) is Some
    &&& put_answer(
        p.dag,
        lookup(p.dag, slot(p.storage.metadatas, origin_slot(payload->0))->0.cid)->0.content,
        Seq::empty(),
        envelope_of(tx, meta_contract_id, payload->0.json()),
        timestamp,
    ) is Ok
}

/// A clone starts a chain of its own: whatever the depth of the origin's
/// chain, the chain of the new slot has one block, which holds the
/// content of the origin's newest block and names no block before it.
/// The new slot belongs to the public key of the clone transaction, and
/// the origin keeps its slot and its chain.
pub proof fn law_clone_independence(
    p: Progress,
    tx: TransactionView,
    meta_contract_id: Seq<char>,
    payload: Option<DataTypeClone>,
    timestamp: u64,
)
    requires
        p.storage.wf(),
        well_formed(p.dag),
        clone_succeeds(p, tx, meta_contract_id, payload, timestamp),
    ensures
        ({
            let q = clone_applied(p, tx, meta_contract_id, payload, timestamp);
            let from = slot(p.storage.metadatas, origin_slot(payload->0))->0;
            let copy = chain_of(q, clone_slot(tx, from));
            &&& q.error == p.error
            &&& slot(q.storage.metadatas, clone_slot(tx, from)) is Some
            &&& slot(q.storage.metadatas, clone_slot(tx, from))->0.public_key == tx.public_key
            &&& copy.len() == 1
            &&& copy[0].previous.len() == 0
            &&& copy[0].content == stored_content(chain_of(p, origin_slot(payload->0))[0].content)
            &&& slot(q.storage.metadatas, origin_slot(payload->0)) == Some(from)
            &&& chain_of(q, origin_slot(payload->0)) == chain_of(p, origin_slot(payload->0))
        }),
{
    let origin = payload->0;
    let rows = p.storage.metadatas;
    let from = slot(rows, origin_slot(origin))->0;
    let source = lookup(p.dag, from.cid)->0;
    let envelope = envelope_of(tx, meta_contract_id, origin.json());
    let block = serialize_spec(source.content, Seq::empty(), envelope, timestamp)->0;
    let cid = cid_of(block);
    let created = clone_created(tx, from, cid);
    let q = clone_applied(p, tx, meta_contract_id, payload, timestamp);
    assert(q.storage.metadatas == rows.push(created));
    assert(q.dag == with_block(p.dag, block));
    lemma_first_index::<Metadata, MetadataKey>(rows, origin_slot(origin));
    lemma_first_after_push::<Metadata, MetadataKey>(rows, clone_slot(tx, from), created);
    lemma_first_after_push::<Metadata, MetadataKey>(rows, origin_slot(origin), created);
    assert(q.storage.metadatas[rows.len() as int] == created);
    lemma_put_extends(p.dag, block);
    assert(chain(p.dag, Seq::<char>::empty()) =~= Seq::<BlockView>::empty());
    lemma_put_preserves(p.dag, block, from.cid);
    law_chain_linked(p.dag, from.cid);
    let i = first_index::<Metadata, MetadataKey>(rows, origin_slot(origin))->0;
    assert(q.storage.metadatas[i] == rows[i]);
}

/// No rule is registered twice: once a rule watches an address, a chain
/// and a topic, every submission that asks to create a rule for the same
/// three is rejected with the error of a record that exists, whatever
/// else its payload says.
pub proof fn law_cron_dedup(
    s: StorageView,
    first_tx: TransactionView,
    first_request: SerdeCron,
    req: TransactionRequest,
    second_request: SerdeCron,
)
    requires
        s.wf(),
        cron_error(s, first_tx, Some(first_request)) is None,
        first_request.action@ == "create"@,
        admissible(req),
        req.method@ == "cron"@,
        second_request.action@ == "create"@,
        second_request.address@ == first_request.address@,
        second_request.chain@ == first_request.chain@,
        second_request.topic@ == first_request.topic@,
        second_request.address@.len() > 0,
        second_request.chain@.len() > 0,
        second_request.topic@.len() > 0,
        second_request.token_type@.len() > 0,
    ensures
        rule_for(
            cron_applied(s, first_tx, Some(first_request)).crons,
            first_request.address@,
            first_request.chain@,
            first_request.topic@,
        ) is Some,
        submission_error(
            cron_applied(s, first_tx, Some(first_request)),
            req,
            TransactionPayload::Cron(second_request),
        ) == Some(
            ServiceErrorView::RecordFound(
                second_request.address@ + " "@ + second_request.chain@ + " "@ + second_request.topic@,
            ),
        ),
{
    let c = first_request;
    let key = triple_key(c.address@, c.chain@, c.topic@);
    let after = cron_applied(s, first_tx, Some(c));
    lemma_first_index::<Cron, CronKey>(s.crons, key);
    reveal_strlit("create");
    reveal_strlit("update");
    reveal_strlit("update_status");
    reveal_strlit("cron");
    reveal_strlit("metadata");
    reveal_strlit("contract");
    reveal_strlit("clone");
    assert("cron"@ != "metadata"@) by {
        assert("cron"@.len() != "metadata"@.len());
    }
    assert("cron"@ != "contract"@) by {
        assert("cron"@.len() != "contract"@.len());
    }
    assert("cron"@ != "clone"@) by {
        assert("cron"@.len() != "clone"@.len());
    }
    match rule_for(s.crons, c.address@, c.chain@, c.topic@) {
        Some(rule) => {
            // An existing rule is changed, never created: `create` is no change.
            assert("create"@ != "update"@) by {
                assert("create"@[0] != "update"@[0]);
            }
            assert("create"@ != "update_status"@) by {
                assert("create"@[0] != "update_status"@[0]);
            }
            assert(false);
        },
        None => {
            lemma_first_after_push::<Cron, CronKey>(s.crons, key, cron_created(first_tx, c));
            assert(after.crons == s.crons.push(cron_created(first_tx, c)));
        },
    }
}

/// Closing a transaction closes it for good: it is no longer pending,
/// and its receipt is on record.
pub proof fn law_finished_is_closed(s: StorageView, tx: TransactionView, error: Option<Seq<char>>, timestamp: u64)
    requires
        s.wf(),
        transaction_of(s.transactions, tx.hash) == Some(tx),
    ensures
        pending(finished(s, tx, error, timestamp), tx.hash) is None,
        transaction_of(finished(s, tx, error, timestamp).transactions, tx.hash) is Some,
        receipt_of(finished(s, tx, error, timestamp).receipts, tx.hash) == Some(
            receipt_for(tx, error, timestamp),
        ),
{
    let key = TransactionKeyView::Hash(tx.hash);
    let change = |t: TransactionView| with_status(t, tx.hash, STATUS_DONE);
    lemma_first_index::<Transaction, TransactionKey>(s.transactions, key);
    lemma_first_after_change::<Transaction, TransactionKey>(s.transactions, key, change);
    let i = first_index::<Transaction, TransactionKey>(s.transactions, key)->0;
    assert(s.transactions.map_values(change)[i] == change(s.transactions[i]));
    let receipt = receipt_for(tx, error, timestamp);
    let rkey = ReceiptKeyView::Hash(tx.hash);
    lemma_first_index::<TransactionReceipt, ReceiptKey>(s.receipts, rkey);
    let after = with_receipt(s.receipts, receipt);
    match first_index::<TransactionReceipt, ReceiptKey>(s.receipts, rkey) {
        Some(k) => {
            assert(after == s.receipts.update(k, receipt));
            assert forall|j: int| 0 <= j < k implies !ReceiptKey::selects(rkey, #[trigger] after[j]) by {
                assert(after[j] == s.receipts[j]);
            }
            crate::node::storage_impl::lemma_first_is::<TransactionReceipt, ReceiptKey>(after, rkey, k);
        },
        None => {
            lemma_first_after_push::<TransactionReceipt, ReceiptKey>(s.receipts, rkey, receipt);
            assert(after[s.receipts.len() as int] == receipt);
        },
    }
}

/// Copying a slot keeps the stores valid.
pub proof fn lemma_clone_keeps(
    p: Progress,
    tx: TransactionView,
    meta_contract_id: Seq<char>,
    payload: Option<DataTypeClone>,
    timestamp: u64,
)
    requires
        p.storage.wf(),
        well_formed(p.dag),
    ensures
        clone_applied(p, tx, meta_contract_id, payload, timestamp).storage.wf(),
        well_formed(clone_applied(p, tx, meta_contract_id, payload, timestamp).dag),
        clone_applied(p, tx, meta_contract_id, payload, timestamp).storage.transactions
            == p.storage.transactions,
        clone_applied(p, tx, meta_contract_id, payload, timestamp).storage.receipts == p.storage.receipts,
{
    if clone_succeeds(p, tx, meta_contract_id, payload, timestamp) {
        let origin = payload->0;
        let rows = p.storage.metadatas;
        let from = slot(rows, origin_slot(origin))->0;
        let source = lookup(p.dag, from.cid)->0;
        let envelope = envelope_of(tx, meta_contract_id, origin.json());
        let block = serialize_spec(source.content, Seq::empty(), envelope, timestamp)->0;
        lemma_put_keeps(p.dag, block);
        lemma_first_index::<Metadata, MetadataKey>(rows, clone_slot(tx, from));
        let after = clone_applied(p, tx, meta_contract_id, payload, timestamp).storage.metadatas;
        assert forall|a: int, b: int|
            #![trigger after[a], after[b]]
            0 <= a < b < after.len() implies !after[a].same_slot(after[b]) by {
            if b < rows.len() {
                assert(!rows[a].same_slot(rows[b]));
            } else {
                assert(!MetadataKey::selects(clone_slot(tx, from), rows[a]));
            }
        }
    }
}

/// Applying a cron transaction keeps the store valid.
pub proof fn lemma_cron_keeps(s: StorageView, tx: TransactionView, payload: Option<SerdeCron>)
    requires
        s.wf(),
    ensures
        cron_applied(s, tx, payload).wf(),
        cron_applied(s, tx, payload).transactions == s.transactions,
        cron_applied(s, tx, payload).receipts == s.receipts,
{
    if cron_error(s, tx, payload) is None {
        let c = payload->0;
        let key = triple_key(c.address@, c.chain@, c.topic@);
        let rows = s.crons;
        lemma_first_index::<Cron, CronKey>(rows, key);
        let after = cron_applied(s, tx, payload).crons;
        assert forall|a: int, b: int|
            #![trigger after[a], after[b]]
            0 <= a < b < after.len() implies !after[a].watches(
            after[b].address,
            after[b].chain,
            after[b].topic,
        ) by {
            if b < rows.len() {
                assert(!rows[a].watches(rows[b].address, rows[b].chain, rows[b].topic));
            } else {
                assert(!CronKey::selects(key, rows[a]));
            }
        }
    }
}

/// A transaction is finalised once: whatever its method and whatever the
/// outside brings, finalising it a second time changes nothing and
/// answers the receipt of the first time.
pub proof fn law_finalised_once(
    s: StorageView,
    d: Seq<StoredBlockView>,
    hash: Seq<char>,
    first: External,
    first_time: u64,
    second: External,
    second_time: u64,
)
    requires
        s.wf(),
        well_formed(d),
        pending(s, hash) is Some,
    ensures
        ({
            let once = finalized(s, d, hash, first, first_time);
            let twice = finalized(once.storage, once.dag, hash, second, second_time);
            &&& twice.storage == once.storage
            &&& twice.dag == once.dag
            &&& answer_for(once.storage, hash, twice.error, second_time) == answer_for(
                s,
                hash,
                once.error,
                first_time,
            )
        }),
{
    let tx = pending(s, hash)->0;
    lemma_first_index::<Transaction, TransactionKey>(s.transactions, TransactionKeyView::Hash(hash));
    assert(tx.hash == hash);
    let start = Progress { storage: s, dag: d, error: None };
    if tx.method == "contract"@ {
        lemma_bound_keeps(s, tx);
        law_finished_is_closed(bound(s, tx), tx, bind_error(s, tx), first_time);
    } else if tx.method == "metadata"@ {
        if first.on_metacontract_result {
            let envelope = envelope_of(tx, first.meta_contract_id@, Seq::empty());
            let loose = crate::node::validators::loose_of(first.options);
            lemma_items_keep(start, tx, envelope, first.metadatas@, loose, first_time);
            let q = items_applied(start, tx, envelope, first.metadatas@, loose, first_time);
            law_finished_is_closed(q.storage, tx, q.error, first_time);
        } else {
            law_finished_is_closed(
                s,
                tx,
                Some(crate::node::validators::refusal(first.final_error_msg@, "Metadata not updateable"@)),
                first_time,
            );
        }
    } else if tx.method == "clone"@ {
        if first.on_metacontract_result {
            lemma_clone_keeps(start, tx, first.meta_contract_id@, first.clone_payload, first_time);
            let q = clone_applied(start, tx, first.meta_contract_id@, first.clone_payload, first_time);
            law_finished_is_closed(q.storage, tx, q.error, first_time);
        } else {
            law_finished_is_closed(
                s,
                tx,
                Some(crate::node::validators::refusal(first.final_error_msg@, "Metadata not forkable"@)),
                first_time,
            );
        }
    } else if tx.method == "cron"@ {
        lemma_cron_keeps(s, tx, first.cron_payload);
        law_finished_is_closed(
            cron_applied(s, tx, first.cron_payload),
            tx,
            cron_error(s, tx, first.cron_payload),
            first_time,
        );
    } else {
        law_finished_is_closed(s, tx, Some(crate::node::validators::wrong_method(tx)), first_time);
    }
}

/// Binding keeps the store valid.
pub proof fn lemma_bound_keeps(s: StorageView, tx: TransactionView)
    requires
        s.wf(),
    ensures
        bound(s, tx).wf(),
{
    let rows = s.meta_contracts;
    let key = crate::node::meta_contract_impl::MetaContractKeyView::TokenKey(tx.token_key);
    lemma_first_index::<crate::node::meta_contract::MetaContract, crate::node::meta_contract_impl::MetaContractKey>(
        rows,
        key,
    );
    let after = bound(s, tx).meta_contracts;
    assert forall|a: int, b: int|
        #![trigger after[a], after[b]]
        0 <= a < b < after.len() implies after[a].token_key != after[b].token_key by {
        if b < rows.len() {
            assert(rows[a].token_key != rows[b].token_key);
        } else {
            assert(!crate::node::meta_contract_impl::MetaContractKey::selects(key, rows[a]));
        }
    }
}

} // verus!
