//! Finalisation: the second step of every transaction. Each function
//! applies the effect of a pending transaction of its method, records the
//! outcome in a receipt and closes the transaction. A transaction that is
//! closed stays as it is; one of another method fails without an effect.

use vstd::prelude::*;
use vstd::string::*;
use crate::ipfsdag::store::{lookup, put_answer, put_error_text, with_put, Dag, StoredBlockView};
use crate::node::cron::{
    changed, rule_for, triple_key, Cron, CronChange, CronChangeView, CronKey, CronView, SerdeCron,
};
use crate::node::data_types::DataTypeClone;
use crate::node::defaults::CRON_STATUS_ENABLE;
use crate::node::metadatas::{FinalMetadata, Metadata, MetadataView, SerdeMetadata};
use crate::text::is_text;
use crate::node::metadatas_impl::{slot, slot_key, with_cid, MetadataKeyView};
use crate::node::transaction::{subset_json, TransactionSubset};
use crate::json::text_of;
use crate::node::defaults::{RECEIPT_STATUS_FAILED, RECEIPT_STATUS_SUCCESS, STATUS_DONE, STATUS_PENDING};
use crate::node::error::{ServiceError, ServiceErrorView};
use crate::node::meta_contract::{MetaContract, MetaContractView};
use crate::node::meta_contract_impl::{binding_of, rebound};
use crate::node::result::FdbMetadatasResult;
use crate::node::storage_impl::{views, Storage, StorageView};
use crate::node::transaction::{Transaction, TransactionReceipt, TransactionReceiptView, TransactionView};
use crate::node::transaction_receipt::{receipt_of, with_receipt};
use crate::node::transactions_impl::{transaction_of, with_status};

verus! {

/// What a finalisation answers: the receipt of the transaction, or the
/// error of a query that found none.
pub type Answer = Result<TransactionReceiptView, ServiceErrorView>;

/// The answer in a result, as plain values.
pub open spec fn answer_of(r: Result<TransactionReceipt, ServiceError>) -> Answer {
    match r {
        Ok(receipt) => Ok(receipt@),
        Err(e) => Err(e@),
    }
}

/// The receipt of a transaction that ended with `error`, or without one.
pub open spec fn receipt_for(tx: TransactionView, error: Option<Seq<char>>, timestamp: u64) -> TransactionReceiptView {
    TransactionReceiptView {
        hash: tx.hash,
        meta_contract_id: tx.meta_contract_id,
        status: if error is Some {
            RECEIPT_STATUS_FAILED
        } else {
            RECEIPT_STATUS_SUCCESS
        },
        timestamp,
        error_text: match error {
            Some(text) => text,
            None => Seq::empty(),
        },
        data: Seq::empty(),
    }
}

/// The store after the transaction `tx` was closed: its receipt is
/// recorded and the transaction is done.
pub open spec fn finished(s: StorageView, tx: TransactionView, error: Option<Seq<char>>, timestamp: u64) -> StorageView {
    StorageView {
        receipts: with_receipt(s.receipts, receipt_for(tx, error, timestamp)),
        transactions: s.transactions.map_values(|t: TransactionView| with_status(t, tx.hash, STATUS_DONE)),
        ..s
    }
}

/// What a finalisation answers for a transaction that is not pending:
/// the receipt it has, if any.
pub open spec fn recorded_answer(s: StorageView, hash: Seq<char>) -> Answer {
    match receipt_of(s.receipts, hash) {
        Some(receipt) => Ok(receipt),
        None => Err(ServiceErrorView::not_found()),
    }
}

/// The transaction `hash` where it waits for its finalisation.
pub open spec fn pending(s: StorageView, hash: Seq<char>) -> Option<TransactionView> {
    match transaction_of(s.transactions, hash) {
        Some(tx) => if tx.status == STATUS_PENDING {
            Some(tx)
        } else {
            None
        },
        None => None,
    }
}

/// Looks up the transaction `hash` for its finalisation. A transaction
/// that is not pending gives what is recorded in its place.
pub fn open_transaction(storage: &Storage, hash: String) -> (r: Result<
    Transaction,
    Result<TransactionReceipt, ServiceError>,
>)
    ensures
        match pending(storage@, hash@) {
            Some(tx) => r is Ok && r->Ok_0@ == tx,
            None => r is Err && answer_of(r->Err_0) == if transaction_of(storage@.transactions, hash@) is Some {
                recorded_answer(storage@, hash@)
            } else {
                Err(ServiceErrorView::not_found())
            },
        },
{
    match storage.get_transaction(hash.clone()) {
        Ok(tx) => {
            if tx.status == STATUS_PENDING {
                Ok(tx)
            } else {
                Err(storage.get_transaction_receipt(hash))
            }
        },
        Err(e) => Err(Err(e)),
    }
}

/// The message of the error of a transaction that is finalised as
/// another method than its own.
pub open spec fn wrong_method(tx: TransactionView) -> Seq<char> {
    ServiceErrorView::InvalidMethod(tx.method).text()
}

/// The message of the error of a transaction that is finalised as
/// another method than its own.
pub fn wrong_method_text(tx: &Transaction) -> (text: String)
    ensures
        text@ == wrong_method(tx@),
{
    ServiceError::InvalidMethod(tx.method.clone()).to_string()
}

/// Closes the transaction `tx`: records its receipt, in place of an
/// earlier one, and marks the transaction as done.
pub fn finish(storage: &mut Storage, tx: &Transaction, error: Option<String>, timestamp: u64) -> (receipt:
    TransactionReceipt)
    requires
        old(storage).wf(),
    ensures
        final(storage).wf(),
        final(storage)@ == finished(old(storage)@, tx@, text_of(error), timestamp),
        receipt@ == receipt_for(tx@, text_of(error), timestamp),
{
    let status = if error.is_some() {
        RECEIPT_STATUS_FAILED
    } else {
        RECEIPT_STATUS_SUCCESS
    };
    let error_text = match error {
        Some(text) => text,
        None => String::new(),
    };
    let receipt = TransactionReceipt {
        hash: tx.hash.clone(),
        meta_contract_id: tx.meta_contract_id.clone(),
        status,
        timestamp,
        error_text,
        data: String::new(),
    };
    let _ = storage.write_transaction_receipt(receipt.clone());
    let _ = storage.update_transaction_status(tx.hash.clone(), STATUS_DONE);
    receipt
}

/// The binding that a contract transaction asks for.
pub open spec fn binding_for(tx: TransactionView) -> MetaContractView {
    MetaContractView {
        hash: MetaContract::identity(tx.token_key, tx.meta_contract_id, tx.public_key),
        token_key: tx.token_key,
        meta_contract_id: tx.meta_contract_id,
        public_key: tx.public_key,
        cid: Seq::empty(),
    }
}

/// The error of binding the token key of `tx`: the key is bound already,
/// and by another owner.
pub open spec fn bind_error(s: StorageView, tx: TransactionView) -> Option<Seq<char>> {
    match binding_of(s.meta_contracts, tx.token_key) {
        Some(binding) => if binding.public_key == tx.public_key {
            None
        } else {
            Some(ServiceErrorView::InvalidOwner(tx.public_key).text())
        },
        None => None,
    }
}

/// The store after the token key of `tx` was bound: a new binding where
/// there was none, the owner's binding with another meta contract where
/// the caller owns it, and no change where another key owns it.
pub open spec fn bound(s: StorageView, tx: TransactionView) -> StorageView {
    match binding_of(s.meta_contracts, tx.token_key) {
        Some(binding) => if binding.public_key == tx.public_key {
            StorageView {
                meta_contracts: s.meta_contracts.map_values(
                    |m: MetaContractView| rebound(m, tx.token_key, tx.meta_contract_id, tx.public_key),
                ),
                ..s
            }
        } else {
            s
        },
        None => StorageView { meta_contracts: s.meta_contracts.push(binding_for(tx)), ..s },
    }
}

/// Binds the token key of `tx` to its meta contract, for its public key.
pub fn bind(storage: &mut Storage, tx: &Transaction) -> (error: Option<String>)
    requires
        old(storage).wf(),
    ensures
        final(storage).wf(),
        final(storage)@ == bound(old(storage)@, tx@),
        text_of(error) == bind_error(old(storage)@, tx@),
{
    match storage.get_meta_contract_by_tokenkey(tx.token_key.clone()) {
        Ok(binding) => {
            if binding.public_key == tx.public_key {
                let _ = storage.rebind_meta_contract(
                    tx.token_key.clone(),
                    tx.meta_contract_id.clone(),
                    tx.public_key.clone(),
                );
                None
            } else {
                Some(ServiceError::InvalidOwner(tx.public_key.clone()).to_string())
            }
        },
        Err(_) => {
            let binding = MetaContract::new(
                tx.token_key.clone(),
                tx.meta_contract_id.clone(),
                tx.public_key.clone(),
                String::new(),
            );
            let _ = storage.write_meta_contract(binding);
            None
        },
    }
}

/// The store after the finalisation of the contract transaction `hash`.
pub open spec fn meta_contract_validated(s: StorageView, hash: Seq<char>, timestamp: u64) -> StorageView {
    match pending(s, hash) {
        Some(tx) => if tx.method == "contract"@ {
            finished(bound(s, tx), tx, bind_error(s, tx), timestamp)
        } else {
            finished(s, tx, Some(wrong_method(tx)), timestamp)
        },
        None => s,
    }
}

/// The message of the failure of the finalisation of the contract
/// transaction `hash`, if it fails.
pub open spec fn meta_contract_failure(s: StorageView, hash: Seq<char>) -> Option<Seq<char>> {
    match pending(s, hash) {
        Some(tx) => if tx.method == "contract"@ {
            bind_error(s, tx)
        } else {
            Some(wrong_method(tx))
        },
        None => None,
    }
}

/// Finalises a contract transaction: binds its token key to its meta
/// contract. Only the owner of a binding can bind the key again; an
/// attempt of another key fails with the error of an invalid owner and
/// leaves the binding alone.
pub fn validate_meta_contract(storage: &mut Storage, transaction_hash: String, timestamp: u64) -> (r: Result<
    TransactionReceipt,
    ServiceError,
>)
    requires
        old(storage).wf(),
    ensures
        final(storage).wf(),
        final(storage)@ == meta_contract_validated(old(storage)@, transaction_hash@, timestamp),
        answer_of(r) == answer_for(
            old(storage)@,
            transaction_hash@,
            meta_contract_failure(old(storage)@, transaction_hash@),
            timestamp,
        ),
{
    match open_transaction(storage, transaction_hash) {
        Err(recorded) => recorded,
        Ok(tx) => {
            let error = if is_text(&tx.method, "contract") {
                bind(storage, &tx)
            } else {
                Some(wrong_method_text(&tx))
            };
            Ok(finish(storage, &tx, error, timestamp))
        },
    }
}

/// The stores in the course of a finalisation, and the message of the
/// last step that failed.
pub struct Progress {
    pub storage: StorageView,
    pub dag: Seq<StoredBlockView>,
    pub error: Option<Seq<char>>,
}

/// The envelope of the blocks that the transaction `tx` writes.
pub open spec fn envelope_of(tx: TransactionView, meta_contract_id: Seq<char>, value: Seq<char>) -> Seq<char> {
    subset_json(tx.hash, tx.timestamp, meta_contract_id, tx.method, value)
}

/// Writes the envelope of the blocks that the transaction `tx` writes.
pub fn envelope(tx: &Transaction, meta_contract_id: &String, value: String) -> (json: String)
    ensures
        json@ == envelope_of(tx@, meta_contract_id@, value@),
{
    let subset = TransactionSubset {
        hash: tx.hash.clone(),
        timestamp: tx.timestamp,
        meta_contract_id: meta_contract_id.clone(),
        method: tx.method.clone(),
        value,
    };
    subset.to_json()
}

/// The slot that an item of the transaction `tx` writes to.
pub open spec fn item_slot(tx: TransactionView, item: FinalMetadata) -> MetadataKeyView {
    slot_key(tx.data_key, tx.meta_contract_id, item.public_key@, item.alias@, tx.version)
}

/// The slot that an item of the transaction `tx` creates when it stores
/// its content under `cid`.
pub open spec fn item_created(tx: TransactionView, item: FinalMetadata, cid: Seq<char>, loose: i64) -> MetadataView {
    MetadataView {
        hash: Metadata::identity(
            tx.data_key,
            tx.meta_contract_id,
            item.alias@,
            item.public_key@,
            tx.version,
        ),
        token_key: tx.token_key,
        data_key: tx.data_key,
        meta_contract_id: tx.meta_contract_id,
        token_id: tx.token_id,
        alias: item.alias@,
        cid,
        public_key: item.public_key@,
        version: tx.version,
        loose,
    }
}

/// Whether the transaction `tx` may not write to the slot `m`: the slot
/// enforces its ownership and is owned by another key.
pub open spec fn forbidden(m: MetadataView, tx: TransactionView) -> bool {
    m.loose == 0 && m.public_key != tx.public_key
}

/// The stores after one item of the transaction `tx` was applied. An
/// existing slot gets a new block that names the slot's content as the one
/// before it, and then points to the new block; a missing slot is created
/// on a block that names none. A slot that `tx` may not write to, and a
/// block that the store refuses, leave everything as it was.
pub open spec fn item_applied(
    p: Progress,
    tx: TransactionView,
    envelope: Seq<char>,
    item: FinalMetadata,
    loose: i64,
    timestamp: u64,
) -> Progress {
    let key = item_slot(tx, item);
    match slot(p.storage.metadatas, key) {
        Some(m) => if forbidden(m, tx) {
            Progress { error: Some(ServiceErrorView::InvalidOwner(tx.public_key).text()), ..p }
        } else {
            match put_answer(p.dag, item.content@, m.cid, envelope, timestamp) {
                Ok(cid) => Progress {
                    storage: StorageView {
                        metadatas: p.storage.metadatas.map_values(|x: MetadataView| with_cid(x, key, cid)),
                        ..p.storage
                    },
                    dag: with_put(p.dag, item.content@, m.cid, envelope, timestamp),
                    error: p.error,
                },
                Err(e) => Progress { error: Some(put_error_text(e)), ..p },
            }
        },
        None => match put_answer(p.dag, item.content@, Seq::empty(), envelope, timestamp) {
            Ok(cid) => Progress {
                storage: StorageView {
                    metadatas: p.storage.metadatas.push(item_created(tx, item, cid, loose)),
                    ..p.storage
                },
                dag: with_put(p.dag, item.content@, Seq::empty(), envelope, timestamp),
                error: p.error,
            },
            Err(e) => Progress { error: Some(put_error_text(e)), ..p },
        },
    }
}

/// The stores after the items of the transaction `tx` were applied, one
/// after the other.
pub open spec fn items_applied(
    p: Progress,
    tx: TransactionView,
    envelope: Seq<char>,
    items: Seq<FinalMetadata>,
    loose: i64,
    timestamp: u64,
) -> Progress
    decreases items.len(),
{
    if items.len() == 0 {
        p
    } else {
        item_applied(
            items_applied(p, tx, envelope, items.drop_last(), loose, timestamp),
            tx,
            envelope,
            items.last(),
            loose,
            timestamp,
        )
    }
}

/// Applies one item of the transaction `tx`. Answers the message of the
/// error where the item failed.
pub fn apply_item(
    storage: &mut Storage,
    dag: &mut Dag,
    tx: &Transaction,
    envelope: &String,
    item: &FinalMetadata,
    loose: i64,
    timestamp: u64,
) -> (error: Option<String>)
    requires
        old(storage).wf(),
        old(dag).wf(),
    ensures
        final(storage).wf(),
        final(dag).wf(),
        ({
            let before = Progress { storage: old(storage)@, dag: old(dag)@, error: None };
            let after = item_applied(before, tx@, envelope@, *item, loose, timestamp);
            &&& final(storage)@ == after.storage
            &&& final(dag)@ == after.dag
            &&& text_of(error) == after.error
        }),
{
    let found = storage.get_owner_metadata(
        tx.data_key.clone(),
        tx.meta_contract_id.clone(),
        item.public_key.clone(),
        item.alias.clone(),
        tx.version.clone(),
    );
    match found {
        Ok(m) => {
            if m.loose == 0 && !(m.public_key == tx.public_key) {
                return Some(ServiceError::InvalidOwner(tx.public_key.clone()).to_string());
            }
            let put = dag.put_block(item.content.clone(), m.cid.clone(), envelope.clone(), timestamp);
            if put.success {
                proof {
                    crate::node::storage_impl::lemma_first_index::<
                        Metadata,
                        crate::node::metadatas_impl::MetadataKey,
                    >(old(storage)@.metadatas, item_slot(tx@, *item));
                }
                let _ = storage.update_cid(
                    m.data_key,
                    m.meta_contract_id,
                    m.alias,
                    m.public_key,
                    put.cid,
                    m.version,
                );
                None
            } else {
                Some(put.error)
            }
        },
        Err(_) => {
            let put = dag.put_block(item.content.clone(), String::new(), envelope.clone(), timestamp);
            if put.success {
                let created = Metadata::new(
                    tx.data_key.clone(),
                    tx.token_key.clone(),
                    tx.meta_contract_id.clone(),
                    tx.token_id.clone(),
                    item.alias.clone(),
                    put.cid,
                    item.public_key.clone(),
                    tx.version.clone(),
                    loose,
                );
                let _ = storage.write_metadata(created);
                None
            } else {
                Some(put.error)
            }
        },
    }
}

/// Applies the items of the transaction `tx`, one after the other.
/// Answers the message of the last item that failed.
pub fn apply_items(
    storage: &mut Storage,
    dag: &mut Dag,
    tx: &Transaction,
    envelope: &String,
    items: &Vec<FinalMetadata>,
    loose: i64,
    timestamp: u64,
) -> (error: Option<String>)
    requires
        old(storage).wf(),
        old(dag).wf(),
    ensures
        final(storage).wf(),
        final(dag).wf(),
        ({
            let before = Progress { storage: old(storage)@, dag: old(dag)@, error: None };
            let after = items_applied(before, tx@, envelope@, items@, loose, timestamp);
            &&& final(storage)@ == after.storage
            &&& final(dag)@ == after.dag
            &&& text_of(error) == after.error
        }),
{
    let ghost before = Progress { storage: storage@, dag: dag@, error: None };
    let mut error: Option<String> = None;
    let mut i: usize = 0;
    while i < items.len()
        invariant
            i <= items.len(),
            storage.wf(),
            dag.wf(),
            (Progress { storage: storage@, dag: dag@, error: text_of(error) }) == items_applied(
                before,
                tx@,
                envelope@,
                items@.take(i as int),
                loose,
                timestamp,
            ),
        decreases items.len() - i,
    {
        proof {
            assert(items@.take(i + 1).drop_last() =~= items@.take(i as int));
            assert(items@.take(i + 1).last() == items@[i as int]);
        }
        let step = apply_item(storage, dag, tx, envelope, &items[i], loose, timestamp);
        if step.is_some() {
            error = step;
        }
        i += 1;
    }
    assert(items@.take(i as int) =~= items@);
    error
}

/// The looseness of the slots that a transaction creates: what its
/// options say, and loose where it has none.
pub open spec fn loose_of(options: Option<SerdeMetadata>) -> i64 {
    match options {
        Some(o) => o.loose,
        None => 1,
    }
}

/// The message of a finalisation that the meta contract refused.
pub open spec fn refusal(final_error_msg: Seq<char>, default_msg: Seq<char>) -> Seq<char> {
    if final_error_msg.len() == 0 {
        default_msg
    } else {
        final_error_msg
    }
}

/// The stores after the finalisation of the metadata transaction `hash`,
/// and the message of its failure, if it failed.
pub open spec fn metadata_validated(
    s: StorageView,
    d: Seq<StoredBlockView>,
    hash: Seq<char>,
    meta_contract_id: Seq<char>,
    on_metacontract_result: bool,
    items: Seq<FinalMetadata>,
    final_error_msg: Seq<char>,
    options: Option<SerdeMetadata>,
    timestamp: u64,
) -> Progress {
    match pending(s, hash) {
        None => Progress { storage: s, dag: d, error: None },
        Some(tx) => {
            let p = if tx.method != "metadata"@ {
                Progress { storage: s, dag: d, error: Some(wrong_method(tx)) }
            } else if on_metacontract_result {
                items_applied(
                    Progress { storage: s, dag: d, error: None },
                    tx,
                    envelope_of(tx, meta_contract_id, Seq::empty()),
                    items,
                    loose_of(options),
                    timestamp,
                )
            } else {
                Progress {
                    storage: s,
                    dag: d,
                    error: Some(refusal(final_error_msg, "Metadata not updateable"@)),
                }
            };
            Progress { storage: finished(p.storage, tx, p.error, timestamp), ..p }
        },
    }
}

/// What a finalisation answers, given how it ended: the receipt of a
/// pending transaction, and what is recorded for any other.
pub open spec fn answer_for(s: StorageView, hash: Seq<char>, error: Option<Seq<char>>, timestamp: u64) -> Answer {
    match pending(s, hash) {
        Some(tx) => Ok(receipt_for(tx, error, timestamp)),
        None => if transaction_of(s.transactions, hash) is Some {
            recorded_answer(s, hash)
        } else {
            Err(ServiceErrorView::not_found())
        },
    }
}

/// Finalises a metadata transaction. Where the meta contract agreed,
/// every item is stored as a new block of the chain of its slot, and the
/// slot is pointed to it once the block is stored. A slot that enforces
/// its ownership is written only by a transaction of its owner: an
/// attempt of another key fails with the error of an invalid owner and
/// leaves the slot alone.
pub fn validate_metadata(
    storage: &mut Storage,
    dag: &mut Dag,
    transaction_hash: String,
    meta_contract_id: String,
    on_metacontract_result: bool,
    metadatas: Vec<FinalMetadata>,
    final_error_msg: String,
    options: Option<SerdeMetadata>,
    timestamp: u64,
) -> (r: Result<TransactionReceipt, ServiceError>)
    requires
        old(storage).wf(),
        old(dag).wf(),
    ensures
        final(storage).wf(),
        final(dag).wf(),
        ({
            let after = metadata_validated(
                old(storage)@,
                old(dag)@,
                transaction_hash@,
                meta_contract_id@,
                on_metacontract_result,
                metadatas@,
                final_error_msg@,
                options,
                timestamp,
            );
            &&& final(storage)@ == after.storage
            &&& final(dag)@ == after.dag
            &&& answer_of(r) == answer_for(old(storage)@, transaction_hash@, after.error, timestamp)
        }),
{
    match open_transaction(storage, transaction_hash) {
        Err(recorded) => recorded,
        Ok(tx) => {
            let error = if !is_text(&tx.method, "metadata") {
                Some(wrong_method_text(&tx))
            } else if on_metacontract_result {
                let loose = match options {
                    Some(o) => o.loose,
                    None => 1,
                };
                let json = envelope(&tx, &meta_contract_id, String::new());
                apply_items(storage, dag, &tx, &json, &metadatas, loose, timestamp)
            } else if final_error_msg.as_str().is_empty() {
                Some(String::from_str("Metadata not updateable"))
            } else {
                Some(final_error_msg)
            };
            Ok(finish(storage, &tx, error, timestamp))
        },
    }
}

/// The slot that a clone payload names as its origin.
pub open spec fn origin_slot(origin: DataTypeClone) -> MetadataKeyView {
    slot_key(
        origin.origin_data_key@,
        origin.origin_meta_contract_id@,
        origin.origin_public_key@,
        origin.origin_alias@,
        origin.origin_version@,
    )
}

/// The slot that the clone transaction `tx` creates from the slot
/// `origin`: under the data key and for the public key of the
/// transaction, with everything else from the origin.
pub open spec fn clone_slot(tx: TransactionView, origin: MetadataView) -> MetadataKeyView {
    slot_key(tx.data_key, origin.meta_contract_id, tx.public_key, origin.alias, origin.version)
}

/// The slot that the clone transaction `tx` creates when it stores the
/// copied content under `cid`.
pub open spec fn clone_created(tx: TransactionView, origin: MetadataView, cid: Seq<char>) -> MetadataView {
    MetadataView {
        hash: Metadata::identity(
            tx.data_key,
            origin.meta_contract_id,
            origin.alias,
            tx.public_key,
            origin.version,
        ),
        token_key: origin.token_key,
        data_key: tx.data_key,
        meta_contract_id: origin.meta_contract_id,
        token_id: origin.token_id,
        alias: origin.alias,
        cid,
        public_key: tx.public_key,
        version: origin.version,
        loose: origin.loose,
    }
}

/// The stores after the clone transaction `tx` copied the content of the
/// origin slot into a new slot: the new slot points to a new block that
/// holds the content of the origin's current block and names no block
/// before it. Nothing changes where the payload is missing, the origin
/// does not exist or has no block, the new slot exists already, or the
/// store refuses the block.
pub open spec fn clone_applied(
    p: Progress,
    tx: TransactionView,
    meta_contract_id: Seq<char>,
    payload: Option<DataTypeClone>,
    timestamp: u64,
) -> Progress {
    match payload {
        None => Progress {
            error: Some(ServiceErrorView::InvalidDataFormatForMethodType(tx.method).text()),
            ..p
        },
        Some(origin) => match slot(p.storage.metadatas, origin_slot(origin)) {
            None => Progress { error: Some(ServiceErrorView::not_found().text()), ..p },
            Some(from) => if slot(p.storage.metadatas, clone_slot(tx, from)) is Some {
                Progress { error: Some(ServiceErrorView::RecordFound(tx.data_key).text()), ..p }
            } else {
                match lookup(p.dag, from.cid) {
                    None => Progress { error: Some(ServiceErrorView::not_found().text()), ..p },
                    Some(block) => {
                        let envelope = envelope_of(tx, meta_contract_id, origin.json());
                        match put_answer(p.dag, block.content, Seq::empty(), envelope, timestamp) {
                            Ok(cid) => Progress {
                                storage: StorageView {
                                    metadatas: p.storage.metadatas.push(clone_created(tx, from, cid)),
                                    ..p.storage
                                },
                                dag: with_put(p.dag, block.content, Seq::empty(), envelope, timestamp),
                                error: p.error,
                            },
                            Err(e) => Progress { error: Some(put_error_text(e)), ..p },
                        }
                    },
                }
            },
        },
    }
}

/// Copies the content of the origin slot of a clone transaction into a
/// new slot of its own. Answers the message of the error where it failed.
pub fn apply_clone(
    storage: &mut Storage,
    dag: &mut Dag,
    tx: &Transaction,
    meta_contract_id: &String,
    payload: Option<DataTypeClone>,
    timestamp: u64,
) -> (error: Option<String>)
    requires
        old(storage).wf(),
        old(dag).wf(),
    ensures
        final(storage).wf(),
        final(dag).wf(),
        ({
            let before = Progress { storage: old(storage)@, dag: old(dag)@, error: None };
            let after = clone_applied(before, tx@, meta_contract_id@, payload, timestamp);
            &&& final(storage)@ == after.storage
            &&& final(dag)@ == after.dag
            &&& text_of(error) == after.error
        }),
{
    let origin = match payload {
        None => {
            return Some(ServiceError::InvalidDataFormatForMethodType(tx.method.clone()).to_string());
        },
        Some(origin) => origin,
    };
    let from = match storage.get_owner_metadata(
        origin.origin_data_key.clone(),
        origin.origin_meta_contract_id.clone(),
        origin.origin_public_key.clone(),
        origin.origin_alias.clone(),
        origin.origin_version.clone(),
    ) {
        Err(e) => {
            return Some(e.to_string());
        },
        Ok(from) => from,
    };
    let taken = storage.get_owner_metadata(
        tx.data_key.clone(),
        from.meta_contract_id.clone(),
        tx.public_key.clone(),
        from.alias.clone(),
        from.version.clone(),
    );
    if taken.is_ok() {
        return Some(ServiceError::RecordFound(tx.data_key.clone()).to_string());
    }
    let block = match dag.get_block(&from.cid) {
        None => {
            return Some(ServiceError::not_found().to_string());
        },
        Some(block) => block,
    };
    let json = envelope(tx, meta_contract_id, origin.to_json());
    let put = dag.put_block(block.content, String::new(), json, timestamp);
    if put.success {
        let created = Metadata::new(
            tx.data_key.clone(),
            from.token_key,
            from.meta_contract_id,
            from.token_id,
            from.alias,
            put.cid,
            tx.public_key.clone(),
            from.version,
            from.loose,
        );
        let _ = storage.write_metadata(created);
        None
    } else {
        Some(put.error)
    }
}

/// The stores after the finalisation of the clone transaction `hash`,
/// and the message of its failure, if it failed.
pub open spec fn clone_validated(
    s: StorageView,
    d: Seq<StoredBlockView>,
    hash: Seq<char>,
    meta_contract_id: Seq<char>,
    on_metacontract_result: bool,
    payload: Option<DataTypeClone>,
    final_error_msg: Seq<char>,
    timestamp: u64,
) -> Progress {
    match pending(s, hash) {
        None => Progress { storage: s, dag: d, error: None },
        Some(tx) => {
            let p = if tx.method != "clone"@ {
                Progress { storage: s, dag: d, error: Some(wrong_method(tx)) }
            } else if on_metacontract_result {
                clone_applied(
                    Progress { storage: s, dag: d, error: None },
                    tx,
                    meta_contract_id,
                    payload,
                    timestamp,
                )
            } else {
                Progress {
                    storage: s,
                    dag: d,
                    error: Some(refusal(final_error_msg, "Metadata not forkable"@)),
                }
            };
            Progress { storage: finished(p.storage, tx, p.error, timestamp), ..p }
        },
    }
}

/// Finalises a clone transaction. Where the meta contract agreed, the
/// content of the origin slot is copied into a block that starts a chain
/// of its own, and a new slot of the transaction's public key points to
/// it. A slot that exists is never overwritten.
pub fn validate_clone(
    storage: &mut Storage,
    dag: &mut Dag,
    transaction_hash: String,
    meta_contract_id: String,
    on_metacontract_result: bool,
    data: Option<DataTypeClone>,
    final_error_msg: String,
    timestamp: u64,
) -> (r: Result<TransactionReceipt, ServiceError>)
    requires
        old(storage).wf(),
        old(dag).wf(),
    ensures
        final(storage).wf(),
        final(dag).wf(),
        ({
            let after = clone_validated(
                old(storage)@,
                old(dag)@,
                transaction_hash@,
                meta_contract_id@,
                on_metacontract_result,
                data,
                final_error_msg@,
                timestamp,
            );
            &&& final(storage)@ == after.storage
            &&& final(dag)@ == after.dag
            &&& answer_of(r) == answer_for(old(storage)@, transaction_hash@, after.error, timestamp)
        }),
{
    match open_transaction(storage, transaction_hash) {
        Err(recorded) => recorded,
        Ok(tx) => {
            let error = if !is_text(&tx.method, "clone") {
                Some(wrong_method_text(&tx))
            } else if on_metacontract_result {
                apply_clone(storage, dag, &tx, &meta_contract_id, data, timestamp)
            } else if final_error_msg.as_str().is_empty() {
                Some(String::from_str("Metadata not forkable"))
            } else {
                Some(final_error_msg)
            };
            Ok(finish(storage, &tx, error, timestamp))
        },
    }
}

/// The rule that the cron transaction `tx` registers with its payload.
pub open spec fn cron_created(tx: TransactionView, payload: SerdeCron) -> CronView {
    CronView {
        hash: Cron::identity(payload.address@, payload.topic@, payload.chain@),
        token_key: tx.token_key,
        address: payload.address@,
        topic: payload.topic@,
        token_type: payload.token_type@,
        chain: payload.chain@,
        status: CRON_STATUS_ENABLE,
        meta_contract_id: tx.meta_contract_id,
        node_url: payload.node_url@,
        public_key: tx.public_key,
        last_processed_block: 0,
    }
}

/// The change that a cron payload asks for on an existing rule, if its
/// action names one.
pub open spec fn cron_change(tx: TransactionView, payload: SerdeCron) -> Option<CronChangeView> {
    if payload.action@ == "update"@ {
        Some(CronChangeView::Binding { meta_contract_id: tx.meta_contract_id, node_url: payload.node_url@ })
    } else if payload.action@ == "update_status"@ {
        Some(CronChangeView::Status(payload.status))
    } else {
        None
    }
}

/// The message of the error of the cron transaction `tx`, if it has one:
/// a missing payload, a rule of another owner, a payload that does not
/// name the rule it changes, or an action that does not fit.
pub open spec fn cron_error(s: StorageView, tx: TransactionView, payload: Option<SerdeCron>) -> Option<Seq<char>> {
    match payload {
        None => Some(ServiceErrorView::InvalidDataFormatForMethodType(tx.method).text()),
        Some(c) => match rule_for(s.crons, c.address@, c.chain@, c.topic@) {
            Some(rule) => if rule.public_key != tx.public_key {
                Some(ServiceErrorView::InvalidOwner(tx.public_key).text())
            } else if c.hash@.len() == 0 || c.hash@ != rule.hash {
                Some("Invalid cron hash: "@ + c.hash@)
            } else if cron_change(tx, c) is None {
                Some("Invalid cron action"@)
            } else {
                None
            },
            None => if c.action@ == "create"@ {
                None
            } else {
                Some("Invalid cron action"@)
            },
        },
    }
}

/// The store after the cron transaction `tx` was applied: a new, enabled
/// rule where none watches the same address, chain and topic; the owner's
/// rule changed as the payload asks; and no change where the transaction
/// has an error.
pub open spec fn cron_applied(s: StorageView, tx: TransactionView, payload: Option<SerdeCron>) -> StorageView {
    if cron_error(s, tx, payload) is Some {
        s
    } else {
        let c = payload->0;
        match rule_for(s.crons, c.address@, c.chain@, c.topic@) {
            Some(rule) => StorageView {
                crons: s.crons.map_values(
                    |r: CronView|
                        changed(r, triple_key(c.address@, c.chain@, c.topic@), cron_change(tx, c)->0),
                ),
                ..s
            },
            None => StorageView { crons: s.crons.push(cron_created(tx, c)), ..s },
        }
    }
}

/// Applies a cron transaction. Answers the message of the error where
/// it has one.
pub fn apply_cron(storage: &mut Storage, tx: &Transaction, payload: Option<SerdeCron>) -> (error: Option<
    String,
>)
    requires
        old(storage).wf(),
    ensures
        final(storage).wf(),
        final(storage)@ == cron_applied(old(storage)@, tx@, payload),
        text_of(error) == cron_error(old(storage)@, tx@, payload),
{
    let c = match payload {
        None => {
            return Some(ServiceError::InvalidDataFormatForMethodType(tx.method.clone()).to_string());
        },
        Some(c) => c,
    };
    match storage.search_cron(c.address.clone(), c.chain.clone(), c.topic.clone()) {
        Ok(rule) => {
            if !(rule.public_key == tx.public_key) {
                return Some(ServiceError::InvalidOwner(tx.public_key.clone()).to_string());
            }
            if c.hash.as_str().is_empty() || !(c.hash == rule.hash) {
                return Some(String::from_str("Invalid cron hash: ").concat(c.hash.as_str()));
            }
            let key = CronKey::Triple {
                address: c.address.clone(),
                chain: c.chain.clone(),
                topic: c.topic.clone(),
            };
            if is_text(&c.action, "update") {
                storage.change_crons(
                    &key,
                    &CronChange::Binding {
                        meta_contract_id: tx.meta_contract_id.clone(),
                        node_url: c.node_url.clone(),
                    },
                );
                None
            } else if is_text(&c.action, "update_status") {
                storage.change_crons(&key, &CronChange::Status(c.status));
                None
            } else {
                Some(String::from_str("Invalid cron action"))
            }
        },
        Err(_) => {
            if is_text(&c.action, "create") {
                let rule = Cron::new(
                    tx.token_key.clone(),
                    c.address,
                    c.topic,
                    c.token_type,
                    c.chain,
                    CRON_STATUS_ENABLE,
                    tx.meta_contract_id.clone(),
                    c.node_url,
                    tx.public_key.clone(),
                );
                let _ = storage.write_cron(rule);
                None
            } else {
                Some(String::from_str("Invalid cron action"))
            }
        },
    }
}

/// The store after the finalisation of the cron transaction `hash`.
pub open spec fn cron_validated(s: StorageView, hash: Seq<char>, payload: Option<SerdeCron>, timestamp: u64) -> StorageView {
    match pending(s, hash) {
        Some(tx) => if tx.method == "cron"@ {
            finished(cron_applied(s, tx, payload), tx, cron_error(s, tx, payload), timestamp)
        } else {
            finished(s, tx, Some(wrong_method(tx)), timestamp)
        },
        None => s,
    }
}

/// The message of the failure of the finalisation of the cron
/// transaction `hash`, if it fails.
pub open spec fn cron_failure(s: StorageView, hash: Seq<char>, payload: Option<SerdeCron>) -> Option<Seq<char>> {
    match pending(s, hash) {
        Some(tx) => if tx.method == "cron"@ {
            cron_error(s, tx, payload)
        } else {
            Some(wrong_method(tx))
        },
        None => None,
    }
}

/// Finalises a cron transaction: registers a rule, or changes the rule
/// that its owner names. A second rule for an address, chain and topic
/// is never created, and only the owner of a rule changes it.
pub fn validate_cron(storage: &mut Storage, transaction_hash: String, payload: Option<SerdeCron>, timestamp: u64) -> (r:
    Result<TransactionReceipt, ServiceError>)
    requires
        old(storage).wf(),
    ensures
        final(storage).wf(),
        final(storage)@ == cron_validated(old(storage)@, transaction_hash@, payload, timestamp),
        answer_of(r) == answer_for(
            old(storage)@,
            transaction_hash@,
            cron_failure(old(storage)@, transaction_hash@, payload),
            timestamp,
        ),
{
    match open_transaction(storage, transaction_hash) {
        Err(recorded) => recorded,
        Ok(tx) => {
            let error = if is_text(&tx.method, "cron") {
                apply_cron(storage, &tx, payload)
            } else {
                Some(wrong_method_text(&tx))
            };
            Ok(finish(storage, &tx, error, timestamp))
        },
    }
}

/// What the outside brings to the finalisation of a transaction: the
/// verdict of the meta contract, and what each method needs.
pub struct External {
    /// The meta contract that ran.
    pub meta_contract_id: String,
    /// Whether the meta contract agreed.
    pub on_metacontract_result: bool,
    /// The message of the meta contract where it refused.
    pub final_error_msg: String,
    /// The items of a metadata transaction.
    pub metadatas: Vec<FinalMetadata>,
    /// The options of a metadata transaction, if it carries any.
    pub options: Option<SerdeMetadata>,
    /// The payload of a clone transaction, if it could be read.
    pub clone_payload: Option<DataTypeClone>,
    /// The payload of a cron transaction, if it could be read.
    pub cron_payload: Option<SerdeCron>,
}

/// The stores after the finalisation of the transaction `hash`, whatever
/// its method, and the message of its failure, if it failed.
pub open spec fn finalized(
    s: StorageView,
    d: Seq<StoredBlockView>,
    hash: Seq<char>,
    external: External,
    timestamp: u64,
) -> Progress {
    match pending(s, hash) {
        None => Progress { storage: s, dag: d, error: None },
        Some(tx) => if tx.method == "contract"@ {
            Progress {
                storage: meta_contract_validated(s, hash, timestamp),
                dag: d,
                error: meta_contract_failure(s, hash),
            }
        } else if tx.method == "metadata"@ {
            metadata_validated(
                s,
                d,
                hash,
                external.meta_contract_id@,
                external.on_metacontract_result,
                external.metadatas@,
                external.final_error_msg@,
                external.options,
                timestamp,
            )
        } else if tx.method == "clone"@ {
            clone_validated(
                s,
                d,
                hash,
                external.meta_contract_id@,
                external.on_metacontract_result,
                external.clone_payload,
                external.final_error_msg@,
                timestamp,
            )
        } else if tx.method == "cron"@ {
            Progress {
                storage: cron_validated(s, hash, external.cron_payload, timestamp),
                dag: d,
                error: cron_failure(s, hash, external.cron_payload),
            }
        } else {
            Progress {
                storage: finished(s, tx, Some(wrong_method(tx)), timestamp),
                dag: d,
                error: Some(wrong_method(tx)),
            }
        },
    }
}

/// Finalises the transaction `hash` by its method: a binding for a
/// contract transaction, new blocks for a metadata transaction, a copy for
/// a clone, a rule for a cron transaction. The outcome is recorded in the
/// receipt of the transaction, and the transaction is closed for good:
/// finalising it again changes nothing and answers the same receipt.
pub fn finalize(storage: &mut Storage, dag: &mut Dag, transaction_hash: String, external: External, timestamp: u64) -> (r:
    Result<TransactionReceipt, ServiceError>)
    requires
        old(storage).wf(),
        old(dag).wf(),
    ensures
        final(storage).wf(),
        final(dag).wf(),
        ({
            let after = finalized(old(storage)@, old(dag)@, transaction_hash@, external, timestamp);
            &&& final(storage)@ == after.storage
            &&& final(dag)@ == after.dag
            &&& answer_of(r) == answer_for(old(storage)@, transaction_hash@, after.error, timestamp)
        }),
{
    let method = match open_transaction(storage, transaction_hash.clone()) {
        Err(recorded) => {
            return recorded;
        },
        Ok(tx) => tx.method,
    };
    if is_text(&method, "contract") {
        validate_meta_contract(storage, transaction_hash, timestamp)
    } else if is_text(&method, "metadata") {
        validate_metadata(
            storage,
            dag,
            transaction_hash,
            external.meta_contract_id,
            external.on_metacontract_result,
            external.metadatas,
            external.final_error_msg,
            external.options,
            timestamp,
        )
    } else if is_text(&method, "clone") {
        validate_clone(
            storage,
            dag,
            transaction_hash,
            external.meta_contract_id,
            external.on_metacontract_result,
            external.clone_payload,
            external.final_error_msg,
            timestamp,
        )
    } else if is_text(&method, "cron") {
        validate_cron(storage, transaction_hash, external.cron_payload, timestamp)
    } else {
        // No validator takes it: each of them closes it with the same error.
        validate_meta_contract(storage, transaction_hash, timestamp)
    }
}

/// The stores in the course of a finalisation for a cron event, the
/// message of the last step that failed, and the slots found or created.
pub struct CronProgress {
    pub storage: StorageView,
    pub dag: Seq<StoredBlockView>,
    pub error: Seq<char>,
    pub slots: Seq<MetadataView>,
}

/// The slot that an item of a cron event creates when it stores its
/// content under `cid`.
pub open spec fn event_created(
    data_key: Seq<char>,
    token_key: Seq<char>,
    meta_contract_id: Seq<char>,
    token_id: Seq<char>,
    item: FinalMetadata,
    cid: Seq<char>,
) -> MetadataView {
    MetadataView {
        hash: Metadata::identity(data_key, meta_contract_id, item.alias@, item.public_key@, item.version@),
        token_key,
        data_key,
        meta_contract_id,
        token_id,
        alias: item.alias@,
        cid,
        public_key: item.public_key@,
        version: item.version@,
        loose: item.loose,
    }
}

/// The stores after one item of a cron event was applied: a slot that
/// exists is reported as it is, a missing one is created on a block that
/// starts its chain, and a block that the store refuses leaves a message.
pub open spec fn event_item_applied(
    p: CronProgress,
    data_key: Seq<char>,
    token_key: Seq<char>,
    meta_contract_id: Seq<char>,
    token_id: Seq<char>,
    item: FinalMetadata,
    timestamp: u64,
) -> CronProgress {
    let key = slot_key(data_key, meta_contract_id, item.public_key@, item.alias@, item.version@);
    match slot(p.storage.metadatas, key) {
        Some(m) => CronProgress { slots: p.slots.push(m), ..p },
        None => match put_answer(p.dag, item.content@, Seq::empty(), "{}"@, timestamp) {
            Ok(cid) => {
                let created = event_created(data_key, token_key, meta_contract_id, token_id, item, cid);
                CronProgress {
                    storage: StorageView { metadatas: p.storage.metadatas.push(created), ..p.storage },
                    dag: with_put(p.dag, item.content@, Seq::empty(), "{}"@, timestamp),
                    error: p.error,
                    slots: p.slots.push(created),
                }
            },
            Err(e) => CronProgress { error: put_error_text(e), ..p },
        },
    }
}

/// The stores after the items of a cron event were applied, one after
/// the other.
pub open spec fn event_items_applied(
    p: CronProgress,
    data_key: Seq<char>,
    token_key: Seq<char>,
    meta_contract_id: Seq<char>,
    token_id: Seq<char>,
    items: Seq<FinalMetadata>,
    timestamp: u64,
) -> CronProgress
    decreases items.len(),
{
    if items.len() == 0 {
        p
    } else {
        event_item_applied(
            event_items_applied(
                p,
                data_key,
                token_key,
                meta_contract_id,
                token_id,
                items.drop_last(),
                timestamp,
            ),
            data_key,
            token_key,
            meta_contract_id,
            token_id,
            items.last(),
            timestamp,
        )
    }
}

/// The stores after the finalisation for an event of the rule `cron`.
pub open spec fn metadata_cron_validated(
    s: StorageView,
    d: Seq<StoredBlockView>,
    meta_contract: MetaContract,
    cron: Cron,
    token_id: Seq<char>,
    on_metacontract_result: bool,
    items: Seq<FinalMetadata>,
    timestamp: u64,
) -> CronProgress {
    let start = CronProgress { storage: s, dag: d, error: Seq::empty(), slots: Seq::empty() };
    if on_metacontract_result {
        event_items_applied(
            start,
            Metadata::data_key_of(cron.chain@, cron.address@, token_id),
            cron.token_key@,
            meta_contract.meta_contract_id@,
            token_id,
            items,
            timestamp,
        )
    } else {
        start
    }
}

/// Finalises the metadata of a cron event. Where the meta contract
/// agreed, every item whose slot is missing gets a slot on a block that
/// starts its chain; slots that exist are left as they are. Answers the
/// slots of the items, found or created.
pub fn validate_metadata_cron(
    storage: &mut Storage,
    dag: &mut Dag,
    meta_contract: MetaContract,
    cron: Cron,
    token_id: String,
    on_metacontract_result: bool,
    metadatas: Vec<FinalMetadata>,
    timestamp: u64,
) -> (r: FdbMetadatasResult)
    requires
        old(storage).wf(),
        old(dag).wf(),
    ensures
        final(storage).wf(),
        final(dag).wf(),
        ({
            let after = metadata_cron_validated(
                old(storage)@,
                old(dag)@,
                meta_contract,
                cron,
                token_id@,
                on_metacontract_result,
                metadatas@,
                timestamp,
            );
            &&& final(storage)@ == after.storage
            &&& final(dag)@ == after.dag
            &&& r.success == on_metacontract_result
            &&& r.err_msg@ == after.error
            &&& views(r.metadatas@) == after.slots
        }),
{
    let mut slots: Vec<Metadata> = Vec::new();
    let mut err_msg = String::new();
    assert(views(slots@) =~= Seq::<MetadataView>::empty());
    if on_metacontract_result {
        let data_key = Metadata::generate_data_key(
            cron.chain.clone(),
            cron.address.clone(),
            token_id.clone(),
        );
        let ghost start = CronProgress {
            storage: storage@,
            dag: dag@,
            error: Seq::empty(),
            slots: Seq::empty(),
        };
        let mut i: usize = 0;
        while i < metadatas.len()
            invariant
                i <= metadatas.len(),
                storage.wf(),
                dag.wf(),
                (CronProgress {
                    storage: storage@,
                    dag: dag@,
                    error: err_msg@,
                    slots: views(slots@),
                }) == event_items_applied(
                    start,
                    data_key@,
                    cron.token_key@,
                    meta_contract.meta_contract_id@,
                    token_id@,
                    metadatas@.take(i as int),
                    timestamp,
                ),
            decreases metadatas.len() - i,
        {
            proof {
                assert(metadatas@.take(i + 1).drop_last() =~= metadatas@.take(i as int));
                assert(metadatas@.take(i + 1).last() == metadatas@[i as int]);
            }
            let item = &metadatas[i];
            let ghost seen = views(slots@);
            let found = storage.get_owner_metadata(
                data_key.clone(),
                meta_contract.meta_contract_id.clone(),
                item.public_key.clone(),
                item.alias.clone(),
                item.version.clone(),
            );
            match found {
                Ok(m) => {
                    slots.push(m);
                    assert(views(slots@) =~= seen.push(m@));
                },
                Err(_) => {
                    let put = dag.put_block(
                        item.content.clone(),
                        String::new(),
                        String::from_str("{}"),
                        timestamp,
                    );
                    if put.success {
                        let created = Metadata::new(
                            data_key.clone(),
                            cron.token_key.clone(),
                            meta_contract.meta_contract_id.clone(),
                            token_id.clone(),
                            item.alias.clone(),
                            put.cid,
                            item.public_key.clone(),
                            item.version.clone(),
                            item.loose,
                        );
                        let _ = storage.write_metadata(created.clone());
                        slots.push(created);
                        assert(views(slots@) =~= seen.push(created@));
                    } else {
                        err_msg = put.error;
                    }
                },
            }
            i += 1;
        }
        assert(metadatas@.take(i as int) =~= metadatas@);
    }
    FdbMetadatasResult { success: on_metacontract_result, err_msg, metadatas: slots }
}

} // verus!
