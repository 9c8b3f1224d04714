//! The registry node: the ledger of transactions, the metadata slots and
//! their version chains, the meta-contract bindings and the cron rules.

use vstd::prelude::*;
use vstd::string::*;
use crate::crypto::{get_public_key_type, public_key_type_spec, verify, verify_spec};
use crate::ipfsdag::block::{block_json, Block, BlockView};
use crate::ipfsdag::store::{chain, history, Dag};
use crate::node::cron::{handed_out, rule_for, rule_of, Cron, CronKey, CronKeyView, CronResult, CronView, SerdeCron};
use crate::node::cron_tx::{latest, with_event, CronTx, CronTxKey, CronTxKeyView, CronTxView};
use crate::node::data_types::{DataTypeClone, DataTypeFork, SerdeDataTypeFork};
use crate::node::defaults::{
    CRON_STATUS_DISABLE, CRON_STATUS_ENABLE, CRON_TX_STATUS_FAILED, CRON_TX_STATUS_SUCCESS, STATUS_FAILED,
    STATUS_PENDING,
};
use crate::node::error::{ServiceError, ServiceErrorView};
use crate::node::meta_contract::MetaContract;
use crate::node::meta_contract_impl::{binding_of, MetaContractKey, MetaContractKeyView};
use crate::node::metadatas::{FinalMetadata, Metadata, MetadataOrdering, MetadataQuery, SerdeMetadata};
use crate::node::metadatas_impl::{slot, slot_key, MetadataKey, MetadataKeyView};
use crate::node::result::{
    FdbCronTxResult, FdbCronTxsResult, FdbCronsResult, FdbMetaContractResult, FdbMetadataHistoryResult,
    FdbMetadataResult, FdbMetadatasResult, FdbResult, FdbTransactionReceiptResult, FdbTransactionResult,
    FdbTransactionsResult,
};
use crate::node::search::{metadatas_found, newest_first, transactions_found, unsupported};
use crate::node::storage_impl::{first, selected, views, Storage, StorageView};
use crate::node::transaction::{
    Transaction, TransactionOrdering, TransactionQuery, TransactionReceipt, TransactionRequest,
    TransactionView,
};
use crate::node::transaction_receipt::{receipt_of, with_receipt};
use crate::node::transactions_impl::{transaction_of, TransactionKey, TransactionKeyView};
use crate::node::validators::{
    answer_for, answer_of, clone_validated, cron_failure, cron_validated, meta_contract_failure,
    meta_contract_validated, metadata_cron_validated, metadata_validated, receipt_for, validate_clone,
    validate_cron, validate_meta_contract, validate_metadata, validate_metadata_cron,
};
use crate::text::is_text;

pub mod cron;
pub mod cron_tx;
pub mod data_types;
pub mod defaults;
pub mod error;
pub mod laws;
pub mod meta_contract;
pub mod meta_contract_impl;
pub mod metadatas;
pub mod metadatas_impl;
pub mod registry;
pub mod result;
pub mod search;
pub mod storage_impl;
pub mod transaction;
pub mod transaction_receipt;
pub mod transactions_impl;
pub mod validators;

verus! {

/// Runs `func` and hands on what it gives.
pub fn wrapped_try<F, T>(func: F) -> (r: T) where F: FnOnce() -> T
    requires
        func.requires(()),
    ensures
        func.ensures((), r),
{
    func()
}

/// The payload of a submission, as far as it was read: a clone names its
/// origin, a cron transaction its rule.
pub enum TransactionPayload {
    /// The payload has no structure that the submission depends on.
    Plain,
    /// The origin of a clone.
    Clone(DataTypeClone),
    /// The rule of a cron transaction.
    Cron(SerdeCron),
    /// The payload could not be read; the message says why.
    Malformed(String),
}

impl Clone for TransactionPayload {
    fn clone(&self) -> (r: Self)
        ensures
            r == *self,
    {
        match self {
            TransactionPayload::Plain => TransactionPayload::Plain,
            TransactionPayload::Clone(origin) => TransactionPayload::Clone(origin.clone()),
            TransactionPayload::Cron(c) => TransactionPayload::Cron(c.clone()),
            TransactionPayload::Malformed(why) => TransactionPayload::Malformed(why.clone()),
        }
    }
}

/// Whether `method` is one of the four methods of a transaction.
pub open spec fn known_method(method: Seq<char>) -> bool {
    method == "contract"@ || method == "metadata"@ || method == "clone"@ || method == "cron"@
}

/// The token key of a request: of its chain and token address, where it
/// names both.
pub open spec fn token_key_for(req: TransactionRequest) -> Seq<char> {
    if req.chain_id@.len() > 0 && req.token_address@.len() > 0 {
        Metadata::token_key_of(req.chain_id@, req.token_address@)
    } else {
        Seq::empty()
    }
}

/// The data key of a request: of its chain, token address and token,
/// where it names all three.
pub open spec fn data_key_for(req: TransactionRequest) -> Seq<char> {
    if req.chain_id@.len() > 0 && req.token_address@.len() > 0 && req.token_id@.len() > 0 {
        Metadata::data_key_of(req.chain_id@, req.token_address@, req.token_id@)
    } else {
        Seq::empty()
    }
}

/// What the check of a request against the store found: an error, the
/// meta contract that the transaction is recorded with, and the content
/// that its slot pointed to.
pub struct Precheck {
    pub error: Option<ServiceErrorView>,
    pub meta_contract_id: Seq<char>,
    pub content: Seq<char>,
}

/// The error of a payload that does not fit the method of the request.
pub open spec fn bad_format(req: TransactionRequest) -> ServiceErrorView {
    ServiceErrorView::InvalidDataFormatForMethodType(req.method@)
}

/// The check of a cron payload: a new rule names its address, chain,
/// topic and token type, and no rule watches the same three yet; a change
/// names an existing rule, a status and one of the two changes.
pub open spec fn cron_precheck(s: StorageView, req: TransactionRequest, c: SerdeCron) -> Option<ServiceErrorView> {
    if c.action@ == "create"@ {
        if c.address@.len() == 0 || c.chain@.len() == 0 || c.topic@.len() == 0 || c.token_type@.len()
            == 0 {
            Some(bad_format(req))
        } else if rule_for(s.crons, c.address@, c.chain@, c.topic@) is Some {
            Some(ServiceErrorView::RecordFound(c.address@ + " "@ + c.chain@ + " "@ + c.topic@))
        } else {
            None
        }
    } else if c.hash@.len() == 0 || (c.status != CRON_STATUS_ENABLE && c.status != CRON_STATUS_DISABLE)
        || (c.action@ != "update"@ && c.action@ != "update_status"@) {
        Some(bad_format(req))
    } else if rule_of(s.crons, c.hash@) is None {
        Some(ServiceErrorView::not_found())
    } else {
        None
    }
}

/// The check of a clone payload: the origin exists, and the slot that the
/// clone would create does not.
pub open spec fn clone_precheck(s: StorageView, req: TransactionRequest, origin: DataTypeClone) -> Option<
    ServiceErrorView,
> {
    if slot(
        s.metadatas,
        slot_key(
            origin.origin_data_key@,
            origin.origin_meta_contract_id@,
            origin.origin_public_key@,
            origin.origin_alias@,
            origin.origin_version@,
        ),
    ) is None {
        Some(ServiceErrorView::not_found())
    } else if slot(
        s.metadatas,
        slot_key(
            data_key_for(req),
            origin.origin_meta_contract_id@,
            req.public_key@,
            origin.origin_alias@,
            origin.origin_version@,
        ),
    ) is Some {
        Some(ServiceErrorView::RecordFound(data_key_for(req)))
    } else {
        None
    }
}

/// The check of a request against the store, by its method.
pub open spec fn precheck(s: StorageView, req: TransactionRequest, payload: TransactionPayload) -> Precheck {
    let plain = Precheck { error: None, meta_contract_id: req.meta_contract_id@, content: Seq::empty() };
    if req.method@ == "metadata"@ {
        if req.meta_contract_id@.len() == 0 {
            Precheck { error: Some(ServiceErrorView::NoProgramId), ..plain }
        } else {
            match slot(
                s.metadatas,
                slot_key(
                    data_key_for(req),
                    req.meta_contract_id@,
                    req.public_key@,
                    req.alias@,
                    req.version@,
                ),
            ) {
                Some(m) => Precheck { content: m.cid, ..plain },
                None => plain,
            }
        }
    } else if req.method@ == "contract"@ {
        if req.data@.len() == 0 {
            Precheck { error: Some(ServiceErrorView::NoProgramId), ..plain }
        } else {
            Precheck {
                error: match binding_of(s.meta_contracts, token_key_for(req)) {
                    Some(binding) => if token_key_for(req).len() > 0 && binding.public_key
                        != req.public_key@ {
                        Some(
                            ServiceErrorView::InvalidOwner(
                                "not owner of default meta contract: "@ + req.public_key@,
                            ),
                        )
                    } else {
                        None
                    },
                    None => None,
                },
                meta_contract_id: req.data@,
                content: Seq::empty(),
            }
        }
    } else if req.method@ == "clone"@ {
        match payload {
            TransactionPayload::Clone(origin) => Precheck { error: clone_precheck(s, req, origin), ..plain },
            _ => Precheck { error: Some(bad_format(req)), ..plain },
        }
    } else if req.method@ == "cron"@ {
        match payload {
            TransactionPayload::Cron(c) => Precheck { error: cron_precheck(s, req, c), ..plain },
            TransactionPayload::Malformed(why) => Precheck {
                error: Some(ServiceErrorView::InvalidDataFormatForMethodType(why@)),
                ..plain
            },
            _ => Precheck { error: Some(bad_format(req)), ..plain },
        }
    } else {
        plain
    }
}

/// Whether the request passes the checks that need no look at the store:
/// its public key fits a signature scheme and its method is known.
pub open spec fn admissible(req: TransactionRequest) -> bool {
    public_key_type_spec(req.public_key@).len() > 0 && known_method(req.method@)
}

/// The check of the request against the store, where it comes to it.
pub open spec fn checked(s: StorageView, req: TransactionRequest, payload: TransactionPayload) -> Precheck {
    if admissible(req) {
        precheck(s, req, payload)
    } else {
        Precheck { error: None, meta_contract_id: req.meta_contract_id@, content: Seq::empty() }
    }
}

/// The error that a submission is rejected with, if it is rejected: a
/// public key that fits no scheme, an unknown method, what the check
/// against the store found, or a signature that does not match or cannot
/// be read.
pub open spec fn submission_error(s: StorageView, req: TransactionRequest, payload: TransactionPayload) -> Option<
    ServiceErrorView,
> {
    let enc = public_key_type_spec(req.public_key@);
    if enc.len() == 0 {
        Some(ServiceErrorView::InvalidEncryption(req.public_key@))
    } else if !known_method(req.method@) {
        Some(ServiceErrorView::InvalidMethod("invalid method: "@ + req.method@))
    } else if precheck(s, req, payload).error is Some {
        precheck(s, req, payload).error
    } else if verify_spec(req.public_key@, req.signature@, req.data@, enc) == Ok::<
        bool,
        crate::crypto::CryptoError,
    >(true) {
        None
    } else {
        Some(ServiceErrorView::InvalidSignature("not owner of data_key: "@ + req.public_key@))
    }
}

/// The transaction that a submission is recorded as: pending where it
/// was accepted, and failed, with the message of the error, where it was
/// rejected. Its hash depends on the request and on the content that its
/// slot pointed to, not on the time.
pub open spec fn submitted(s: StorageView, req: TransactionRequest, payload: TransactionPayload, timestamp: u64) -> TransactionView {
    let found = checked(s, req, payload);
    let error = submission_error(s, req, payload);
    TransactionView {
        hash: Transaction::identity(
            found.meta_contract_id,
            token_key_for(req),
            data_key_for(req),
            req.data@,
            req.public_key@,
            req.alias@,
            req.method@,
            req.version@,
            req.mcdata@,
            found.content,
        ),
        method: req.method@,
        meta_contract_id: found.meta_contract_id,
        data_key: data_key_for(req),
        token_key: token_key_for(req),
        data: req.data@,
        public_key: req.public_key@,
        alias: req.alias@,
        timestamp,
        chain_id: req.chain_id@,
        token_address: req.token_address@,
        token_id: req.token_id@,
        version: req.version@,
        status: if error is Some {
            STATUS_FAILED
        } else {
            STATUS_PENDING
        },
        mcdata: req.mcdata@,
        error_text: match error {
            Some(e) => e.text(),
            None => Seq::empty(),
        },
    }
}

/// The store after a submission: the transaction is recorded, with a
/// receipt of its failure where it was rejected. A submission whose hash
/// is recorded already changes nothing.
pub open spec fn published(s: StorageView, req: TransactionRequest, payload: TransactionPayload, timestamp: u64) -> StorageView {
    let tx = submitted(s, req, payload, timestamp);
    if transaction_of(s.transactions, tx.hash) is Some {
        s
    } else {
        match submission_error(s, req, payload) {
            Some(e) => StorageView {
                transactions: s.transactions.push(tx),
                receipts: with_receipt(s.receipts, receipt_for(tx, Some(e.text()), timestamp)),
                ..s
            },
            None => StorageView { transactions: s.transactions.push(tx), ..s },
        }
    }
}

/// Whether `method` is one of the four methods of a transaction.
pub fn is_known_method(method: &String) -> (b: bool)
    ensures
        b == known_method(method@),
{
    is_text(method, "contract") || is_text(method, "metadata") || is_text(method, "clone") || is_text(method, "cron")
}

/// Computes the token key and the data key of a request.
pub fn derive_keys(req: &TransactionRequest) -> (keys: (String, String))
    ensures
        keys.0@ == token_key_for(*req),
        keys.1@ == data_key_for(*req),
{
    let named = !req.chain_id.as_str().is_empty() && !req.token_address.as_str().is_empty();
    let token_key = if named {
        Metadata::generate_token_key(req.chain_id.clone(), req.token_address.clone())
    } else {
        String::new()
    };
    let data_key = if named && !req.token_id.as_str().is_empty() {
        Metadata::generate_data_key(
            req.chain_id.clone(),
            req.token_address.clone(),
            req.token_id.clone(),
        )
    } else {
        String::new()
    };
    (token_key, data_key)
}

/// Checks a cron payload against the store.
pub fn check_cron(storage: &Storage, req: &TransactionRequest, c: &SerdeCron) -> (error: Option<ServiceError>)
    ensures
        crate::node::view_of(error) == cron_precheck(storage@, *req, *c),
{
    if is_text(&c.action, "create") {
        if c.address.as_str().is_empty() || c.chain.as_str().is_empty() || c.topic.as_str().is_empty()
            || c.token_type.as_str().is_empty() {
            Some(ServiceError::InvalidDataFormatForMethodType(req.method.clone()))
        } else {
            match storage.search_cron(c.address.clone(), c.chain.clone(), c.topic.clone()) {
                Ok(_) => {
                    let mut what = c.address.clone();
                    what.append(" ");
                    what.append(c.chain.as_str());
                    what.append(" ");
                    what.append(c.topic.as_str());
                    Some(ServiceError::RecordFound(what))
                },
                Err(_) => None,
            }
        }
    } else if c.hash.as_str().is_empty() || (c.status != CRON_STATUS_ENABLE && c.status
        != CRON_STATUS_DISABLE) || (!is_text(&c.action, "update") && !is_text(&c.action, "update_status")) {
        Some(ServiceError::InvalidDataFormatForMethodType(req.method.clone()))
    } else {
        match storage.get_cron_by_hash(c.hash.clone()) {
            Ok(_) => None,
            Err(e) => Some(e),
        }
    }
}

/// Checks a clone payload against the store.
pub fn check_clone(storage: &Storage, req: &TransactionRequest, data_key: &String, origin: &DataTypeClone) -> (error:
    Option<ServiceError>)
    requires
        data_key@ == data_key_for(*req),
    ensures
        crate::node::view_of(error) == clone_precheck(storage@, *req, *origin),
{
    let from = storage.get_owner_metadata(
        origin.origin_data_key.clone(),
        origin.origin_meta_contract_id.clone(),
        origin.origin_public_key.clone(),
        origin.origin_alias.clone(),
        origin.origin_version.clone(),
    );
    match from {
        Err(e) => Some(e),
        Ok(_) => {
            let taken = storage.get_owner_metadata(
                data_key.clone(),
                origin.origin_meta_contract_id.clone(),
                req.public_key.clone(),
                origin.origin_alias.clone(),
                origin.origin_version.clone(),
            );
            match taken {
                Ok(_) => Some(ServiceError::RecordFound(data_key.clone())),
                Err(_) => None,
            }
        },
    }
}

/// The error in an optional error, as plain values.
pub open spec fn view_of(error: Option<ServiceError>) -> Option<ServiceErrorView> {
    match error {
        Some(e) => Some(e@),
        None => None,
    }
}

/// Checks a request against the store, by its method. Answers the error,
/// the meta contract that the transaction is recorded with, and the
/// content that its slot points to.
pub fn check_request(
    storage: &Storage,
    req: &TransactionRequest,
    payload: &TransactionPayload,
    token_key: &String,
    data_key: &String,
) -> (found: (Option<ServiceError>, String, String))
    requires
        token_key@ == token_key_for(*req),
        data_key@ == data_key_for(*req),
    ensures
        view_of(found.0) == precheck(storage@, *req, *payload).error,
        found.1@ == precheck(storage@, *req, *payload).meta_contract_id,
        found.2@ == precheck(storage@, *req, *payload).content,
{
    if is_text(&req.method, "metadata") {
        if req.meta_contract_id.as_str().is_empty() {
            (Some(ServiceError::NoProgramId()), req.meta_contract_id.clone(), String::new())
        } else {
            let found = storage.get_owner_metadata(
                data_key.clone(),
                req.meta_contract_id.clone(),
                req.public_key.clone(),
                req.alias.clone(),
                req.version.clone(),
            );
            match found {
                Ok(m) => (None, req.meta_contract_id.clone(), m.cid),
                Err(_) => (None, req.meta_contract_id.clone(), String::new()),
            }
        }
    } else if is_text(&req.method, "contract") {
        if req.data.as_str().is_empty() {
            (Some(ServiceError::NoProgramId()), req.meta_contract_id.clone(), String::new())
        } else {
            let error = match storage.get_meta_contract_by_tokenkey(token_key.clone()) {
                Ok(binding) => {
                    if !token_key.as_str().is_empty() && !(binding.public_key == req.public_key) {
                        Some(
                            ServiceError::InvalidOwner(
                                String::from_str("not owner of default meta contract: ").concat(
                                    req.public_key.as_str(),
                                ),
                            ),
                        )
                    } else {
                        None
                    }
                },
                Err(_) => None,
            };
            (error, req.data.clone(), String::new())
        }
    } else if is_text(&req.method, "clone") {
        let error = match payload {
            TransactionPayload::Clone(origin) => check_clone(storage, req, data_key, origin),
            _ => Some(ServiceError::InvalidDataFormatForMethodType(req.method.clone())),
        };
        (error, req.meta_contract_id.clone(), String::new())
    } else if is_text(&req.method, "cron") {
        let error = match payload {
            TransactionPayload::Cron(c) => check_cron(storage, req, c),
            TransactionPayload::Malformed(why) => Some(
                ServiceError::InvalidDataFormatForMethodType(why.clone()),
            ),
            _ => Some(ServiceError::InvalidDataFormatForMethodType(req.method.clone())),
        };
        (error, req.meta_contract_id.clone(), String::new())
    } else {
        (None, req.meta_contract_id.clone(), String::new())
    }
}

/// Submits a transaction. The request is checked and its signature is
/// verified; then the transaction is recorded in any case: as pending
/// where it was accepted, and as failed, with a receipt that carries the
/// error, where it was rejected. Answers the hash of the transaction.
/// The same request at the same state of its slot has the same hash, and
/// is recorded once.
pub fn publish(storage: &mut Storage, tx_request: TransactionRequest, payload: TransactionPayload, timestamp: u64) -> (r:
    FdbResult)
    requires
        old(storage).wf(),
    ensures
        final(storage).wf(),
        r.transaction_hash@ == submitted(old(storage)@, tx_request, payload, timestamp).hash,
        final(storage)@ == published(old(storage)@, tx_request, payload, timestamp),
{
    let keys = derive_keys(&tx_request);
    let token_key = keys.0;
    let data_key = keys.1;
    let enc = get_public_key_type(tx_request.public_key.as_str());
    let mut meta_contract_id = tx_request.meta_contract_id.clone();
    let mut content = String::new();
    let mut error: Option<ServiceError> = None;
    if enc.as_str().is_empty() {
        error = Some(ServiceError::InvalidEncryption(tx_request.public_key.clone()));
    } else if !is_known_method(&tx_request.method) {
        error = Some(
            ServiceError::InvalidMethod(
                String::from_str("invalid method: ").concat(tx_request.method.as_str()),
            ),
        );
    } else {
        let found = check_request(storage, &tx_request, &payload, &token_key, &data_key);
        meta_contract_id = found.1;
        content = found.2;
        if found.0.is_some() {
            error = found.0;
        } else {
            let valid = verify(
                tx_request.public_key.clone(),
                tx_request.signature.clone(),
                tx_request.data.clone(),
                enc,
            );
            let accepted = match valid {
                Ok(v) => v,
                Err(_) => false,
            };
            if !accepted {
                error = Some(
                    ServiceError::InvalidSignature(
                        String::from_str("not owner of data_key: ").concat(
                            tx_request.public_key.as_str(),
                        ),
                    ),
                );
            }
        }
    }
    let status = if error.is_some() {
        STATUS_FAILED
    } else {
        STATUS_PENDING
    };
    let mut transaction = Transaction::new(
        meta_contract_id,
        token_key,
        data_key,
        tx_request.data,
        tx_request.public_key,
        tx_request.alias,
        timestamp,
        tx_request.method,
        tx_request.chain_id,
        tx_request.token_address,
        tx_request.token_id,
        tx_request.version,
        tx_request.mcdata,
        status,
        content,
    );
    let error_text = match &error {
        Some(e) => Some(e.to_string()),
        None => None,
    };
    match &error_text {
        Some(text) => {
            transaction.error_text = text.clone();
        },
        None => {},
    }
    let hash = transaction.hash.clone();
    assert(transaction@.error_text == submitted(old(storage)@, tx_request, payload, timestamp).error_text);
    let written = storage.write_transaction(transaction.clone());
    if written.is_ok() {
        match error_text {
            Some(text) => {
                let receipt = TransactionReceipt {
                    hash: transaction.hash.clone(),
                    meta_contract_id: transaction.meta_contract_id.clone(),
                    status: crate::node::defaults::RECEIPT_STATUS_FAILED,
                    timestamp,
                    error_text: text,
                    data: String::new(),
                };
                let _ = storage.write_transaction_receipt(receipt);
            },
            None => {},
        }
    }
    FdbResult { transaction_hash: hash }
}

/// The transaction with the given hash.
pub fn get_transaction(storage: &Storage, hash: String) -> (r: FdbTransactionResult)
    ensures
        match transaction_of(storage@.transactions, hash@) {
            Some(row) => r.success && r.err_msg@.len() == 0 && r.transaction@ == row,
            None => !r.success && r.err_msg@ == ServiceErrorView::not_found().text() && r.transaction.is_zero(),
        },
{
    FdbTransactionResult::from(storage.get_transaction(hash))
}

/// The receipt of the transaction with the given hash.
pub fn get_transaction_receipt(storage: &Storage, hash: String) -> (r: FdbTransactionReceiptResult)
    ensures
        match receipt_of(storage@.receipts, hash@) {
            Some(row) => r.success && r.err_msg@.len() == 0 && r.receipt@ == row,
            None => !r.success && r.err_msg@ == ServiceErrorView::not_found().text() && r.receipt.is_zero(),
        },
{
    FdbTransactionReceiptResult::from(storage.get_transaction_receipt(hash))
}

/// The slot of the five key fields.
pub fn get_metadata(storage: &Storage, data_key: String, meta_contract_id: String, public_key: String, alias: String, version: String) -> (r: FdbMetadataResult)
    ensures
        match slot(storage@.metadatas, slot_key(data_key@, meta_contract_id@, public_key@, alias@, version@)) {
            Some(row) => r.success && r.err_msg@.len() == 0 && r.metadata@ == row,
            None => !r.success && r.err_msg@ == ServiceErrorView::not_found().text() && r.metadata.is_zero(),
        },
{
    FdbMetadataResult::from(storage.get_owner_metadata(data_key, meta_contract_id, public_key, alias, version))
}

/// The binding of a token key.
pub fn get_meta_contract(storage: &Storage, token_key: String) -> (r: FdbMetaContractResult)
    ensures
        match binding_of(storage@.meta_contracts, token_key@) {
            Some(row) => r.success && r.err_msg@.len() == 0 && r.meta@ == row,
            None => !r.success && r.err_msg@ == ServiceErrorView::not_found().text() && r.meta.is_zero(),
        },
{
    FdbMetaContractResult::from(storage.get_meta_contract_by_tokenkey(token_key))
}

/// The first binding to a meta contract.
pub fn get_meta_contract_by_id(storage: &Storage, meta_contract_id: String) -> (r: FdbMetaContractResult)
    ensures
        match first::<MetaContract, MetaContractKey>(storage@.meta_contracts, MetaContractKeyView::Id(meta_contract_id@)) {
            Some(row) => r.success && r.err_msg@.len() == 0 && r.meta@ == row,
            None => !r.success && r.err_msg@ == ServiceErrorView::not_found().text() && r.meta.is_zero(),
        },
{
    FdbMetaContractResult::from(storage.get_meta_contract_by_id(meta_contract_id))
}

/// The event of an outside transaction for an address, chain and topic.
pub fn get_cron_tx_by_tx_hash(storage: &Storage, tx_hash: String, address: String, chain: String, topic: String) -> (r: FdbCronTxResult)
    ensures
        match first::<CronTx, CronTxKey>(storage@.cron_txs, (CronTxKeyView::TxHash { tx_hash: tx_hash@, address: address@, chain: chain@, topic: topic@ })) {
            Some(row) => r.success && r.err_msg@.len() == 0 && r.cron_tx@ == row,
            None => !r.success && r.err_msg@ == ServiceErrorView::not_found().text() && r.cron_tx.is_zero(),
        },
{
    FdbCronTxResult::from(storage.get_cron_tx_by_tx_hash(tx_hash, address, chain, topic))
}

/// The slots of a data key in a version.
pub fn get_metadatas(storage: &Storage, data_key: String, version: String) -> (r: FdbMetadatasResult)
    ensures
        r.success,
        r.err_msg@.len() == 0,
        views(r.metadatas@) == selected::<Metadata, MetadataKey>(storage@.metadatas, (MetadataKeyView::DataKeyVersion { data_key: data_key@, version: version@ })),
{
    FdbMetadatasResult::from(storage.get_metadata_by_datakey_and_version(data_key, version))
}

/// The slots of a token in a version.
pub fn get_metadatas_by_tokenkey(storage: &Storage, token_key: String, token_id: String, version: String) -> (r: FdbMetadatasResult)
    ensures
        r.success,
        r.err_msg@.len() == 0,
        views(r.metadatas@) == selected::<Metadata, MetadataKey>(storage@.metadatas, (MetadataKeyView::TokenKeyTokenId { token_key: token_key@, token_id: token_id@, version: version@ })),
{
    FdbMetadatasResult::from(storage.get_metadata_by_tokenkey_and_tokenid(token_key, token_id, version))
}

/// The transactions that wait for their finalisation.
pub fn get_pending_transactions(storage: &Storage) -> (r: FdbTransactionsResult)
    ensures
        r.success,
        r.err_msg@.len() == 0,
        views(r.transactions@) == selected::<Transaction, TransactionKey>(storage@.transactions, TransactionKeyView::Status(STATUS_PENDING)),
{
    FdbTransactionsResult::from(storage.get_pending_transactions())
}

/// The events for an address, chain and topic.
pub fn search_cron_tx(storage: &Storage, address: String, chain: String, topic: String) -> (r: FdbCronTxsResult)
    ensures
        r.success,
        r.err_msg@.len() == 0,
        views(r.cron_txs@) == selected::<CronTx, CronTxKey>(storage@.cron_txs, (CronTxKeyView::Rule { address: address@, chain: chain@, topic: topic@ })),
{
    FdbCronTxsResult::from(storage.search_cron_tx(address, chain, topic))
}

/// The span of time that a query for done transactions covers: up to
/// `to`, or up to `now` where `to` is zero.
pub open spec fn span_end(to: i64, now: i64) -> i64 {
    if to == 0 {
        now
    } else {
        to
    }
}

/// The transactions that are done and were submitted between `from` and
/// `to`, both included; `to` zero stands for `now`.
pub fn get_complete_transactions(storage: &Storage, from: i64, to: i64, now: i64) -> (r: FdbTransactionsResult)
    ensures
        r.success,
        r.err_msg@.len() == 0,
        views(r.transactions@) == selected::<Transaction, TransactionKey>(
            storage@.transactions,
            (TransactionKeyView::Complete { from, to: span_end(to, now) }),
        ),
{
    let ts = if to == 0 {
        now
    } else {
        to
    };
    FdbTransactionsResult::from(storage.get_complete_transactions(from, ts))
}

/// Hands out rules: each without its count of processed blocks.
pub fn hand_out(rows: Vec<Cron>) -> (out: Vec<CronResult>)
    ensures
        views(out@) == views(rows@).map_values(|c: CronView| handed_out(c)),
{
    let mut out: Vec<CronResult> = Vec::new();
    let mut i: usize = 0;
    while i < rows.len()
        invariant
            i <= rows.len(),
            out@.len() == i,
            forall|k: int| 0 <= k < i ==> (#[trigger] out@[k])@ == handed_out(rows@[k]@),
        decreases rows.len() - i,
    {
        out.push(rows[i].to_result());
        i += 1;
    }
    assert(views(out@) =~= views(rows@).map_values(|c: CronView| handed_out(c)));
    out
}

/// The rules that are enabled.
pub fn get_active_crons(storage: &Storage) -> (r: FdbCronsResult)
    ensures
        r.success,
        r.err_msg@.len() == 0,
        views(r.crons@) == selected::<Cron, CronKey>(
            storage@.crons,
            CronKeyView::Status(CRON_STATUS_ENABLE),
        ).map_values(|c: CronView| handed_out(c)),
{
    match storage.get_enabled_crons() {
        Ok(rows) => FdbCronsResult::from(Ok(hand_out(rows))),
        Err(e) => FdbCronsResult::from(Err(e)),
    }
}

/// All rules.
pub fn get_all_crons(storage: &Storage) -> (r: FdbCronsResult)
    ensures
        r.success,
        r.err_msg@.len() == 0,
        views(r.crons@) == storage@.crons.map_values(|c: CronView| handed_out(c)),
{
    match storage.get_all_crons() {
        Ok(rows) => FdbCronsResult::from(Ok(hand_out(rows))),
        Err(e) => FdbCronsResult::from(Err(e)),
    }
}

/// The highest block number of the events for an address, chain and
/// topic; zero where there is no event.
pub fn get_cron_tx_latest_block(storage: &Storage, address: String, chain: String, topic: String) -> (block:
    u64)
    ensures
        block == match latest(
            storage@.cron_txs,
            (CronTxKeyView::Rule { address: address@, chain: chain@, topic: topic@ }),
        ) {
            Some(event) => event.tx_block_number,
            None => 0,
        },
{
    match storage.get_cron_tx_latest_block(address, chain, topic) {
        Ok(event) => event.tx_block_number,
        Err(_) => 0,
    }
}

/// Computes the key of a token collection.
pub fn generate_token_key(chain_id: String, token_address: String) -> (key: String)
    ensures
        key@ == Metadata::token_key_of(chain_id@, token_address@),
{
    Metadata::generate_token_key(chain_id, token_address)
}

/// Computes the key of one token.
pub fn generate_data_key(chain_id: String, token_address: String, token_id: String) -> (key: String)
    ensures
        key@ == Metadata::data_key_of(chain_id@, token_address@, token_id@),
{
    Metadata::generate_data_key(chain_id, token_address, token_id)
}

/// The fork request in `parsed`; a request of empty fields, for the
/// token zero, where nothing could be read.
pub fn deserialize_fork(parsed: Option<SerdeDataTypeFork>) -> (r: DataTypeFork)
    ensures
        match parsed {
            Some(fork) => {
                &&& match fork.data {
                    Some(d) => r.data == d,
                    None => r.data@.len() == 0,
                }
                &&& match fork.token_id {
                    Some(t) => r.token_id@ == crate::text::decimal(t as nat),
                    None => r.token_id@ == crate::text::decimal(0),
                }
                &&& match fork.to {
                    Some(a) => r.address == a,
                    None => r.address@.len() == 0,
                }
            },
            None => r.data@.len() == 0 && r.token_id@ == crate::text::decimal(0) && r.address@.len()
                == 0,
        },
{
    match parsed {
        Some(fork) => DataTypeFork::from(fork),
        None => DataTypeFork::from(SerdeDataTypeFork { data: None, to: None, token_id: None }),
    }
}

/// The event record of an outside transaction that matched `rule`.
pub open spec fn event_for(
    rule: CronView,
    data: Seq<char>,
    tx_block_number: u64,
    tx_hash: Seq<char>,
    token_id: Seq<char>,
    timestamp: u64,
) -> CronTxView {
    CronTxView {
        hash: CronTx::identity(
            rule.address,
            rule.topic,
            rule.token_type,
            rule.chain,
            tx_block_number,
            tx_hash,
            token_id,
        ),
        address: rule.address,
        topic: rule.topic,
        token_type: rule.token_type,
        chain: rule.chain,
        meta_contract_id: rule.meta_contract_id,
        timestamp,
        tx_block_number,
        tx_hash,
        status: CRON_TX_STATUS_SUCCESS,
        data,
        error_text: Seq::empty(),
        token_id,
        data_key: Metadata::data_key_of(rule.chain, rule.address, token_id),
        token_key: rule.token_key,
    }
}

/// The event that is on record for an outside transaction and `rule`,
/// unless it records a failure.
pub open spec fn settled(s: StorageView, rule: CronView, tx_hash: Seq<char>) -> Option<CronTxView> {
    match first::<CronTx, CronTxKey>(
        s.cron_txs,
        (CronTxKeyView::TxHash { tx_hash, address: rule.address, chain: rule.chain, topic: rule.topic }),
    ) {
        Some(event) => if event.status == CRON_TX_STATUS_FAILED {
            None
        } else {
            Some(event)
        },
        None => None,
    }
}

/// The store after an event was reported for the rule `hash`: the event
/// is recorded unless it is settled already, or there is no such rule.
pub open spec fn cron_tx_sent(
    s: StorageView,
    hash: Seq<char>,
    data: Seq<char>,
    tx_block_number: u64,
    tx_hash: Seq<char>,
    token_id: Seq<char>,
    timestamp: u64,
) -> StorageView {
    match rule_of(s.crons, hash) {
        Some(rule) => if settled(s, rule, tx_hash) is Some {
            s
        } else {
            StorageView {
                cron_txs: with_event(
                    s.cron_txs,
                    event_for(rule, data, tx_block_number, tx_hash, token_id, timestamp),
                ),
                ..s
            }
        },
        None => s,
    }
}

/// Reports an outside event for the rule `hash`. The event is recorded
/// once: a second report answers the record of the first, unless that
/// records a failure, which the new record replaces. Where there is no
/// such rule nothing is recorded and the answer holds a record of empty
/// fields.
pub fn send_cron_tx(
    storage: &mut Storage,
    hash: String,
    data: String,
    tx_block_number: u64,
    tx_hash: String,
    token_id: String,
    timestamp: u64,
) -> (r: FdbCronTxResult)
    requires
        old(storage).wf(),
    ensures
        final(storage).wf(),
        final(storage)@ == cron_tx_sent(
            old(storage)@,
            hash@,
            data@,
            tx_block_number,
            tx_hash@,
            token_id@,
            timestamp,
        ),
        r.success,
        r.err_msg@.len() == 0,
        match rule_of(old(storage)@.crons, hash@) {
            Some(rule) => r.cron_tx@ == match settled(old(storage)@, rule, tx_hash@) {
                Some(event) => event,
                None => event_for(rule, data@, tx_block_number, tx_hash@, token_id@, timestamp),
            },
            None => r.cron_tx.is_zero(),
        },
{
    let rule = match storage.get_cron_by_hash(hash) {
        Ok(rule) => rule,
        Err(_) => {
            return FdbCronTxResult { success: true, err_msg: String::new(), cron_tx: CronTx::default() };
        },
    };
    let known = storage.get_cron_tx_by_tx_hash(
        tx_hash.clone(),
        rule.address.clone(),
        rule.chain.clone(),
        rule.topic.clone(),
    );
    match known {
        Ok(event) => {
            if event.status != CRON_TX_STATUS_FAILED {
                return FdbCronTxResult { success: true, err_msg: String::new(), cron_tx: event };
            }
        },
        Err(_) => {},
    }
    let data_key = Metadata::generate_data_key(rule.chain.clone(), rule.address.clone(), token_id.clone());
    let event = CronTx::new(
        rule.address,
        rule.topic,
        rule.token_type,
        rule.chain,
        rule.meta_contract_id,
        timestamp,
        tx_block_number,
        tx_hash,
        CRON_TX_STATUS_SUCCESS,
        data,
        String::new(),
        token_id,
        data_key,
        rule.token_key,
    );
    let _ = storage.write_cron_tx(event.clone());
    FdbCronTxResult { success: true, err_msg: String::new(), cron_tx: event }
}

/// The JSON texts of blocks.
pub open spec fn texts_of(blocks: Seq<BlockView>) -> Seq<Seq<char>> {
    blocks.map_values(|b: BlockView| block_json(b))
}

/// Reads the chain of the slot of the five key fields, newest block
/// first, and stops after `limit` blocks.
pub fn read_metadata_history(
    storage: &Storage,
    dag: &Dag,
    data_key: String,
    meta_contract_id: String,
    public_key: String,
    alias: String,
    version: String,
    limit: usize,
) -> (r: Result<Vec<Block>, ServiceError>)
    requires
        dag.wf(),
    ensures
        match slot(storage@.metadatas, slot_key(data_key@, meta_contract_id@, public_key@, alias@, version@)) {
            Some(m) => r is Ok && views(r->Ok_0@) == history(dag@, m.cid, limit as nat),
            None => r is Err && r->Err_0@ == ServiceErrorView::not_found(),
        },
{
    match storage.get_owner_metadata(data_key, meta_contract_id, public_key, alias, version) {
        Ok(m) => {
            let blocks = dag.read_history(&m.cid, limit);
            assert(views(blocks@) =~= blocks@.map_values(|b: Block| b@));
            Ok(blocks)
        },
        Err(e) => Err(e),
    }
}

/// Writes blocks as JSON texts.
pub fn to_texts(blocks: &Vec<Block>) -> (texts: Vec<String>)
    ensures
        views(texts@) == texts_of(views(blocks@)),
{
    let mut texts: Vec<String> = Vec::new();
    let mut i: usize = 0;
    while i < blocks.len()
        invariant
            i <= blocks.len(),
            texts@.len() == i,
            forall|k: int| 0 <= k < i ==> (#[trigger] texts@[k])@ == block_json(blocks@[k]@),
        decreases blocks.len() - i,
    {
        texts.push(blocks[i].to_json());
        i += 1;
    }
    assert(views(texts@) =~= texts_of(views(blocks@)));
    texts
}

/// The whole chain of the slot of the five key fields: its newest block
/// as the current content, and the blocks before it, newest first, as
/// the history, each as JSON text.
pub fn get_metadata_with_history(
    storage: &Storage,
    dag: &Dag,
    data_key: String,
    meta_contract_id: String,
    public_key: String,
    alias: String,
    version: String,
) -> (r: FdbMetadataHistoryResult)
    requires
        dag.wf(),
    ensures
        match slot(storage@.metadatas, slot_key(data_key@, meta_contract_id@, public_key@, alias@, version@)) {
            Some(m) => {
                let texts = texts_of(chain(dag@, m.cid));
                &&& r.success
                &&& r.err_msg@.len() == 0
                &&& if texts.len() > 0 {
                    r.metadata@ == texts[0] && views(r.history@) == texts.subrange(1, texts.len() as int)
                } else {
                    r.metadata@ == "{}"@ && r.history@.len() == 0
                }
            },
            None => !r.success && r.err_msg@ == ServiceErrorView::not_found().text() && r.metadata@
                == "{}"@ && r.history@.len() == 0,
        },
{
    let read = read_metadata_history(
        storage,
        dag,
        data_key,
        meta_contract_id,
        public_key,
        alias,
        version,
        dag.len(),
    );
    match read {
        Ok(blocks) => {
            let texts = to_texts(&blocks);
            let ghost all = texts@;
            let r = FdbMetadataHistoryResult::from(Ok(texts));
            proof {
                if all.len() > 0 {
                    assert(views(r.history@) =~= views(all).subrange(1, all.len() as int));
                }
            }
            r
        },
        Err(e) => FdbMetadataHistoryResult::from(Err(e)),
    }
}

/// The slots that meet every condition of `query`, in the order that
/// `ordering` asks for, cut to the window of `from` and `to`; the message
/// of the error and no slots where the search asks for what the table
/// does not offer.
pub fn search_metadatas(
    storage: &Storage,
    query: Vec<MetadataQuery>,
    ordering: Vec<MetadataOrdering>,
    from: u32,
    to: u32,
) -> (r: FdbMetadatasResult)
    ensures
        match metadatas_found(storage@.metadatas, query@, ordering@, from, to) {
            Some(rows) => r.success && r.err_msg@.len() == 0 && views(r.metadatas@) == rows,
            None => !r.success && r.err_msg@ == unsupported().text() && r.metadatas@.len() == 0,
        },
{
    FdbMetadatasResult::from(storage.search_metadatas(query, ordering, from, to))
}

/// The transactions that meet every condition of `query`, in the order
/// that `ordering` asks for or, without one, the newest first, cut to the
/// window of `from` and `to`; the message of the error and no
/// transactions where the search asks for what the table does not offer.
pub fn get_transactions(
    storage: &Storage,
    query: Vec<TransactionQuery>,
    ordering: Vec<TransactionOrdering>,
    from: u32,
    to: u32,
) -> (r: FdbTransactionsResult)
    ensures
        match transactions_found(storage@.transactions, query@, ordering@, from, to) {
            Some(rows) => r.success && r.err_msg@.len() == 0 && views(r.transactions@) == rows,
            None => !r.success && r.err_msg@ == unsupported().text() && r.transactions@.len() == 0,
        },
{
    FdbTransactionsResult::from(storage.get_transactions(query, ordering, from, to))
}

/// All events, the newest first.
pub fn get_all_cron_txs(storage: &Storage) -> (r: FdbCronTxsResult)
    ensures
        r.success,
        r.err_msg@.len() == 0,
        views(r.cron_txs@) == newest_first::<CronTx>(storage@.cron_txs),
{
    FdbCronTxsResult::from(storage.get_all_cron_txs())
}

/// The store after the submissions were published, one after the other.
pub open spec fn published_all(
    s: StorageView,
    txs: Seq<(TransactionRequest, TransactionPayload)>,
    timestamp: u64,
) -> StorageView
    decreases txs.len(),
{
    if txs.len() == 0 {
        s
    } else {
        published(published_all(s, txs.drop_last(), timestamp), txs.last().0, txs.last().1, timestamp)
    }
}

/// Submits transactions one after the other and answers their hashes,
/// in the same order.
pub fn publish_batch(storage: &mut Storage, txs: &Vec<(TransactionRequest, TransactionPayload)>, timestamp: u64) -> (r:
    Vec<FdbResult>)
    requires
        old(storage).wf(),
    ensures
        final(storage).wf(),
        final(storage)@ == published_all(old(storage)@, txs@, timestamp),
        r@.len() == txs@.len(),
        forall|i: int|
            0 <= i < txs@.len() ==> (#[trigger] r@[i]).transaction_hash@ == submitted(
                published_all(old(storage)@, txs@.take(i), timestamp),
                txs@[i].0,
                txs@[i].1,
                timestamp,
            ).hash,
{
    let mut results: Vec<FdbResult> = Vec::new();
    let mut i: usize = 0;
    while i < txs.len()
        invariant
            i <= txs.len(),
            storage.wf(),
            storage@ == published_all(old(storage)@, txs@.take(i as int), timestamp),
            results@.len() == i,
            forall|k: int|
                0 <= k < i ==> (#[trigger] results@[k]).transaction_hash@ == submitted(
                    published_all(old(storage)@, txs@.take(k), timestamp),
                    txs@[k].0,
                    txs@[k].1,
                    timestamp,
                ).hash,
        decreases txs.len() - i,
    {
        proof {
            assert(txs@.take(i + 1).drop_last() =~= txs@.take(i as int));
            assert(txs@.take(i + 1).last() == txs@[i as int]);
        }
        let result = publish(storage, txs[i].0.clone(), txs[i].1.clone(), timestamp);
        results.push(result);
        i += 1;
    }
    assert(txs@.take(i as int) =~= txs@);
    results
}

/// Finalises a contract transaction: see `validate_meta_contract`.
pub fn bind_meta_contract(storage: &mut Storage, transaction_hash: String, timestamp: u64) -> (r: Result<
    TransactionReceipt,
    ServiceError,
>)
    requires
        old(storage).wf(),
    ensures
        final(storage).wf(),
        final(storage)@ == meta_contract_validated(old(storage)@, transaction_hash@, timestamp),
        answer_of(r) == answer_for(
            old(storage)@,
            transaction_hash@,
            meta_contract_failure(old(storage)@, transaction_hash@),
            timestamp,
        ),
{
    validate_meta_contract(storage, transaction_hash, timestamp)
}

/// Finalises a metadata transaction: see `validate_metadata`.
pub fn set_metadata(
    storage: &mut Storage,
    dag: &mut Dag,
    transaction_hash: String,
    meta_contract_id: String,
    on_metacontract_result: bool,
    metadatas: Vec<FinalMetadata>,
    final_error_msg: String,
    options: Option<SerdeMetadata>,
    timestamp: u64,
) -> (r: Result<TransactionReceipt, ServiceError>)
    requires
        old(storage).wf(),
        old(dag).wf(),
    ensures
        final(storage).wf(),
        final(dag).wf(),
        ({
            let after = metadata_validated(
                old(storage)@,
                old(dag)@,
                transaction_hash@,
                meta_contract_id@,
                on_metacontract_result,
                metadatas@,
                final_error_msg@,
                options,
                timestamp,
            );
            &&& final(storage)@ == after.storage
            &&& final(dag)@ == after.dag
            &&& answer_of(r) == answer_for(old(storage)@, transaction_hash@, after.error, timestamp)
        }),
{
    validate_metadata(
        storage,
        dag,
        transaction_hash,
        meta_contract_id,
        on_metacontract_result,
        metadatas,
        final_error_msg,
        options,
        timestamp,
    )
}

/// Finalises the metadata of a cron event: see `validate_metadata_cron`.
pub fn set_metadata_cron(
    storage: &mut Storage,
    dag: &mut Dag,
    meta_contract: MetaContract,
    cron: Cron,
    token_id: String,
    on_metacontract_result: bool,
    metadatas: Vec<FinalMetadata>,
    timestamp: u64,
) -> (r: FdbMetadatasResult)
    requires
        old(storage).wf(),
        old(dag).wf(),
    ensures
        final(storage).wf(),
        final(dag).wf(),
        ({
            let after = metadata_cron_validated(
                old(storage)@,
                old(dag)@,
                meta_contract,
                cron,
                token_id@,
                on_metacontract_result,
                metadatas@,
                timestamp,
            );
            &&& final(storage)@ == after.storage
            &&& final(dag)@ == after.dag
            &&& r.success == on_metacontract_result
            &&& r.err_msg@ == after.error
            &&& views(r.metadatas@) == after.slots
        }),
{
    validate_metadata_cron(
        storage,
        dag,
        meta_contract,
        cron,
        token_id,
        on_metacontract_result,
        metadatas,
        timestamp,
    )
}

/// Finalises a clone transaction: see `validate_clone`.
pub fn set_clone(
    storage: &mut Storage,
    dag: &mut Dag,
    transaction_hash: String,
    meta_contract_id: String,
    on_metacontract_result: bool,
    data: Option<DataTypeClone>,
    final_error_msg: String,
    timestamp: u64,
) -> (r: Result<TransactionReceipt, ServiceError>)
    requires
        old(storage).wf(),
        old(dag).wf(),
    ensures
        final(storage).wf(),
        final(dag).wf(),
        ({
            let after = clone_validated(
                old(storage)@,
                old(dag)@,
                transaction_hash@,
                meta_contract_id@,
                on_metacontract_result,
                data,
                final_error_msg@,
                timestamp,
            );
            &&& final(storage)@ == after.storage
            &&& final(dag)@ == after.dag
            &&& answer_of(r) == answer_for(old(storage)@, transaction_hash@, after.error, timestamp)
        }),
{
    validate_clone(
        storage,
        dag,
        transaction_hash,
        meta_contract_id,
        on_metacontract_result,
        data,
        final_error_msg,
        timestamp,
    )
}

/// Finalises a cron transaction: see `validate_cron`.
pub fn set_cron(storage: &mut Storage, transaction_hash: String, payload: Option<SerdeCron>, timestamp: u64) -> (r:
    Result<TransactionReceipt, ServiceError>)
    requires
        old(storage).wf(),
    ensures
        final(storage).wf(),
        final(storage)@ == cron_validated(old(storage)@, transaction_hash@, payload, timestamp),
        answer_of(r) == answer_for(
            old(storage)@,
            transaction_hash@,
            cron_failure(old(storage)@, transaction_hash@, payload),
            timestamp,
        ),
{
    validate_cron(storage, transaction_hash, payload, timestamp)
}

} // verus!
