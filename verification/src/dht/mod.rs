//! The key table: an earlier, smaller registry with one entry for each
//! data key. Its functions decide; the caller reads the store before and
//! writes to it after.

use vstd::prelude::*;
use vstd::string::*;
use crate::crypto::{verify, verify_spec, CryptoError};
use crate::dht::defaults::{STATUS_FAILED, STATUS_PENDING, STATUS_SUCCESS};
use crate::dht::error::ServiceError;
use crate::dht::meta_contract::MetaContract;
use crate::dht::metadatas::Metadata;
use crate::dht::transaction::Transaction;
use crate::text::{is_text, signed_decimal, signed_decimal_string};

pub mod defaults;
pub mod error;
pub mod meta_contract;
pub mod metadatas;
pub mod record;
pub mod result;
pub mod transaction;

verus! {

/// Runs `func` and hands on what it gives.
pub fn wrapped_try<F, T>(func: F) -> (r: T) where F: FnOnce() -> T
    requires
        func.requires(()),
    ensures
        func.ensures((), r),
{
    func()
}

/// A submission to the key table, and where it comes from.
pub struct Submission {
    pub data_key: String,
    pub token_key: String,
    pub alias: String,
    pub public_key: String,
    pub signature: String,
    pub data: String,
    pub enc: String,
    pub method: String,
    pub nonce: i64,
    pub from_peer_id: String,
    pub host_id: String,
    pub timestamp: u64,
}

/// The signature scheme that a submission is verified under: the scheme
/// of the entry for an update, the scheme that it names for a creation.
pub open spec fn scheme_for(s: Submission, stored: Result<Metadata, ServiceError>) -> Seq<char> {
    if s.method@ == "update"@ {
        match stored {
            Ok(m) => m.enc@,
            Err(_) => Seq::empty(),
        }
    } else if s.method@ == "create"@ {
        s.enc@
    } else {
        Seq::empty()
    }
}

/// The service that a submission is recorded with: the service of the
/// entry for an update, the payload for a creation.
pub open spec fn service_for(s: Submission, stored: Result<Metadata, ServiceError>) -> Seq<char> {
    if s.method@ == "update"@ {
        match stored {
            Ok(m) => m.service_id@,
            Err(_) => Seq::empty(),
        }
    } else if s.method@ == "create"@ {
        s.data@
    } else {
        Seq::empty()
    }
}

/// The message of the error that a submission is rejected with, if it is
/// rejected: an unknown method, an entry that is missing or owned by
/// another key, a scheme that is missing or unknown, or a signature that
/// does not match or cannot be read.
pub open spec fn rejection(s: Submission, stored: Result<Metadata, ServiceError>) -> Option<Seq<char>> {
    let enc = scheme_for(s, stored);
    if s.method@ != "create"@ && s.method@ != "update"@ {
        Some("Invalid method: "@ + ("invalid method: "@ + s.method@))
    } else if s.method@ == "update"@ && stored is Err {
        Some(stored->Err_0.text())
    } else if s.method@ == "update"@ && stored->Ok_0.public_key@ != s.public_key@ {
        Some("Invalid owner: "@ + ("not owner of data_key: "@ + s.public_key@))
    } else if enc.len() == 0 {
        Some("Does not specify encryption"@)
    } else if enc != "secp256k1"@ && enc != "ed25519"@ {
        Some("Not supported encryption: "@ + enc)
    } else if verify_spec(s.public_key@, s.signature@, s.data@, enc) == Ok::<bool, CryptoError>(true) {
        None
    } else {
        Some("Invalid signature: "@ + ("not owner of data_key: "@ + s.public_key@))
    }
}

/// Decides on a submission, given what the store holds for its data key,
/// and answers the transaction to record: pending where the submission
/// is accepted, failed with the message of the error where it is not.
pub fn send_transaction(s: Submission, stored: Result<Metadata, ServiceError>) -> (tx: Transaction)
    ensures
        tx.hash@ == Transaction::identity(
            s.token_key@,
            Seq::empty(),
            Seq::empty(),
            signed_decimal(s.nonce as int),
            s.from_peer_id@,
            s.host_id@,
            s.data_key@,
            s.data@,
            s.public_key@,
            s.alias@,
            scheme_for(s, stored),
            service_for(s, stored),
            s.method@,
        ),
        tx.token_address == s.token_key,
        tx.token_id@.len() == 0,
        tx.chain_id@.len() == 0,
        tx.version@ == signed_decimal(s.nonce as int),
        tx.from_peer_id == s.from_peer_id,
        tx.host_id == s.host_id,
        tx.data_key == s.data_key,
        tx.metadata == s.data,
        tx.public_key == s.public_key,
        tx.alias == s.alias,
        tx.timestamp == s.timestamp,
        tx.encryption_type@ == scheme_for(s, stored),
        tx.service_id@ == service_for(s, stored),
        tx.method == s.method,
        match rejection(s, stored) {
            Some(text) => tx.status == STATUS_FAILED && tx.error_text@ == text,
            None => tx.status == STATUS_PENDING && tx.error_text@.len() == 0,
        },
{
    let mut error: Option<ServiceError> = None;
    let mut enc_verify = String::new();
    let mut service_id = String::new();
    let is_create = is_text(&s.method, "create");
    let is_update = is_text(&s.method, "update");
    if !is_create && !is_update {
        error = Some(
            ServiceError::InvalidMethod(String::from_str("invalid method: ").concat(s.method.as_str())),
        );
    } else if is_update {
        match stored {
            Ok(m) => {
                if !(m.public_key == s.public_key) {
                    error = Some(
                        ServiceError::InvalidOwner(
                            String::from_str("not owner of data_key: ").concat(s.public_key.as_str()),
                        ),
                    );
                }
                enc_verify = m.enc;
                service_id = m.service_id;
            },
            Err(e) => {
                error = Some(e);
            },
        }
    } else {
        enc_verify = s.enc.clone();
        service_id = s.data.clone();
    }
    if error.is_none() {
        if enc_verify.as_str().is_empty() {
            error = Some(ServiceError::NoEncryptionType());
        } else if !is_text(&enc_verify, "secp256k1") && !is_text(&enc_verify, "ed25519") {
            error = Some(ServiceError::NotSupportedEncryptionType(enc_verify.clone()));
        }
    }
    if error.is_none() {
        let valid = verify(s.public_key.clone(), s.signature.clone(), s.data.clone(), enc_verify.clone());
        let accepted = match valid {
            Ok(v) => v,
            Err(_) => false,
        };
        if !accepted {
            error = Some(
                ServiceError::InvalidSignature(
                    String::from_str("not owner of data_key: ").concat(s.public_key.as_str()),
                ),
            );
        }
    }
    let mut tx = Transaction::new(
        s.token_key,
        String::new(),
        String::new(),
        signed_decimal_string(s.nonce),
        s.from_peer_id,
        s.host_id,
        s.data_key,
        s.data,
        s.public_key,
        s.alias,
        s.timestamp,
        enc_verify,
        service_id,
        s.method,
    );
    match error {
        Some(e) => {
            tx.error_text = e.to_string();
            tx.status = STATUS_FAILED;
        },
        None => {},
    }
    tx
}

/// What the store is asked to do for a binding.
pub enum BindAction {
    /// Nothing: the transaction failed.
    Nothing,
    /// Record a new binding.
    Write(MetaContract),
    /// Bind the token key to another service.
    Rebind { token_key: String, service_id: String },
}

/// The message of the error of a binding: the store failed, or the key is
/// bound already, and by another owner.
pub open spec fn bind_rejection(tx: Transaction, existing: Result<MetaContract, ServiceError>) -> Option<
    Seq<char>,
> {
    match existing {
        Ok(contract) => if tx.public_key@ != contract.public_key@ {
            Some("Invalid owner: "@ + tx.public_key@)
        } else {
            None
        },
        Err(ServiceError::RecordNotFound(_)) => None,
        Err(e) => Some(e.text()),
    }
}

/// Decides on the binding that a transaction asks for, given the binding
/// that its token key has: a new binding where there is none, another
/// service where the caller owns the binding, and a failure where another
/// key owns it. Answers what to do, and the status and the message to
/// record for the transaction.
pub fn bind_meta_contract(tx: &Transaction, existing: Result<MetaContract, ServiceError>) -> (r: (
    BindAction,
    i64,
    String,
))
    ensures
        match bind_rejection(*tx, existing) {
            Some(text) => r.0 is Nothing && r.1 == STATUS_FAILED && r.2@ == text,
            None => r.1 == STATUS_SUCCESS && r.2@.len() == 0 && match existing {
                Ok(_) => r.0 matches BindAction::Rebind { token_key, service_id } && token_key
                    == tx.token_address && service_id == tx.metadata,
                Err(_) => r.0 matches BindAction::Write(m) && m.token_key == tx.token_address
                    && m.service_id == tx.service_id && m.public_key == tx.public_key,
            },
        },
{
    match existing {
        Ok(contract) => {
            if !(tx.public_key == contract.public_key) {
                (
                    BindAction::Nothing,
                    STATUS_FAILED,
                    ServiceError::InvalidOwner(tx.public_key.clone()).to_string(),
                )
            } else {
                (
                    BindAction::Rebind {
                        token_key: tx.token_address.clone(),
                        service_id: tx.metadata.clone(),
                    },
                    STATUS_SUCCESS,
                    String::new(),
                )
            }
        },
        Err(ServiceError::RecordNotFound(_)) => {
            (
                BindAction::Write(
                    MetaContract {
                        token_key: tx.token_address.clone(),
                        service_id: tx.service_id.clone(),
                        public_key: tx.public_key.clone(),
                    },
                ),
                STATUS_SUCCESS,
                String::new(),
            )
        },
        Err(e) => (BindAction::Nothing, STATUS_FAILED, e.to_string()),
    }
}

/// Decides on the creation of an entry after the service answered: the
/// entry to record, pointing to the content `content_cid`, and the
/// transaction with its outcome. Where the service refused, there is no
/// entry and the transaction fails with the message of the service.
pub fn create_metadata(
    transaction: Transaction,
    on_create_result: bool,
    content_cid: String,
    on_create_error_msg: String,
) -> (r: (Option<Metadata>, Transaction))
    ensures
        r.1 == (Transaction {
            status: r.1.status,
            error_text: r.1.error_text,
            ..transaction
        }),
        if on_create_result {
            &&& r.1.status == STATUS_SUCCESS
            &&& r.1.error_text == transaction.error_text
            &&& r.0 is Some
            &&& r.0->0.data_key == transaction.data_key
            &&& r.0->0.alias == transaction.alias
            &&& r.0->0.cid == content_cid
            &&& r.0->0.public_key == transaction.public_key
            &&& r.0->0.enc == transaction.encryption_type
            &&& r.0->0.service_id == transaction.metadata
        } else {
            r.0 is None && r.1.status == STATUS_FAILED && r.1.error_text == on_create_error_msg
        },
{
    let mut transaction = transaction;
    if !on_create_result {
        transaction.status = STATUS_FAILED;
        transaction.error_text = on_create_error_msg;
        (None, transaction)
    } else {
        let metadata = Metadata::new(
            transaction.data_key.clone(),
            transaction.alias.clone(),
            content_cid,
            transaction.public_key.clone(),
            transaction.encryption_type.clone(),
            transaction.metadata.clone(),
        );
        transaction.status = STATUS_SUCCESS;
        (Some(metadata), transaction)
    }
}

/// Decides on the update of an entry after the service answered: the
/// entry with its pointer moved to `content_cid`, and the transaction
/// with its outcome. Where the service refused, or there is no entry,
/// nothing is to record but the failure of the transaction.
pub fn update_metadata(
    transaction: Transaction,
    on_update_result: bool,
    stored: Result<Metadata, ServiceError>,
    content_cid: String,
    on_update_error_msg: String,
) -> (r: (Option<Metadata>, Transaction))
    ensures
        r.1 == (Transaction {
            status: r.1.status,
            error_text: r.1.error_text,
            ..transaction
        }),
        if !on_update_result {
            r.0 is None && r.1.status == STATUS_FAILED && r.1.error_text == on_update_error_msg
        } else {
            match stored {
                Ok(m) => r.0 == Some((Metadata { cid: content_cid, ..m })) && r.1.status == STATUS_SUCCESS
                    && r.1.error_text == transaction.error_text,
                Err(e) => r.0 is None && r.1.status == STATUS_FAILED && r.1.error_text@ == e.text(),
            }
        },
{
    let mut transaction = transaction;
    if !on_update_result {
        transaction.status = STATUS_FAILED;
        transaction.error_text = on_update_error_msg;
        (None, transaction)
    } else {
        match stored {
            Ok(metadata) => {
                let mut meta = metadata;
                meta.cid = content_cid;
                transaction.status = STATUS_SUCCESS;
                (Some(meta), transaction)
            },
            Err(e) => {
                transaction.error_text = e.to_string();
                transaction.status = STATUS_FAILED;
                (None, transaction)
            },
        }
    }
}

} // verus!
