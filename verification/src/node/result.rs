//! The results that the node hands out: each with a success flag and an
//! error message beside its payload.

use vstd::prelude::*;
use vstd::string::*;
use crate::node::cron::CronResult;
use crate::node::cron_tx::CronTx;
use crate::node::error::ServiceError;
use crate::node::meta_contract::MetaContract;
use crate::node::metadatas::Metadata;
use crate::node::transaction::{Transaction, TransactionReceipt};

verus! {

/// The answer to a submission: the hash under which it was recorded.
#[derive(Debug)]
pub struct FdbResult {
    pub transaction_hash: String,
}

/// The time of the node, in milliseconds.
#[derive(Debug)]
pub struct FdbClock {
    pub timestamp: i64,
}

/// A transaction, or why there is none.
#[derive(Debug)]
pub struct FdbTransactionResult {
    pub success: bool,
    pub err_msg: String,
    pub transaction: Transaction,
}

/// Transactions, or why there are none.
#[derive(Debug)]
pub struct FdbTransactionsResult {
    pub success: bool,
    pub err_msg: String,
    pub transactions: Vec<Transaction>,
}

/// A receipt, or why there is none.
#[derive(Debug)]
pub struct FdbTransactionReceiptResult {
    pub success: bool,
    pub err_msg: String,
    pub receipt: TransactionReceipt,
}

/// A slot, or why there is none.
#[derive(Debug)]
pub struct FdbMetadataResult {
    pub success: bool,
    pub err_msg: String,
    pub metadata: Metadata,
}

/// Slots, or why there are none.
#[derive(Debug)]
pub struct FdbMetadatasResult {
    pub success: bool,
    pub err_msg: String,
    pub metadatas: Vec<Metadata>,
}

/// The newest block of a slot and the blocks before it, newest first, each
/// as JSON text; or why there are none.
#[derive(Debug)]
pub struct FdbMetadataHistoryResult {
    pub success: bool,
    pub err_msg: String,
    pub metadata: String,
    pub history: Vec<String>,
}

/// A binding, or why there is none.
#[derive(Debug)]
pub struct FdbMetaContractResult {
    pub success: bool,
    pub err_msg: String,
    pub meta: MetaContract,
}

/// Rules, or why there are none.
#[derive(Debug)]
pub struct FdbCronsResult {
    pub success: bool,
    pub err_msg: String,
    pub crons: Vec<CronResult>,
}

/// Events, or why there are none.
#[derive(Debug)]
pub struct FdbCronTxsResult {
    pub success: bool,
    pub err_msg: String,
    pub cron_txs: Vec<CronTx>,
}

/// An event, or why there is none.
#[derive(Debug)]
pub struct FdbCronTxResult {
    pub success: bool,
    pub err_msg: String,
    pub cron_tx: CronTx,
}

impl FdbTransactionResult {
    /// The record of a query: the transaction on success, the message of
    /// the error and a record of empty fields on failure.
    pub fn from(result: Result<Transaction, ServiceError>) -> (r: Self)
        ensures
            match result {
                Ok(row) => r.success && r.err_msg@.len() == 0 && r.transaction == row,
                Err(err) => !r.success && r.err_msg@ == err.text() && r.transaction.is_zero(),
            },
    {
        match result {
            Ok(transaction) => Self { success: true, err_msg: String::new(), transaction },
            Err(err) => Self {
                success: false,
                err_msg: err.to_string(),
                transaction: Transaction::default(),
            },
        }
    }
}

impl FdbTransactionsResult {
    /// The record of a query: the transactions on success, the message of
    /// the error and no transactions on failure.
    pub fn from(result: Result<Vec<Transaction>, ServiceError>) -> (r: Self)
        ensures
            match result {
                Ok(rows) => r.success && r.err_msg@.len() == 0 && r.transactions == rows,
                Err(err) => !r.success && r.err_msg@ == err.text() && r.transactions@.len() == 0,
            },
    {
        match result {
            Ok(transactions) => Self { success: true, err_msg: String::new(), transactions },
            Err(err) => Self { success: false, err_msg: err.to_string(), transactions: Vec::new() },
        }
    }
}

impl FdbTransactionReceiptResult {
    /// The record of a query: the receipt on success, the message of the
    /// error and a record of empty fields on failure.
    pub fn from(result: Result<TransactionReceipt, ServiceError>) -> (r: Self)
        ensures
            match result {
                Ok(row) => r.success && r.err_msg@.len() == 0 && r.receipt == row,
                Err(err) => !r.success && r.err_msg@ == err.text() && r.receipt.is_zero(),
            },
    {
        match result {
            Ok(receipt) => Self { success: true, err_msg: String::new(), receipt },
            Err(err) => Self {
                success: false,
                err_msg: err.to_string(),
                receipt: TransactionReceipt::default(),
            },
        }
    }
}

impl FdbMetadataResult {
    /// The record of a query: the slot on success, the message of the
    /// error and a record of empty fields on failure.
    pub fn from(result: Result<Metadata, ServiceError>) -> (r: Self)
        ensures
            match result {
                Ok(row) => r.success && r.err_msg@.len() == 0 && r.metadata == row,
                Err(err) => !r.success && r.err_msg@ == err.text() && r.metadata.is_zero(),
            },
    {
        match result {
            Ok(metadata) => Self { success: true, err_msg: String::new(), metadata },
            Err(err) => Self { success: false, err_msg: err.to_string(), metadata: Metadata::default() },
        }
    }
}

impl FdbMetadatasResult {
    /// The record of a query: the slots on success, the message of the
    /// error and no slots on failure.
    pub fn from(result: Result<Vec<Metadata>, ServiceError>) -> (r: Self)
        ensures
            match result {
                Ok(rows) => r.success && r.err_msg@.len() == 0 && r.metadatas == rows,
                Err(err) => !r.success && r.err_msg@ == err.text() && r.metadatas@.len() == 0,
            },
    {
        match result {
            Ok(metadatas) => Self { success: true, err_msg: String::new(), metadatas },
            Err(err) => Self { success: false, err_msg: err.to_string(), metadatas: Vec::new() },
        }
    }
}

impl FdbMetadataHistoryResult {
    /// The record of a chain that was read, newest block first: its first
    /// block as the current content and the rest as the history. A chain
    /// without a block, like a failure, has `{}` for its content.
    pub fn from(result: Result<Vec<String>, ServiceError>) -> (r: Self)
        ensures
            match result {
                Ok(blocks) => r.success && r.err_msg@.len() == 0 && if blocks@.len() > 0 {
                    r.metadata == blocks@[0] && r.history@ == blocks@.subrange(
                        1,
                        blocks@.len() as int,
                    )
                } else {
                    r.metadata@ == "{}"@ && r.history@.len() == 0
                },
                Err(err) => !r.success && r.err_msg@ == err.text() && r.metadata@ == "{}"@
                    && r.history@.len() == 0,
            },
    {
        match result {
            Ok(blocks) => {
                let mut blocks = blocks;
                if blocks.len() > 0 {
                    let ghost all = blocks@;
                    let metadata = blocks.remove(0);
                    assert(blocks@ =~= all.subrange(1, all.len() as int));
                    Self { success: true, err_msg: String::new(), metadata, history: blocks }
                } else {
                    Self {
                        success: true,
                        err_msg: String::new(),
                        metadata: String::from_str("{}"),
                        history: Vec::new(),
                    }
                }
            },
            Err(err) => Self {
                success: false,
                err_msg: err.to_string(),
                metadata: String::from_str("{}"),
                history: Vec::new(),
            },
        }
    }
}

impl FdbMetaContractResult {
    /// The record of a query: the binding on success, the message of the
    /// error and a record of empty fields on failure.
    pub fn from(result: Result<MetaContract, ServiceError>) -> (r: Self)
        ensures
            match result {
                Ok(row) => r.success && r.err_msg@.len() == 0 && r.meta == row,
                Err(err) => !r.success && r.err_msg@ == err.text() && r.meta.is_zero(),
            },
    {
        match result {
            Ok(meta) => Self { success: true, err_msg: String::new(), meta },
            Err(err) => Self { success: false, err_msg: err.to_string(), meta: MetaContract::default() },
        }
    }
}

impl FdbCronsResult {
    /// The record of a query: the rules on success, the message of the
    /// error and no rules on failure.
    pub fn from(result: Result<Vec<CronResult>, ServiceError>) -> (r: Self)
        ensures
            match result {
                Ok(rows) => r.success && r.err_msg@.len() == 0 && r.crons == rows,
                Err(err) => !r.success && r.err_msg@ == err.text() && r.crons@.len() == 0,
            },
    {
        match result {
            Ok(crons) => Self { success: true, err_msg: String::new(), crons },
            Err(err) => Self { success: false, err_msg: err.to_string(), crons: Vec::new() },
        }
    }
}

impl FdbCronTxsResult {
    /// The record of a query: the events on success, the message of the
    /// error and no events on failure.
    pub fn from(result: Result<Vec<CronTx>, ServiceError>) -> (r: Self)
        ensures
            match result {
                Ok(rows) => r.success && r.err_msg@.len() == 0 && r.cron_txs == rows,
                Err(err) => !r.success && r.err_msg@ == err.text() && r.cron_txs@.len() == 0,
            },
    {
        match result {
            Ok(cron_txs) => Self { success: true, err_msg: String::new(), cron_txs },
            Err(err) => Self { success: false, err_msg: err.to_string(), cron_txs: Vec::new() },
        }
    }
}

impl FdbCronTxResult {
    /// The record of a query: the event on success, the message of the
    /// error and a record of empty fields on failure.
    pub fn from(result: Result<CronTx, ServiceError>) -> (r: Self)
        ensures
            match result {
                Ok(row) => r.success && r.err_msg@.len() == 0 && r.cron_tx == row,
                Err(err) => !r.success && r.err_msg@ == err.text() && r.cron_tx.is_zero(),
            },
    {
        match result {
            Ok(cron_tx) => Self { success: true, err_msg: String::new(), cron_tx },
            Err(err) => Self { success: false, err_msg: err.to_string(), cron_tx: CronTx::default() },
        }
    }
}

} // verus!
