//! The results that the key table hands out.

use vstd::prelude::*;
use vstd::string::*;
use crate::dht::error::ServiceError;
use crate::dht::meta_contract::MetaContract;
use crate::dht::metadatas::Metadata;
use crate::dht::transaction::Transaction;

verus! {

/// The answer to a submission: the hash under which it was recorded.
#[derive(Debug)]
pub struct FdbResult {
    pub transaction_hash: String,
}

/// A transaction, or why there is none.
#[derive(Debug)]
pub struct FdbTransactionResult {
    pub success: bool,
    pub err_msg: String,
    pub transaction: Transaction,
}

impl FdbTransactionResult {
    /// The record of a query: the payload on success, the message of the
    /// error and an empty payload on failure.
    pub fn from(result: Result<Transaction, ServiceError>) -> (r: Self)
        ensures
            match result {
                Ok(row) => r.success && r.err_msg@.len() == 0 && r.transaction == row,
                Err(err) => !r.success && r.err_msg@ == err.text() && r.transaction.is_zero(),
            },
    {
        match result {
            Ok(transaction) => Self { success: true, err_msg: String::new(), transaction },
            Err(err) => Self { success: false, err_msg: err.to_string(), transaction: Transaction::default() },
        }
    }
}

/// Transactions, or why there are none.
#[derive(Debug)]
pub struct FdbTransactionsResult {
    pub success: bool,
    pub err_msg: String,
    pub transactions: Vec<Transaction>,
}

impl FdbTransactionsResult {
    /// The record of a query: the payload on success, the message of the
    /// error and an empty payload on failure.
    pub fn from(result: Result<Vec<Transaction>, ServiceError>) -> (r: Self)
        ensures
            match result {
                Ok(row) => r.success && r.err_msg@.len() == 0 && r.transactions == row,
                Err(err) => !r.success && r.err_msg@ == err.text() && r.transactions@.len() == 0,
            },
    {
        match result {
            Ok(transactions) => Self { success: true, err_msg: String::new(), transactions },
            Err(err) => Self { success: false, err_msg: err.to_string(), transactions: Vec::new() },
        }
    }
}

/// An entry, or why there is none.
#[derive(Debug)]
pub struct FdbMetadataResult {
    pub success: bool,
    pub err_msg: String,
    pub metadata: Metadata,
}

impl FdbMetadataResult {
    /// The record of a query: the payload on success, the message of the
    /// error and an empty payload on failure.
    pub fn from(result: Result<Metadata, ServiceError>) -> (r: Self)
        ensures
            match result {
                Ok(row) => r.success && r.err_msg@.len() == 0 && r.metadata == row,
                Err(err) => !r.success && r.err_msg@ == err.text() && r.metadata.is_zero(),
            },
    {
        match result {
            Ok(metadata) => Self { success: true, err_msg: String::new(), metadata },
            Err(err) => Self { success: false, err_msg: err.to_string(), metadata: Metadata::default() },
        }
    }
}

/// A binding, or why there is none.
#[derive(Debug)]
pub struct FdbMetaContractResult {
    pub success: bool,
    pub err_msg: String,
    pub meta: MetaContract,
}

impl FdbMetaContractResult {
    /// The record of a query: the payload on success, the message of the
    /// error and an empty payload on failure.
    pub fn from(result: Result<MetaContract, ServiceError>) -> (r: Self)
        ensures
            match result {
                Ok(row) => r.success && r.err_msg@.len() == 0 && r.meta == row,
                Err(err) => !r.success && r.err_msg@ == err.text() && r.meta.is_zero(),
            },
    {
        match result {
            Ok(meta) => Self { success: true, err_msg: String::new(), meta },
            Err(err) => Self { success: false, err_msg: err.to_string(), meta: MetaContract::default() },
        }
    }
}

} // verus!
