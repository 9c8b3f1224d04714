//! Names and codes that the node's records use.

use vstd::prelude::*;

verus! {

pub const TRANSACTIONS_TABLE_NAME: &'static str = "transactions";

pub const METADATAS_TABLE_NAME: &'static str = "metadatas";

pub const META_CONTRACT_TABLE_NAME: &'static str = "metacontracts";

pub const CRON_TABLE_NAME: &'static str = "cron";

pub const CRON_TX_TABLE_NAME: &'static str = "cron_tx";

pub const TRANSACTION_RECEIPT_TABLE_NAME: &'static str = "transaction_receipt";

pub const REGISTRY_TABLE_NAME: &'static str = "registry";

/// A transaction that waits for its finalisation.
pub const STATUS_PENDING: i64 = 0;

/// A transaction that was finalised, with or without success.
pub const STATUS_DONE: i64 = 1;

/// A transaction that was rejected when it was submitted: done as well.
pub const STATUS_FAILED: i64 = 1;

pub const RECEIPT_STATUS_SUCCESS: i64 = 1;

pub const RECEIPT_STATUS_FAILED: i64 = 2;

pub const CRON_STATUS_ENABLE: i64 = 1;

pub const CRON_STATUS_DISABLE: i64 = 0;

pub const CRON_TX_STATUS_SUCCESS: i64 = 1;

pub const CRON_TX_STATUS_FAILED: i64 = 2;

pub const CRON_ACTION_CREATE: &'static str = "create";

pub const CRON_ACTION_UPDATE: &'static str = "update";

pub const CRON_ACTION_UPDATE_STATUS: &'static str = "update_status";

pub const METHOD_CONTRACT: &'static str = "contract";

pub const METHOD_METADATA: &'static str = "metadata";

pub const METHOD_CLONE: &'static str = "clone";

pub const METHOD_CRON: &'static str = "cron";

pub const ENCRYPTION_TYPE_SECP256K1: &'static str = "secp256k1";

pub const ENCRYPTION_TYPE_ED25519: &'static str = "ed25519";

/// Where the store executes statements.
pub const SQL_EXECUTE: &'static str = "http://172.17.0.1:4101/db/execute";

/// Where the store answers queries.
pub const SQL_QUERY: &'static str = "http://172.17.0.1:4101/db/query?associative";

} // verus!
