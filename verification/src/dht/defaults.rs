//! Names and codes that the key table's records use.

use vstd::prelude::*;

verus! {

pub const TRANSACTIONS_TABLE_NAME: &'static str = "transactions";

pub const METADATAS_TABLE_NAME: &'static str = "metadatas";

pub const META_CONTRACT_TABLE_NAME: &'static str = "meta_contract";

pub const STATUS_PENDING: i64 = 0;

pub const STATUS_SUCCESS: i64 = 1;

pub const STATUS_FAILED: i64 = 2;

pub const METHOD_CREATE: &'static str = "create";

pub const METHOD_UPDATE: &'static str = "update";

pub const ENCRYPTION_TYPE_SECP256K1: &'static str = "secp256k1";

pub const ENCRYPTION_TYPE_ED25519: &'static str = "ed25519";

} // verus!
