//! Transactions, the requests they come from and the receipts they end in.

use vstd::prelude::*;
use vstd::string::*;
use crate::identity::{hash_text, identity_of};
use crate::json::{json_quoted_text, quote};
use crate::text::{decimal, decimal_string};

verus! {

/// A recorded submission: what was asked for, by whom, and whether it is still pending.
#[derive(Debug)]
pub struct Transaction {
    pub hash: String,
    pub method: String,
    pub meta_contract_id: String,
    pub data_key: String,
    pub token_key: String,
    pub data: String,
    pub public_key: String,
    pub alias: String,
    pub timestamp: u64,
    pub chain_id: String,
    pub token_address: String,
    pub token_id: String,
    pub version: String,
    pub status: i64,
    pub mcdata: String,
    pub error_text: String,
}

/// What a record of this kind holds, as plain values.
pub struct TransactionView {
    pub hash: Seq<char>,
    pub method: Seq<char>,
    pub meta_contract_id: Seq<char>,
    pub data_key: Seq<char>,
    pub token_key: Seq<char>,
    pub data: Seq<char>,
    pub public_key: Seq<char>,
    pub alias: Seq<char>,
    pub timestamp: u64,
    pub chain_id: Seq<char>,
    pub token_address: Seq<char>,
    pub token_id: Seq<char>,
    pub version: Seq<char>,
    pub status: i64,
    pub mcdata: Seq<char>,
    pub error_text: Seq<char>,
}

impl View for Transaction {
    type V = TransactionView;

    open spec fn view(&self) -> TransactionView {
        TransactionView {
            hash: self.hash@,
            method: self.method@,
            meta_contract_id: self.meta_contract_id@,
            data_key: self.data_key@,
            token_key: self.token_key@,
            data: self.data@,
            public_key: self.public_key@,
            alias: self.alias@,
            timestamp: self.timestamp,
            chain_id: self.chain_id@,
            token_address: self.token_address@,
            token_id: self.token_id@,
            version: self.version@,
            status: self.status,
            mcdata: self.mcdata@,
            error_text: self.error_text@,
        }
    }
}


impl Clone for Transaction {
    fn clone(&self) -> (r: Self)
        ensures
            r == *self,
    {
        Transaction {
            hash: self.hash.clone(),
            method: self.method.clone(),
            meta_contract_id: self.meta_contract_id.clone(),
            data_key: self.data_key.clone(),
            token_key: self.token_key.clone(),
            data: self.data.clone(),
            public_key: self.public_key.clone(),
            alias: self.alias.clone(),
            timestamp: self.timestamp,
            chain_id: self.chain_id.clone(),
            token_address: self.token_address.clone(),
            token_id: self.token_id.clone(),
            version: self.version.clone(),
            status: self.status,
            mcdata: self.mcdata.clone(),
            error_text: self.error_text.clone(),
        }
    }
}

impl Transaction {
    /// Whether every text of the record is empty and every number zero.
    pub open spec fn is_zero(&self) -> bool {
        &&& self.hash@.len() == 0
        &&& self.method@.len() == 0
        &&& self.meta_contract_id@.len() == 0
        &&& self.data_key@.len() == 0
        &&& self.token_key@.len() == 0
        &&& self.data@.len() == 0
        &&& self.public_key@.len() == 0
        &&& self.alias@.len() == 0
        &&& self.timestamp == 0
        &&& self.chain_id@.len() == 0
        &&& self.token_address@.len() == 0
        &&& self.token_id@.len() == 0
        &&& self.version@.len() == 0
        &&& self.status == 0
        &&& self.mcdata@.len() == 0
        &&& self.error_text@.len() == 0
    }
}

impl Default for Transaction {
    fn default() -> (r: Self)
        ensures
            r.is_zero(),
    {
        Transaction {
            hash: String::new(),
            method: String::new(),
            meta_contract_id: String::new(),
            data_key: String::new(),
            token_key: String::new(),
            data: String::new(),
            public_key: String::new(),
            alias: String::new(),
            timestamp: 0,
            chain_id: String::new(),
            token_address: String::new(),
            token_id: String::new(),
            version: String::new(),
            status: 0,
            mcdata: String::new(),
            error_text: String::new(),
        }
    }
}
/// A submission as the caller hands it in.
#[derive(Debug)]
pub struct TransactionRequest {
    pub meta_contract_id: String,
    pub alias: String,
    pub public_key: String,
    pub signature: String,
    pub data: String,
    pub method: String,
    pub chain_id: String,
    pub token_address: String,
    pub token_id: String,
    pub version: String,
    pub mcdata: String,
}

impl Clone for TransactionRequest {
    fn clone(&self) -> (r: Self)
        ensures
            r == *self,
    {
        TransactionRequest {
            meta_contract_id: self.meta_contract_id.clone(),
            alias: self.alias.clone(),
            public_key: self.public_key.clone(),
            signature: self.signature.clone(),
            data: self.data.clone(),
            method: self.method.clone(),
            chain_id: self.chain_id.clone(),
            token_address: self.token_address.clone(),
            token_id: self.token_id.clone(),
            version: self.version.clone(),
            mcdata: self.mcdata.clone(),
        }
    }
}

impl TransactionRequest {
    /// Whether every text of the record is empty and every number zero.
    pub open spec fn is_zero(&self) -> bool {
        &&& self.meta_contract_id@.len() == 0
        &&& self.alias@.len() == 0
        &&& self.public_key@.len() == 0
        &&& self.signature@.len() == 0
        &&& self.data@.len() == 0
        &&& self.method@.len() == 0
        &&& self.chain_id@.len() == 0
        &&& self.token_address@.len() == 0
        &&& self.token_id@.len() == 0
        &&& self.version@.len() == 0
        &&& self.mcdata@.len() == 0
    }
}

impl Default for TransactionRequest {
    fn default() -> (r: Self)
        ensures
            r.is_zero(),
    {
        TransactionRequest {
            meta_contract_id: String::new(),
            alias: String::new(),
            public_key: String::new(),
            signature: String::new(),
            data: String::new(),
            method: String::new(),
            chain_id: String::new(),
            token_address: String::new(),
            token_id: String::new(),
            version: String::new(),
            mcdata: String::new(),
        }
    }
}
/// The part of a transaction that every content block carries with it.
#[derive(Debug)]
pub struct TransactionSubset {
    pub hash: String,
    pub timestamp: u64,
    pub meta_contract_id: String,
    pub method: String,
    pub value: String,
}

impl Clone for TransactionSubset {
    fn clone(&self) -> (r: Self)
        ensures
            r == *self,
    {
        TransactionSubset {
            hash: self.hash.clone(),
            timestamp: self.timestamp,
            meta_contract_id: self.meta_contract_id.clone(),
            method: self.method.clone(),
            value: self.value.clone(),
        }
    }
}
/// One condition of a search for transactions: a column, an operator and a value.
#[derive(Debug)]
pub struct TransactionQuery {
    pub column: String,
    pub query: String,
    pub op: String,
}

impl Clone for TransactionQuery {
    fn clone(&self) -> (r: Self)
        ensures
            r == *self,
    {
        TransactionQuery {
            column: self.column.clone(),
            query: self.query.clone(),
            op: self.op.clone(),
        }
    }
}
/// One sort key of a search for transactions.
#[derive(Debug)]
pub struct TransactionOrdering {
    pub column: String,
    pub sort: String,
}

impl Clone for TransactionOrdering {
    fn clone(&self) -> (r: Self)
        ensures
            r == *self,
    {
        TransactionOrdering {
            column: self.column.clone(),
            sort: self.sort.clone(),
        }
    }
}
/// The outcome of a transaction, kept under the transaction's hash.
#[derive(Debug)]
pub struct TransactionReceipt {
    pub hash: String,
    pub meta_contract_id: String,
    pub status: i64,
    pub timestamp: u64,
    pub error_text: String,
    pub data: String,
}

/// What a record of this kind holds, as plain values.
pub struct TransactionReceiptView {
    pub hash: Seq<char>,
    pub meta_contract_id: Seq<char>,
    pub status: i64,
    pub timestamp: u64,
    pub error_text: Seq<char>,
    pub data: Seq<char>,
}

impl View for TransactionReceipt {
    type V = TransactionReceiptView;

    open spec fn view(&self) -> TransactionReceiptView {
        TransactionReceiptView {
            hash: self.hash@,
            meta_contract_id: self.meta_contract_id@,
            status: self.status,
            timestamp: self.timestamp,
            error_text: self.error_text@,
            data: self.data@,
        }
    }
}


impl Clone for TransactionReceipt {
    fn clone(&self) -> (r: Self)
        ensures
            r == *self,
    {
        TransactionReceipt {
            hash: self.hash.clone(),
            meta_contract_id: self.meta_contract_id.clone(),
            status: self.status,
            timestamp: self.timestamp,
            error_text: self.error_text.clone(),
            data: self.data.clone(),
        }
    }
}

impl TransactionReceipt {
    /// Whether every text of the record is empty and every number zero.
    pub open spec fn is_zero(&self) -> bool {
        &&& self.hash@.len() == 0
        &&& self.meta_contract_id@.len() == 0
        &&& self.status == 0
        &&& self.timestamp == 0
        &&& self.error_text@.len() == 0
        &&& self.data@.len() == 0
    }
}

impl Default for TransactionReceipt {
    fn default() -> (r: Self)
        ensures
            r.is_zero(),
    {
        TransactionReceipt {
            hash: String::new(),
            meta_contract_id: String::new(),
            status: 0,
            timestamp: 0,
            error_text: String::new(),
            data: String::new(),
        }
    }
}
impl Transaction {
    /// The identity of a transaction. The time and the status are no part of it.
    pub open spec fn identity(meta_contract_id: Seq<char>, token_key: Seq<char>, data_key: Seq<char>, data: Seq<char>, public_key: Seq<char>, alias: Seq<char>, method: Seq<char>, version: Seq<char>, mcdata: Seq<char>, previous_content: Seq<char>) -> Seq<char> {
        identity_of(meta_contract_id + token_key + data_key + data + public_key + alias + method + version + mcdata + previous_content)
    }

    /// Computes the identity: the hash of the fields, concatenated in the order of the
    /// parameters.
    pub fn generate_hash(meta_contract_id: String, token_key: String, data_key: String, data: String, public_key: String, alias: String, method: String, version: String, mcdata: String, previous_content: String) -> (hash: String)
        ensures
            hash@ == Self::identity(meta_contract_id@, token_key@, data_key@, data@, public_key@, alias@, method@, version@, mcdata@, previous_content@),
    {
        let mut preimage = String::new();
        preimage.append(meta_contract_id.as_str());
        preimage.append(token_key.as_str());
        preimage.append(data_key.as_str());
        preimage.append(data.as_str());
        preimage.append(public_key.as_str());
        preimage.append(alias.as_str());
        preimage.append(method.as_str());
        preimage.append(version.as_str());
        preimage.append(mcdata.as_str());
        preimage.append(previous_content.as_str());
        assert(preimage@ =~= meta_contract_id@ + token_key@ + data_key@ + data@ + public_key@ + alias@ + method@ + version@ + mcdata@ + previous_content@);
        hash_text(preimage.as_str())
    }

    /// Makes a transaction and computes its identity. `previous_data` is
    /// the content identifier that the slot held when the request arrived;
    /// it enters the identity and is not kept.
    pub fn new(
        meta_contract_id: String,
        token_key: String,
        data_key: String,
        data: String,
        public_key: String,
        alias: String,
        timestamp: u64,
        method: String,
        chain_id: String,
        token_address: String,
        token_id: String,
        version: String,
        mcdata: String,
        status: i64,
        previous_data: String,
    ) -> (tx: Self)
        ensures
            tx.hash@ == Self::identity(
                meta_contract_id@,
                token_key@,
                data_key@,
                data@,
                public_key@,
                alias@,
                method@,
                version@,
                mcdata@,
                previous_data@,
            ),
            tx.method == method,
            tx.meta_contract_id == meta_contract_id,
            tx.data_key == data_key,
            tx.token_key == token_key,
            tx.data == data,
            tx.public_key == public_key,
            tx.alias == alias,
            tx.timestamp == timestamp,
            tx.chain_id == chain_id,
            tx.token_address == token_address,
            tx.token_id == token_id,
            tx.version == version,
            tx.status == status,
            tx.mcdata == mcdata,
            tx.error_text@.len() == 0,
    {
        let hash = Self::generate_hash(
            meta_contract_id.clone(),
            token_key.clone(),
            data_key.clone(),
            data.clone(),
            public_key.clone(),
            alias.clone(),
            method.clone(),
            version.clone(),
            mcdata.clone(),
            previous_data,
        );
        Self {
            hash,
            method,
            meta_contract_id,
            data_key,
            token_key,
            data,
            public_key,
            alias,
            timestamp,
            chain_id,
            token_address,
            token_id,
            version,
            status,
            mcdata,
            error_text: String::new(),
        }
    }
}

/// The JSON text of the envelope that a block carries: the hash, the time,
/// the meta contract and the method of its transaction, and a value.
pub open spec fn subset_json(
    hash: Seq<char>,
    timestamp: u64,
    meta_contract_id: Seq<char>,
    method: Seq<char>,
    value: Seq<char>,
) -> Seq<char> {
    "{\"hash\":"@ + json_quoted_text(hash) + ",\"timestamp\":"@ + decimal(timestamp as nat)
        + ",\"meta_contract_id\":"@ + json_quoted_text(meta_contract_id) + ",\"method\":"@
        + json_quoted_text(method) + ",\"value\":"@ + json_quoted_text(value) + "}"@
}

impl TransactionSubset {
    /// The JSON text of the envelope: an object of its five members.
    pub open spec fn json(&self) -> Seq<char> {
        subset_json(self.hash@, self.timestamp, self.meta_contract_id@, self.method@, self.value@)
    }

    /// Writes the envelope as JSON.
    pub fn to_json(&self) -> (json: String)
        ensures
            json@ == self.json(),
    {
        let mut json = String::from_str("{\"hash\":");
        json.append(quote(self.hash.as_str()).as_str());
        json.append(",\"timestamp\":");
        json.append(decimal_string(self.timestamp).as_str());
        json.append(",\"meta_contract_id\":");
        json.append(quote(self.meta_contract_id.as_str()).as_str());
        json.append(",\"method\":");
        json.append(quote(self.method.as_str()).as_str());
        json.append(",\"value\":");
        json.append(quote(self.value.as_str()).as_str());
        json.append("}");
        assert(json@ =~= self.json());
        json
    }
}

} // verus!
