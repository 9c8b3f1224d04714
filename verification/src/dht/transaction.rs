//! Transactions of the key table.

use vstd::prelude::*;
use vstd::string::*;
use crate::dht::defaults::STATUS_PENDING;
use crate::identity::{hash_text, identity_of};

verus! {

/// A recorded submission to the key table.
#[derive(Debug)]
pub struct Transaction {
    pub hash: String,
    pub token_address: String,
    pub token_id: String,
    pub chain_id: String,
    pub version: String,
    pub from_peer_id: String,
    pub host_id: String,
    pub status: i64,
    pub data_key: String,
    pub metadata: String,
    pub public_key: String,
    pub alias: String,
    pub timestamp: u64,
    pub encryption_type: String,
    pub service_id: String,
    pub method: String,
    pub error_text: String,
}

impl Clone for Transaction {
    fn clone(&self) -> (r: Self)
        ensures
            r == *self,
    {
        Transaction {
            hash: self.hash.clone(),
            token_address: self.token_address.clone(),
            token_id: self.token_id.clone(),
            chain_id: self.chain_id.clone(),
            version: self.version.clone(),
            from_peer_id: self.from_peer_id.clone(),
            host_id: self.host_id.clone(),
            status: self.status,
            data_key: self.data_key.clone(),
            metadata: self.metadata.clone(),
            public_key: self.public_key.clone(),
            alias: self.alias.clone(),
            timestamp: self.timestamp,
            encryption_type: self.encryption_type.clone(),
            service_id: self.service_id.clone(),
            method: self.method.clone(),
            error_text: self.error_text.clone(),
        }
    }
}

impl Transaction {
    /// Whether every text of the record is empty and every number zero.
    pub open spec fn is_zero(&self) -> bool {
        &&& self.hash@.len() == 0
        &&& self.token_address@.len() == 0
        &&& self.token_id@.len() == 0
        &&& self.chain_id@.len() == 0
        &&& self.version@.len() == 0
        &&& self.from_peer_id@.len() == 0
        &&& self.host_id@.len() == 0
        &&& self.status == 0
        &&& self.data_key@.len() == 0
        &&& self.metadata@.len() == 0
        &&& self.public_key@.len() == 0
        &&& self.alias@.len() == 0
        &&& self.timestamp == 0
        &&& self.encryption_type@.len() == 0
        &&& self.service_id@.len() == 0
        &&& self.method@.len() == 0
        &&& self.error_text@.len() == 0
    }
}

impl Default for Transaction {
    fn default() -> (r: Self)
        ensures
            r.is_zero(),
    {
        Transaction {
            hash: String::new(),
            token_address: String::new(),
            token_id: String::new(),
            chain_id: String::new(),
            version: String::new(),
            from_peer_id: String::new(),
            host_id: String::new(),
            status: 0,
            data_key: String::new(),
            metadata: String::new(),
            public_key: String::new(),
            alias: String::new(),
            timestamp: 0,
            encryption_type: String::new(),
            service_id: String::new(),
            method: String::new(),
            error_text: String::new(),
        }
    }
}
impl Transaction {
    /// The identity of a transaction. The time and the status are no part of it.
    pub open spec fn identity(
        token_address: Seq<char>,
        token_id: Seq<char>,
        chain_id: Seq<char>,
        version: Seq<char>,
        from: Seq<char>,
        host_id: Seq<char>,
        data_key: Seq<char>,
        metadata: Seq<char>,
        public_key: Seq<char>,
        alias: Seq<char>,
        encryption_type: Seq<char>,
        service_id: Seq<char>,
        method: Seq<char>,
    ) -> Seq<char> {
        identity_of(
            token_address + token_id + chain_id + version + from + host_id + data_key + metadata + public_key + alias + encryption_type + service_id + method,
        )
    }

    /// Computes the identity: the hash of the fields, concatenated in the order of the
    /// parameters.
    pub fn generate_hash(
        token_address: String,
        token_id: String,
        chain_id: String,
        version: String,
        from: String,
        host_id: String,
        data_key: String,
        metadata: String,
        public_key: String,
        alias: String,
        encryption_type: String,
        service_id: String,
        method: String,
    ) -> (hash: String)
        ensures
            hash@ == Self::identity(
                token_address@,
                token_id@,
                chain_id@,
                version@,
                from@,
                host_id@,
                data_key@,
                metadata@,
                public_key@,
                alias@,
                encryption_type@,
                service_id@,
                method@,
            ),
    {
        let mut preimage = String::new();
        preimage.append(token_address.as_str());
        preimage.append(token_id.as_str());
        preimage.append(chain_id.as_str());
        preimage.append(version.as_str());
        preimage.append(from.as_str());
        preimage.append(host_id.as_str());
        preimage.append(data_key.as_str());
        preimage.append(metadata.as_str());
        preimage.append(public_key.as_str());
        preimage.append(alias.as_str());
        preimage.append(encryption_type.as_str());
        preimage.append(service_id.as_str());
        preimage.append(method.as_str());
        assert(preimage@ =~= token_address@ + token_id@ + chain_id@ + version@ + from@ + host_id@ + data_key@ + metadata@ + public_key@ + alias@ + encryption_type@ + service_id@ + method@);
        hash_text(preimage.as_str())
    }

    /// Makes a pending transaction and computes its identity.
    pub fn new(
        token_address: String,
        token_id: String,
        chain_id: String,
        version: String,
        from_peer_id: String,
        host_id: String,
        data_key: String,
        metadata: String,
        public_key: String,
        alias: String,
        timestamp: u64,
        encryption_type: String,
        service_id: String,
        method: String,
    ) -> (tx: Self)
        ensures
            tx.hash@ == Self::identity(
                token_address@,
                token_id@,
                chain_id@,
                version@,
                from_peer_id@,
                host_id@,
                data_key@,
                metadata@,
                public_key@,
                alias@,
                encryption_type@,
                service_id@,
                method@,
            ),
            tx.token_address == token_address,
            tx.token_id == token_id,
            tx.chain_id == chain_id,
            tx.version == version,
            tx.from_peer_id == from_peer_id,
            tx.host_id == host_id,
            tx.data_key == data_key,
            tx.metadata == metadata,
            tx.public_key == public_key,
            tx.alias == alias,
            tx.timestamp == timestamp,
            tx.encryption_type == encryption_type,
            tx.service_id == service_id,
            tx.method == method,
            tx.status == STATUS_PENDING,
            tx.error_text@.len() == 0,
    {
        let hash = Self::generate_hash(
            token_address.clone(),
            token_id.clone(),
            chain_id.clone(),
            version.clone(),
            from_peer_id.clone(),
            host_id.clone(),
            data_key.clone(),
            metadata.clone(),
            public_key.clone(),
            alias.clone(),
            encryption_type.clone(),
            service_id.clone(),
            method.clone(),
        );
        Self {
            hash,
            token_address,
            token_id,
            chain_id,
            version,
            from_peer_id,
            host_id,
            data_key,
            metadata,
            public_key,
            alias,
            timestamp,
            encryption_type,
            service_id,
            method,
            status: STATUS_PENDING,
            error_text: String::new(),
        }
    }
}

} // verus!
