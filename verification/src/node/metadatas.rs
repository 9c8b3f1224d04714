//! Metadata slots: one current content pointer for each data key, meta contract,
//! owner, alias and version.

use vstd::prelude::*;
use vstd::string::*;
use crate::identity::{hash_text, identity_of};

verus! {

/// A slot and the content identifier it points to.
#[derive(Debug)]
pub struct Metadata {
    pub hash: String,
    pub token_key: String,
    pub data_key: String,
    pub meta_contract_id: String,
    pub token_id: String,
    pub alias: String,
    pub cid: String,
    pub public_key: String,
    pub version: String,
    pub loose: i64,
}

/// What a record of this kind holds, as plain values.
pub struct MetadataView {
    pub hash: Seq<char>,
    pub token_key: Seq<char>,
    pub data_key: Seq<char>,
    pub meta_contract_id: Seq<char>,
    pub token_id: Seq<char>,
    pub alias: Seq<char>,
    pub cid: Seq<char>,
    pub public_key: Seq<char>,
    pub version: Seq<char>,
    pub loose: i64,
}

impl View for Metadata {
    type V = MetadataView;

    open spec fn view(&self) -> MetadataView {
        MetadataView {
            hash: self.hash@,
            token_key: self.token_key@,
            data_key: self.data_key@,
            meta_contract_id: self.meta_contract_id@,
            token_id: self.token_id@,
            alias: self.alias@,
            cid: self.cid@,
            public_key: self.public_key@,
            version: self.version@,
            loose: self.loose,
        }
    }
}


impl Clone for Metadata {
    fn clone(&self) -> (r: Self)
        ensures
            r == *self,
    {
        Metadata {
            hash: self.hash.clone(),
            token_key: self.token_key.clone(),
            data_key: self.data_key.clone(),
            meta_contract_id: self.meta_contract_id.clone(),
            token_id: self.token_id.clone(),
            alias: self.alias.clone(),
            cid: self.cid.clone(),
            public_key: self.public_key.clone(),
            version: self.version.clone(),
            loose: self.loose,
        }
    }
}

impl Metadata {
    /// Whether every text of the record is empty and every number zero.
    pub open spec fn is_zero(&self) -> bool {
        &&& self.hash@.len() == 0
        &&& self.token_key@.len() == 0
        &&& self.data_key@.len() == 0
        &&& self.meta_contract_id@.len() == 0
        &&& self.token_id@.len() == 0
        &&& self.alias@.len() == 0
        &&& self.cid@.len() == 0
        &&& self.public_key@.len() == 0
        &&& self.version@.len() == 0
        &&& self.loose == 0
    }
}

impl Default for Metadata {
    fn default() -> (r: Self)
        ensures
            r.is_zero(),
    {
        Metadata {
            hash: String::new(),
            token_key: String::new(),
            data_key: String::new(),
            meta_contract_id: String::new(),
            token_id: String::new(),
            alias: String::new(),
            cid: String::new(),
            public_key: String::new(),
            version: String::new(),
            loose: 0,
        }
    }
}
/// One item of a finalisation: the content to store for an owner and an alias.
#[derive(Debug)]
pub struct FinalMetadata {
    pub public_key: String,
    pub alias: String,
    pub content: String,
    pub version: String,
    pub loose: i64,
}

impl Clone for FinalMetadata {
    fn clone(&self) -> (r: Self)
        ensures
            r == *self,
    {
        FinalMetadata {
            public_key: self.public_key.clone(),
            alias: self.alias.clone(),
            content: self.content.clone(),
            version: self.version.clone(),
            loose: self.loose,
        }
    }
}
/// One condition of a search for slots: a column, an operator and a value.
#[derive(Debug)]
pub struct MetadataQuery {
    pub column: String,
    pub query: String,
    pub op: String,
}

impl Clone for MetadataQuery {
    fn clone(&self) -> (r: Self)
        ensures
            r == *self,
    {
        MetadataQuery {
            column: self.column.clone(),
            query: self.query.clone(),
            op: self.op.clone(),
        }
    }
}
/// One sort key of a search for slots.
#[derive(Debug)]
pub struct MetadataOrdering {
    pub column: String,
    pub sort: String,
}

impl Clone for MetadataOrdering {
    fn clone(&self) -> (r: Self)
        ensures
            r == *self,
    {
        MetadataOrdering {
            column: self.column.clone(),
            sort: self.sort.clone(),
        }
    }
}
/// The options that a submission may carry for a new slot.
#[derive(Debug)]
pub struct SerdeMetadata {
    pub loose: i64,
}

impl SerdeMetadata {
    /// Whether every text of the record is empty and every number zero.
    pub open spec fn is_zero(&self) -> bool {
        &&& self.loose == 0
    }
}

impl Default for SerdeMetadata {
    fn default() -> (r: Self)
        ensures
            r.is_zero(),
    {
        SerdeMetadata {
            loose: 0,
        }
    }
}
impl Metadata {
    /// The identity of a slot.
    pub open spec fn identity(data_key: Seq<char>, meta_contract_id: Seq<char>, alias: Seq<char>, public_key: Seq<char>, version: Seq<char>) -> Seq<char> {
        identity_of(data_key + meta_contract_id + alias + public_key + version)
    }

    /// Computes the identity: the hash of the fields, concatenated in the order of the
    /// parameters.
    pub fn generate_hash(data_key: String, meta_contract_id: String, alias: String, public_key: String, version: String) -> (hash: String)
        ensures
            hash@ == Self::identity(data_key@, meta_contract_id@, alias@, public_key@, version@),
    {
        let mut preimage = String::new();
        preimage.append(data_key.as_str());
        preimage.append(meta_contract_id.as_str());
        preimage.append(alias.as_str());
        preimage.append(public_key.as_str());
        preimage.append(version.as_str());
        assert(preimage@ =~= data_key@ + meta_contract_id@ + alias@ + public_key@ + version@);
        hash_text(preimage.as_str())
    }

    /// The key of a token collection: the identity of chain and address.
    pub open spec fn token_key_of(chain_id: Seq<char>, token_address: Seq<char>) -> Seq<char> {
        identity_of(chain_id + token_address)
    }

    /// The key of one token: the identity of chain, address and token.
    pub open spec fn data_key_of(chain_id: Seq<char>, token_address: Seq<char>, token_id: Seq<char>) -> Seq<
        char,
    > {
        identity_of(chain_id + token_address + token_id)
    }

    /// Computes the key of a token collection.
    pub fn generate_token_key(chain_id: String, token_address: String) -> (key: String)
        ensures
            key@ == Self::token_key_of(chain_id@, token_address@),
    {
        let mut preimage = String::new();
        preimage.append(chain_id.as_str());
        preimage.append(token_address.as_str());
        assert(preimage@ =~= chain_id@ + token_address@);
        hash_text(preimage.as_str())
    }

    /// Computes the key of one token.
    pub fn generate_data_key(chain_id: String, token_address: String, token_id: String) -> (key: String)
        ensures
            key@ == Self::data_key_of(chain_id@, token_address@, token_id@),
    {
        let mut preimage = String::new();
        preimage.append(chain_id.as_str());
        preimage.append(token_address.as_str());
        preimage.append(token_id.as_str());
        assert(preimage@ =~= chain_id@ + token_address@ + token_id@);
        hash_text(preimage.as_str())
    }

    /// Makes a slot and computes its identity.
    pub fn new(
        data_key: String,
        token_key: String,
        meta_contract_id: String,
        token_id: String,
        alias: String,
        cid: String,
        public_key: String,
        version: String,
        loose: i64,
    ) -> (m: Self)
        ensures
            m.hash@ == Self::identity(data_key@, meta_contract_id@, alias@, public_key@, version@),
            m.token_key == token_key,
            m.data_key == data_key,
            m.meta_contract_id == meta_contract_id,
            m.token_id == token_id,
            m.alias == alias,
            m.cid == cid,
            m.public_key == public_key,
            m.version == version,
            m.loose == loose,
    {
        let hash = Self::generate_hash(
            data_key.clone(),
            meta_contract_id.clone(),
            alias.clone(),
            public_key.clone(),
            version.clone(),
        );
        Self {
            hash,
            token_key,
            data_key,
            meta_contract_id,
            token_id,
            alias,
            cid,
            public_key,
            version,
            loose,
        }
    }
}

impl MetadataView {
    /// Whether the slot is the one named by the five key fields.
    pub open spec fn in_slot(
        self,
        data_key: Seq<char>,
        meta_contract_id: Seq<char>,
        public_key: Seq<char>,
        alias: Seq<char>,
        version: Seq<char>,
    ) -> bool {
        &&& self.data_key == data_key
        &&& self.meta_contract_id == meta_contract_id
        &&& self.public_key == public_key
        &&& self.alias == alias
        &&& self.version == version
    }

    /// Whether two records name the same slot.
    pub open spec fn same_slot(self, other: MetadataView) -> bool {
        self.in_slot(other.data_key, other.meta_contract_id, other.public_key, other.alias, other.version)
    }
}

} // verus!
