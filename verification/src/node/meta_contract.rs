//! Bindings of token keys to meta contracts.

use vstd::prelude::*;
use vstd::string::*;
use crate::identity::{hash_text, identity_of};

verus! {

/// The meta contract that a token key is bound to, and the key that owns the binding.
#[derive(Debug)]
pub struct MetaContract {
    pub hash: String,
    pub token_key: String,
    pub meta_contract_id: String,
    pub public_key: String,
    pub cid: String,
}

/// What a record of this kind holds, as plain values.
pub struct MetaContractView {
    pub hash: Seq<char>,
    pub token_key: Seq<char>,
    pub meta_contract_id: Seq<char>,
    pub public_key: Seq<char>,
    pub cid: Seq<char>,
}

impl View for MetaContract {
    type V = MetaContractView;

    open spec fn view(&self) -> MetaContractView {
        MetaContractView {
            hash: self.hash@,
            token_key: self.token_key@,
            meta_contract_id: self.meta_contract_id@,
            public_key: self.public_key@,
            cid: self.cid@,
        }
    }
}


impl Clone for MetaContract {
    fn clone(&self) -> (r: Self)
        ensures
            r == *self,
    {
        MetaContract {
            hash: self.hash.clone(),
            token_key: self.token_key.clone(),
            meta_contract_id: self.meta_contract_id.clone(),
            public_key: self.public_key.clone(),
            cid: self.cid.clone(),
        }
    }
}

impl MetaContract {
    /// Whether every text of the record is empty and every number zero.
    pub open spec fn is_zero(&self) -> bool {
        &&& self.hash@.len() == 0
        &&& self.token_key@.len() == 0
        &&& self.meta_contract_id@.len() == 0
        &&& self.public_key@.len() == 0
        &&& self.cid@.len() == 0
    }
}

impl Default for MetaContract {
    fn default() -> (r: Self)
        ensures
            r.is_zero(),
    {
        MetaContract {
            hash: String::new(),
            token_key: String::new(),
            meta_contract_id: String::new(),
            public_key: String::new(),
            cid: String::new(),
        }
    }
}
impl MetaContract {
    /// The identity of a binding.
    pub open spec fn identity(token_key: Seq<char>, meta_contract_id: Seq<char>, public_key: Seq<char>) -> Seq<char> {
        identity_of(token_key + meta_contract_id + public_key)
    }

    /// Computes the identity: the hash of the fields, concatenated in the order of the
    /// parameters.
    pub fn generate_hash(token_key: String, meta_contract_id: String, public_key: String) -> (hash: String)
        ensures
            hash@ == Self::identity(token_key@, meta_contract_id@, public_key@),
    {
        let mut preimage = String::new();
        preimage.append(token_key.as_str());
        preimage.append(meta_contract_id.as_str());
        preimage.append(public_key.as_str());
        assert(preimage@ =~= token_key@ + meta_contract_id@ + public_key@);
        hash_text(preimage.as_str())
    }

    /// Makes a binding and computes its identity.
    pub fn new(token_key: String, meta_contract_id: String, public_key: String, cid: String) -> (m: Self)
        ensures
            m.hash@ == Self::identity(token_key@, meta_contract_id@, public_key@),
            m.token_key == token_key,
            m.meta_contract_id == meta_contract_id,
            m.public_key == public_key,
            m.cid == cid,
    {
        let hash = Self::generate_hash(
            token_key.clone(),
            meta_contract_id.clone(),
            public_key.clone(),
        );
        Self { hash, token_key, meta_contract_id, public_key, cid }
    }
}

} // verus!
