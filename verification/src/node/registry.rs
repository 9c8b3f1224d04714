//! Named registries of meta contracts.

use vstd::prelude::*;
use vstd::string::*;

verus! {

/// A registry: its name, its meta contract and the key that owns it.
#[derive(Debug)]
pub struct Registry {
    pub registry_id: String,
    pub registry_name: String,
    pub meta_contract_id: String,
    pub public_key: String,
}

impl Clone for Registry {
    fn clone(&self) -> (r: Self)
        ensures
            r == *self,
    {
        Registry {
            registry_id: self.registry_id.clone(),
            registry_name: self.registry_name.clone(),
            meta_contract_id: self.meta_contract_id.clone(),
            public_key: self.public_key.clone(),
        }
    }
}

impl Registry {
    /// Whether every text of the record is empty and every number zero.
    pub open spec fn is_zero(&self) -> bool {
        &&& self.registry_id@.len() == 0
        &&& self.registry_name@.len() == 0
        &&& self.meta_contract_id@.len() == 0
        &&& self.public_key@.len() == 0
    }
}

impl Default for Registry {
    fn default() -> (r: Self)
        ensures
            r.is_zero(),
    {
        Registry {
            registry_id: String::new(),
            registry_name: String::new(),
            meta_contract_id: String::new(),
            public_key: String::new(),
        }
    }
}
impl Registry {
    /// Makes a registry record of the four fields.
    pub fn new(registry_id: String, registry_name: String, meta_contract_id: String, public_key: String) -> (r:
        Self)
        ensures
            r.registry_id == registry_id,
            r.registry_name == registry_name,
            r.meta_contract_id == meta_contract_id,
            r.public_key == public_key,
    {
        Self { registry_id, registry_name, meta_contract_id, public_key }
    }
}

} // verus!
