//! Bindings of token keys to services.

use vstd::prelude::*;
use vstd::string::*;

verus! {

/// The service that a token key is bound to, and the key that owns the binding.
#[derive(Debug)]
pub struct MetaContract {
    pub token_key: String,
    pub service_id: String,
    pub public_key: String,
}

impl Clone for MetaContract {
    fn clone(&self) -> (r: Self)
        ensures
            r == *self,
    {
        MetaContract {
            token_key: self.token_key.clone(),
            service_id: self.service_id.clone(),
            public_key: self.public_key.clone(),
        }
    }
}

impl MetaContract {
    /// Whether every text of the record is empty and every number zero.
    pub open spec fn is_zero(&self) -> bool {
        &&& self.token_key@.len() == 0
        &&& self.service_id@.len() == 0
        &&& self.public_key@.len() == 0
    }
}

impl Default for MetaContract {
    fn default() -> (r: Self)
        ensures
            r.is_zero(),
    {
        MetaContract {
            token_key: String::new(),
            service_id: String::new(),
            public_key: String::new(),
        }
    }
}
} // verus!
