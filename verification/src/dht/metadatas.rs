//! Entries of the key table: one content pointer for each data key.

use vstd::prelude::*;
use vstd::string::*;

verus! {

/// An entry and the content that it points to.
#[derive(Debug)]
pub struct Metadata {
    pub data_key: String,
    pub alias: String,
    pub cid: String,
    pub public_key: String,
    pub enc: String,
    pub service_id: String,
}

impl Clone for Metadata {
    fn clone(&self) -> (r: Self)
        ensures
            r == *self,
    {
        Metadata {
            data_key: self.data_key.clone(),
            alias: self.alias.clone(),
            cid: self.cid.clone(),
            public_key: self.public_key.clone(),
            enc: self.enc.clone(),
            service_id: self.service_id.clone(),
        }
    }
}

impl Metadata {
    /// Whether every text of the record is empty and every number zero.
    pub open spec fn is_zero(&self) -> bool {
        &&& self.data_key@.len() == 0
        &&& self.alias@.len() == 0
        &&& self.cid@.len() == 0
        &&& self.public_key@.len() == 0
        &&& self.enc@.len() == 0
        &&& self.service_id@.len() == 0
    }
}

impl Default for Metadata {
    fn default() -> (r: Self)
        ensures
            r.is_zero(),
    {
        Metadata {
            data_key: String::new(),
            alias: String::new(),
            cid: String::new(),
            public_key: String::new(),
            enc: String::new(),
            service_id: String::new(),
        }
    }
}
impl Metadata {
    /// Makes an entry of the six fields.
    pub fn new(
        data_key: String,
        alias: String,
        cid: String,
        public_key: String,
        enc: String,
        service_id: String,
    ) -> (m: Self)
        ensures
            m.data_key == data_key,
            m.alias == alias,
            m.cid == cid,
            m.public_key == public_key,
            m.enc == enc,
            m.service_id == service_id,
    {
        Self { data_key, alias, cid, public_key, enc, service_id }
    }
}

} // verus!
