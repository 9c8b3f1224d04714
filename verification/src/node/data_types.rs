//! Payloads of clone transactions and of forks.

use vstd::prelude::*;
use vstd::string::*;
use crate::json::{json_quoted_text, quote};
use crate::text::{decimal, decimal_string};

verus! {

/// The slot that a clone transaction copies from.
#[derive(Debug)]
pub struct DataTypeClone {
    pub origin_data_key: String,
    pub origin_meta_contract_id: String,
    pub origin_public_key: String,
    pub origin_alias: String,
    pub origin_version: String,
}

impl Clone for DataTypeClone {
    fn clone(&self) -> (r: Self)
        ensures
            r == *self,
    {
        DataTypeClone {
            origin_data_key: self.origin_data_key.clone(),
            origin_meta_contract_id: self.origin_meta_contract_id.clone(),
            origin_public_key: self.origin_public_key.clone(),
            origin_alias: self.origin_alias.clone(),
            origin_version: self.origin_version.clone(),
        }
    }
}
/// A fork request in plain text fields.
#[derive(Debug)]
pub struct DataTypeFork {
    pub data: String,
    pub token_id: String,
    pub address: String,
}

impl Clone for DataTypeFork {
    fn clone(&self) -> (r: Self)
        ensures
            r == *self,
    {
        DataTypeFork {
            data: self.data.clone(),
            token_id: self.token_id.clone(),
            address: self.address.clone(),
        }
    }
}

impl DataTypeFork {
    /// Whether every text of the record is empty and every number zero.
    pub open spec fn is_zero(&self) -> bool {
        &&& self.data@.len() == 0
        &&& self.token_id@.len() == 0
        &&& self.address@.len() == 0
    }
}

impl Default for DataTypeFork {
    fn default() -> (r: Self)
        ensures
            r.is_zero(),
    {
        DataTypeFork {
            data: String::new(),
            token_id: String::new(),
            address: String::new(),
        }
    }
}
/// A fork request as it is read from JSON: every member may be missing.
#[derive(Debug)]
pub struct SerdeDataTypeFork {
    pub data: Option<String>,
    pub to: Option<String>,
    pub token_id: Option<u64>,
}

impl DataTypeClone {
    /// The JSON text of the payload: an object of its five members.
    pub open spec fn json(&self) -> Seq<char> {
        "{\"origin_data_key\":"@ + json_quoted_text(self.origin_data_key@)
            + ",\"origin_meta_contract_id\":"@ + json_quoted_text(self.origin_meta_contract_id@)
            + ",\"origin_public_key\":"@ + json_quoted_text(self.origin_public_key@)
            + ",\"origin_alias\":"@ + json_quoted_text(self.origin_alias@)
            + ",\"origin_version\":"@ + json_quoted_text(self.origin_version@) + "}"@
    }

    /// Writes the payload as JSON.
    pub fn to_json(&self) -> (json: String)
        ensures
            json@ == self.json(),
    {
        let mut json = String::from_str("{\"origin_data_key\":");
        json.append(quote(self.origin_data_key.as_str()).as_str());
        json.append(",\"origin_meta_contract_id\":");
        json.append(quote(self.origin_meta_contract_id.as_str()).as_str());
        json.append(",\"origin_public_key\":");
        json.append(quote(self.origin_public_key.as_str()).as_str());
        json.append(",\"origin_alias\":");
        json.append(quote(self.origin_alias.as_str()).as_str());
        json.append(",\"origin_version\":");
        json.append(quote(self.origin_version.as_str()).as_str());
        json.append("}");
        assert(json@ =~= self.json());
        json
    }
}

impl DataTypeFork {
    /// The fork request with every missing member filled in: an empty text
    /// for a text, zero for the token.
    pub fn from(fork_data: SerdeDataTypeFork) -> (r: Self)
        ensures
            match fork_data.data {
                Some(d) => r.data == d,
                None => r.data@.len() == 0,
            },
            match fork_data.token_id {
                Some(t) => r.token_id@ == decimal(t as nat),
                None => r.token_id@ == decimal(0),
            },
            match fork_data.to {
                Some(a) => r.address == a,
                None => r.address@.len() == 0,
            },
    {
        let data = match fork_data.data {
            Some(d) => d,
            None => String::new(),
        };
        let token_id = match fork_data.token_id {
            Some(t) => decimal_string(t),
            None => decimal_string(0),
        };
        let address = match fork_data.to {
            Some(a) => a,
            None => String::new(),
        };
        Self { data, token_id, address }
    }
}

} // verus!
