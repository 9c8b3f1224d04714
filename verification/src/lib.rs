//! A content-addressed metadata registry: signed transactions create and
//! update versioned metadata records, each finalised in a second step, with
//! every version kept as a block of a hash-linked history.

pub mod text;
pub mod identity;
pub mod json;
pub mod crypto;
pub mod types;
pub mod ipfsdag;
pub mod node;
pub mod dht;
