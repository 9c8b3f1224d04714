//! Result records shared by the services: each carries a success flag and
//! an error message beside its payload.

pub mod dht;
pub mod get;
pub mod ipfs;
pub mod keypair;
pub mod result;
pub mod retrieval;
