//! An EdDSA key pair in text form.

use vstd::prelude::*;

verus! {

/// A public and a secret key, each as Base64 text.
#[derive(Debug)]
pub struct Ed25519KeyPair {
    pub pk: String,
    pub sk: String,
}

} // verus!
