//! A key pair in text form.

use vstd::prelude::*;

verus! {

/// A public and a secret key, each as text.
#[derive(Debug, Default)]
pub struct KeyPair {
    pub pk: String,
    pub sk: String,
}

} // verus!
