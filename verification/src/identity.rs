//! The identity hasher: one deterministic identity string for a record,
//! computed from its fields in a fixed order.

use vstd::prelude::*;
use vstd::string::*;
use vstd::utf8::encode_utf8;
use sha2::Digest;
use crate::text::{join, joined, lemma_joined_differs};

verus! {

/// The SHA-256 digest of `data`, as `sha2` computes it.
pub uninterp spec fn sha256_digest(data: Seq<u8>) -> Seq<u8>;

/// The Base58 text of `data` in the Bitcoin alphabet, as `bs58` writes it.
pub uninterp spec fn base58_text(data: Seq<u8>) -> Seq<char>;

/// The identity of a record whose fields concatenate to `preimage`: the
/// Base58 text of the SHA-256 digest of its UTF-8 bytes.
pub open spec fn identity_of(preimage: Seq<char>) -> Seq<char> {
    base58_text(sha256_digest(encode_utf8(preimage)))
}

/// Calls `sha2::Sha256::digest`. Trusted: the bytes returned are the
/// SHA-256 digest of `data`, which is 32 bytes long.
#[verifier::external_body]
fn sha256(data: &[u8]) -> (digest: Vec<u8>)
    ensures
        digest@ == sha256_digest(data@),
        digest@.len() == 32,
{
    sha2::Sha256::digest(data).to_vec()
}

/// Calls `bs58::encode(..).into_string()`. Trusted: the text returned is
/// the Base58 encoding of `data` in the default (Bitcoin) alphabet.
#[verifier::external_body]
fn base58(data: &[u8]) -> (text: String)
    ensures
        text@ == base58_text(data@),
{
    bs58::encode(data).into_string()
}

/// The identity of the record whose fields concatenate to `preimage`.
pub fn hash_text(preimage: &str) -> (id: String)
    ensures
        id@ == identity_of(preimage@),
{
    let digest = sha256(preimage.as_bytes());
    base58(digest.as_slice())
}

/// The identity of a record, from its fields in their fixed order.
pub fn identity(fields: &Vec<String>) -> (id: String)
    ensures
        id@ == identity_of(joined(fields@.map_values(|f: String| f@))),
{
    let preimage = join(fields);
    hash_text(preimage.as_str())
}

/// Equal field tuples have equal identities.
pub proof fn law_identity_deterministic(x: Seq<Seq<char>>, y: Seq<Seq<char>>)
    requires
        x =~= y,
    ensures
        identity_of(joined(x)) == identity_of(joined(y)),
{
}

/// Tuples that differ in exactly one field are hashed from different
/// texts, so their identities differ unless SHA-256 or the encoding collide.
pub proof fn law_identity_preimage_differs(x: Seq<Seq<char>>, y: Seq<Seq<char>>, k: int)
    requires
        x.len() == y.len(),
        0 <= k < x.len(),
        x[k] != y[k],
        forall|i: int| 0 <= i < x.len() && i != k ==> x[i] == y[i],
    ensures
        joined(x) != joined(y),
{
    lemma_joined_differs(x, y, k);
}

} // verus!
