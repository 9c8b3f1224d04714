//! The EdDSA scheme: keys and signatures are Base58 texts of 32 and 64 bytes.

use vstd::prelude::*;
use vstd::string::*;
use vstd::utf8::encode_utf8;
use base58::FromBase58;
use crate::crypto::CryptoError;

verus! {

/// The longest text, in bytes, that the Base58 decoder is handed.
pub const MAX_TEXT: usize = 132;

/// The bytes that `base58` reads from the UTF-8 bytes `text`, where it accepts them.
pub uninterp spec fn base58_bytes(text: Seq<u8>) -> Option<Seq<u8>>;

/// Whether `ed25519_compact` accepts `signature` for `message` under `public_key`.
pub uninterp spec fn ed25519_valid(public_key: Seq<u8>, message: Seq<u8>, signature: Seq<u8>) -> bool;

/// Calls `base58::FromBase58::from_base58`. Trusted: the result is what
/// the crate decodes from `text`, `None` where it reports an error. The
/// crate works on a buffer of 132 bytes, so longer texts are kept out.
#[verifier::external_body]
fn from_base58(text: &str) -> (data: Option<Vec<u8>>)
    requires
        encode_utf8(text@).len() <= MAX_TEXT,
    ensures
        data.is_some() == base58_bytes(encode_utf8(text@)).is_some(),
        data matches Some(d) ==> base58_bytes(encode_utf8(text@)) == Some(d@),
{
    text.from_base58().ok()
}

/// Calls `ed25519_compact::PublicKey::verify` on what
/// `PublicKey::from_slice` and `Signature::from_slice` read. Trusted: the
/// answer is whether the crate accepts the signature.
#[verifier::external_body]
fn check(public_key: &[u8], message: &[u8], signature: &[u8]) -> (valid: bool)
    requires
        public_key@.len() == 32,
        signature@.len() == 64,
    ensures
        valid == ed25519_valid(public_key@, message@, signature@),
{
    let pk = ed25519_compact::PublicKey::from_slice(public_key).unwrap();
    let sig = ed25519_compact::Signature::from_slice(signature).unwrap();
    pk.verify(message, &sig).is_ok()
}

/// What a Base58 text of at most 132 bytes decodes to.
pub open spec fn decoded_spec(text: Seq<u8>) -> Option<Seq<u8>> {
    if text.len() <= MAX_TEXT {
        base58_bytes(text)
    } else {
        None
    }
}

/// `decoded`, where it is there and has `width` bytes.
pub open spec fn fixed_width_spec(decoded: Option<Seq<u8>>, width: nat) -> Option<Seq<u8>> {
    match decoded {
        Some(bytes) => if bytes.len() == width {
            Some(bytes)
        } else {
            None
        },
        None => None,
    }
}

/// Decodes the Base58 text `text`; `None` where it is longer than 132
/// bytes or no Base58.
pub fn decode(text: &str) -> (data: Option<Vec<u8>>)
    ensures
        data.is_some() == decoded_spec(encode_utf8(text@)).is_some(),
        data matches Some(d) ==> decoded_spec(encode_utf8(text@)) == Some(d@),
{
    if text.as_bytes().len() <= MAX_TEXT {
        from_base58(text)
    } else {
        None
    }
}

/// The bytes in a decoding result.
pub open spec fn bytes_of(decoded: Option<Vec<u8>>) -> Option<Seq<u8>> {
    match decoded {
        Some(bytes) => Some(bytes@),
        None => None,
    }
}

/// Keeps decoded bytes only where they have the expected width.
pub fn fixed_width(decoded: Option<Vec<u8>>, width: usize) -> (r: Option<Vec<u8>>)
    ensures
        r.is_some() == fixed_width_spec(bytes_of(decoded), width as nat).is_some(),
        r matches Some(d) ==> decoded == Some(d),
{
    match decoded {
        Some(bytes) => if bytes.len() == width {
            Some(bytes)
        } else {
            None
        },
        None => None,
    }
}

/// What `verify` answers: an error where key or signature is malformed,
/// else whether the signature is accepted.
pub open spec fn verify_spec(public_key: Seq<char>, signature: Seq<char>, message: Seq<char>) -> Result<
    bool,
    CryptoError,
> {
    match fixed_width_spec(decoded_spec(encode_utf8(public_key)), 32) {
        None => Err(CryptoError::MalformedPublicKey),
        Some(pk) => match fixed_width_spec(decoded_spec(encode_utf8(signature)), 64) {
            None => Err(CryptoError::MalformedSignature),
            Some(sig) => Ok(ed25519_valid(pk, encode_utf8(message), sig)),
        },
    }
}

/// Checks the Base58 `signature` over `message` under the Base58
/// `public_key`.
pub fn verify(public_key: String, signature: String, message: String) -> (r: Result<
    bool,
    CryptoError,
>)
    ensures
        r == verify_spec(public_key@, signature@, message@),
{
    let pk = fixed_width(decode(public_key.as_str()), 32);
    let sig = fixed_width(decode(signature.as_str()), 64);
    match pk {
        None => Err(CryptoError::MalformedPublicKey),
        Some(pk) => match sig {
            None => Err(CryptoError::MalformedSignature),
            Some(sig) => Ok(check(pk.as_slice(), message.as_str().as_bytes(), sig.as_slice())),
        },
    }
}

} // verus!
