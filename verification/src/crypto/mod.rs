//! Signature verification for the two supported schemes, and the choice
//! between them.

use vstd::prelude::*;
use vstd::string::*;
use vstd::utf8::encode_utf8;
use crate::text::is_text;
use crate::types::keypair::Ed25519KeyPair;

pub mod ed25519;
pub mod keypair;
pub mod secp256k1;

verus! {

/// Why a signature could not be checked at all. A checked signature that
/// does not match is no error: it is `Ok(false)`.
#[derive(Debug, Clone, Copy, PartialEq, Eq, Structural)]
pub enum CryptoError {
    /// The public key has the wrong encoding or width.
    MalformedPublicKey,
    /// The signature has the wrong encoding or width, or names no key.
    MalformedSignature,
    /// The secret key has the wrong encoding or width.
    MalformedSecretKey,
    /// The scheme tag names none of the supported schemes.
    NotSupportedEncryptionType,
}

/// The tag of the recoverable ECDSA scheme.
pub open spec fn secp256k1_tag() -> Seq<char> {
    "secp256k1"@
}

/// The tag of the EdDSA scheme.
pub open spec fn ed25519_tag() -> Seq<char> {
    "ed25519"@
}

/// The Base64 text of `data` in the standard alphabet, as `base64` writes it.
pub uninterp spec fn base64_text(data: Seq<u8>) -> Seq<char>;

/// The bytes that `base64` reads from the UTF-8 bytes `text`, where it accepts them.
pub uninterp spec fn base64_bytes(text: Seq<u8>) -> Option<Seq<u8>>;

/// Calls `base64::encode`. Trusted: the text returned is the standard
/// Base64 encoding of `data`.
#[verifier::external_body]
pub(crate) fn base64_encode(data: &[u8]) -> (text: String)
    ensures
        text@ == base64_text(data@),
{
    base64::encode(data)
}

/// Calls `base64::decode`. Trusted: the result is what the crate decodes
/// from `text`, `None` where it reports an error.
#[verifier::external_body]
pub(crate) fn base64_decode(text: &[u8]) -> (data: Option<Vec<u8>>)
    ensures
        data.is_some() == base64_bytes(text@).is_some(),
        data matches Some(d) ==> base64_bytes(text@) == Some(d@),
{
    base64::decode(text).ok()
}

/// What `verify` answers, given the scheme tag.
pub open spec fn verify_spec(
    public_key: Seq<char>,
    signature: Seq<char>,
    message: Seq<char>,
    enc: Seq<char>,
) -> Result<bool, CryptoError> {
    if enc.len() == 0 || enc == secp256k1_tag() {
        secp256k1::verify_spec(public_key, signature, message)
    } else if enc == ed25519_tag() {
        ed25519::verify_spec(public_key, signature, message)
    } else {
        Err(CryptoError::NotSupportedEncryptionType)
    }
}

/// Checks `signature` over `message` under the scheme `enc`. An empty tag
/// selects the recoverable ECDSA scheme, as older callers expect; a tag
/// that names no scheme is rejected.
pub fn verify(public_key: String, signature: String, message: String, enc: String) -> (r: Result<
    bool,
    CryptoError,
>)
    ensures
        r == verify_spec(public_key@, signature@, message@, enc@),
{
    if enc.as_str().is_empty() || is_text(&enc, "secp256k1") {
        secp256k1::verify(public_key, signature, message)
    } else if is_text(&enc, "ed25519") {
        ed25519::verify(public_key, signature, message)
    } else {
        Err(CryptoError::NotSupportedEncryptionType)
    }
}

/// The scheme that the shape of `public_key` selects: an address of 42
/// bytes that starts with `0x` is a recoverable ECDSA signer, a Base58 text
/// of 32 bytes an EdDSA key; anything else has no scheme.
pub open spec fn public_key_type_spec(public_key: Seq<char>) -> Seq<char> {
    let bytes = encode_utf8(public_key);
    if bytes.len() == 42 && bytes[0] == 0x30 && bytes[1] == 0x78 {
        secp256k1_tag()
    } else if ed25519::fixed_width_spec(ed25519::decoded_spec(bytes), 32) is Some {
        ed25519_tag()
    } else {
        Seq::empty()
    }
}

/// Infers the signature scheme from the shape of the public key; the
/// empty string where the key fits no scheme.
pub fn get_public_key_type(public_key: &str) -> (enc: String)
    ensures
        enc@ == public_key_type_spec(public_key@),
{
    let bytes = public_key.as_bytes();
    if bytes.len() == 42 && bytes[0] == 0x30 && bytes[1] == 0x78 {
        String::from_str("secp256k1")
    } else {
        let decoded = ed25519::decode(public_key);
        if ed25519::fixed_width(decoded, 32).is_some() {
            String::from_str("ed25519")
        } else {
            String::new()
        }
    }
}

/// Calls `ed25519_compact::KeyPair::generate`. Trusted: the public key has
/// 32 bytes and the secret key 64; which keys come back is left open.
#[verifier::external_body]
fn fresh_keys() -> (keys: (Vec<u8>, Vec<u8>))
    ensures
        keys.0@.len() == 32,
        keys.1@.len() == 64,
{
    let kp = ed25519_compact::KeyPair::generate();
    (kp.pk.to_vec(), kp.sk.to_vec())
}

/// Calls `ed25519_compact::SecretKey::sign`, on what
/// `SecretKey::from_slice` reads and with the noise of `Noise::default`.
/// Trusted: the signature has 64 bytes; its value depends on the noise.
#[verifier::external_body]
fn sign_bytes(secret_key: &[u8], message: &[u8]) -> (signature: Vec<u8>)
    requires
        secret_key@.len() == 64,
    ensures
        signature@.len() == 64,
{
    let sk = ed25519_compact::SecretKey::from_slice(secret_key).unwrap();
    sk.sign(message, Some(ed25519_compact::Noise::default())).to_vec()
}

/// The text form of the keys `pk` and `sk`.
pub fn encode_keypair(pk: &Vec<u8>, sk: &Vec<u8>) -> (pair: Ed25519KeyPair)
    ensures
        pair.pk@ == base64_text(pk@),
        pair.sk@ == base64_text(sk@),
{
    Ed25519KeyPair { pk: base64_encode(pk.as_slice()), sk: base64_encode(sk.as_slice()) }
}

/// Generates a key pair of the EdDSA scheme; both keys come back as
/// Base64 text.
pub fn generate_keypair() -> (pair: Ed25519KeyPair)
    ensures
        exists|pk: Seq<u8>, sk: Seq<u8>|
            pk.len() == 32 && sk.len() == 64 && pair.pk@ == base64_text(pk) && pair.sk@
                == base64_text(sk),
{
    let keys = fresh_keys();
    let pair = encode_keypair(&keys.0, &keys.1);
    assert(keys.0@.len() == 32 && keys.1@.len() == 64 && pair.pk@ == base64_text(keys.0@)
        && pair.sk@ == base64_text(keys.1@));
    pair
}

/// The secret key that the Base64 text `private_key` holds, where it
/// decodes to 64 bytes.
pub open spec fn secret_key_spec(private_key: Seq<char>) -> Option<Seq<u8>> {
    match base64_bytes(encode_utf8(private_key)) {
        Some(bytes) => if bytes.len() == 64 {
            Some(bytes)
        } else {
            None
        },
        None => None,
    }
}

/// The secret key in `decoded`, where it is there and has 64 bytes.
pub fn secret_key(decoded: Option<Vec<u8>>) -> (key: Result<Vec<u8>, CryptoError>)
    ensures
        match decoded {
            Some(bytes) => if bytes@.len() == 64 {
                key == Ok::<Vec<u8>, CryptoError>(bytes)
            } else {
                key == Err::<Vec<u8>, CryptoError>(CryptoError::MalformedSecretKey)
            },
            None => key == Err::<Vec<u8>, CryptoError>(CryptoError::MalformedSecretKey),
        },
{
    match decoded {
        Some(bytes) => if bytes.len() == 64 {
            Ok(bytes)
        } else {
            Err(CryptoError::MalformedSecretKey)
        },
        None => Err(CryptoError::MalformedSecretKey),
    }
}

/// Signs `message` with the secret key given as Base64 text, and returns
/// the signature as Base64 text. A key that does not decode to 64 bytes is
/// rejected.
pub fn sign(message: String, private_key: String) -> (r: Result<String, CryptoError>)
    ensures
        secret_key_spec(private_key@) is None ==> r == Err::<String, CryptoError>(
            CryptoError::MalformedSecretKey,
        ),
        secret_key_spec(private_key@) is Some ==> r is Ok && exists|signature: Seq<u8>|
            signature.len() == 64 && r->Ok_0@ == base64_text(signature),
{
    let decoded = base64_decode(private_key.as_str().as_bytes());
    match secret_key(decoded) {
        Ok(sk) => {
            let signature = sign_bytes(sk.as_slice(), message.as_str().as_bytes());
            let text = base64_encode(signature.as_slice());
            assert(signature@.len() == 64 && text@ == base64_text(signature@));
            Ok(text)
        },
        Err(e) => Err(e),
    }
}

} // verus!
