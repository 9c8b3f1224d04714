//! The recoverable ECDSA scheme: the signer's address is recovered from the
//! signature and compared with the address that the caller names.

use vstd::prelude::*;
use vstd::string::*;
use vstd::slice::slice_subrange;
use vstd::utf8::encode_utf8;
use tiny_keccak::Hasher;
use crate::crypto::CryptoError;
use crate::text::{decimal, decimal_string};

verus! {

/// The Keccak-256 digest of `data`, as `tiny_keccak` computes it.
pub uninterp spec fn keccak256_digest(data: Seq<u8>) -> Seq<u8>;

/// The uncompressed public key (65 bytes) that `libsecp256k1` recovers
/// from a 32-byte message hash, a 64-byte signature and a recovery id in
/// the RPC form (27 to 30), where it recovers one.
pub uninterp spec fn secp256k1_recovered(message: Seq<u8>, signature: Seq<u8>, recovery_id: u8) -> Option<
    Seq<u8>,
>;

/// `text` in lower case, as `str::to_lowercase` gives it.
pub uninterp spec fn lowercase_text(text: Seq<char>) -> Seq<char>;

/// The value of an ASCII hexadecimal digit, of either case.
pub open spec fn hex_value(c: u8) -> Option<u8> {
    if 0x30 <= c <= 0x39 {
        Some((c - 0x30) as u8)
    } else if 0x41 <= c <= 0x46 {
        Some((c - 0x41 + 10) as u8)
    } else if 0x61 <= c <= 0x66 {
        Some((c - 0x61 + 10) as u8)
    } else {
        None
    }
}

/// The bytes that hexadecimal text stands for: two digits a byte, the
/// high one first. Text of odd length or with another character stands
/// for nothing.
pub open spec fn hex_decoded(text: Seq<u8>) -> Option<Seq<u8>> {
    if text.len() % 2 == 0 && forall|i: int| 0 <= i < text.len() ==> hex_value(#[trigger] text[i]) is Some {
        Some(
            Seq::new(
                text.len() / 2,
                |i: int| (hex_value(text[2 * i])->0 * 16 + hex_value(text[2 * i + 1])->0) as u8,
            ),
        )
    } else {
        None
    }
}

/// The lower-case hexadecimal digit of a value below 16.
pub open spec fn hex_digit(v: int) -> char {
    if v == 0 {
        '0'
    } else if v == 1 {
        '1'
    } else if v == 2 {
        '2'
    } else if v == 3 {
        '3'
    } else if v == 4 {
        '4'
    } else if v == 5 {
        '5'
    } else if v == 6 {
        '6'
    } else if v == 7 {
        '7'
    } else if v == 8 {
        '8'
    } else if v == 9 {
        '9'
    } else if v == 10 {
        'a'
    } else if v == 11 {
        'b'
    } else if v == 12 {
        'c'
    } else if v == 13 {
        'd'
    } else if v == 14 {
        'e'
    } else {
        'f'
    }
}

/// The lower-case hexadecimal text of `data`: two digits a byte, the high
/// one first.
pub open spec fn hex_text(data: Seq<u8>) -> Seq<char> {
    Seq::new(
        2 * data.len(),
        |i: int|
            hex_digit(
                if i % 2 == 0 {
                    data[i / 2] as int / 16
                } else {
                    data[i / 2] as int % 16
                },
            ),
    )
}

/// Calls `tiny_keccak::Keccak::v256`, `update` and `finalize`. Trusted:
/// the 32 bytes returned are the Keccak-256 digest of `data`.
#[verifier::external_body]
fn keccak256(data: &[u8]) -> (digest: [u8; 32])
    ensures
        digest@ == keccak256_digest(data@),
{
    let mut hasher = tiny_keccak::Keccak::v256();
    let mut digest = [0u8; 32];
    hasher.update(data);
    hasher.finalize(&mut digest);
    digest
}

/// Calls `hex::decode`. Trusted: the crate reads two hexadecimal digits of
/// either case into each byte and rejects every other text.
#[verifier::external_body]
fn hex_decode(text: &[u8]) -> (data: Option<Vec<u8>>)
    ensures
        data.is_some() == hex_decoded(text@).is_some(),
        data matches Some(d) ==> hex_decoded(text@) == Some(d@),
{
    hex::decode(text).ok()
}

/// Calls `hex::encode`. Trusted: the crate writes each byte as two
/// lower-case hexadecimal digits.
#[verifier::external_body]
fn hex_encode(data: &[u8]) -> (text: String)
    ensures
        text@ == hex_text(data@),
{
    hex::encode(data)
}

/// Calls `str::to_lowercase`. Trusted: the text returned is the lower-case
/// form of `text`.
#[verifier::external_body]
fn lowercase(text: &str) -> (lower: String)
    ensures
        lower@ == lowercase_text(text@),
{
    text.to_lowercase()
}

/// Calls `libsecp256k1::recover` on what `Message::parse`,
/// `Signature::parse_standard_slice` and `RecoveryId::parse_rpc` read, and
/// `PublicKey::serialize` on the key. Trusted: the result is the key that
/// the crate recovers, `None` where it rejects the signature, the recovery
/// id or the recovery.
#[verifier::external_body]
fn recover(message: &[u8; 32], signature: &[u8], recovery_id: u8) -> (key: Option<[u8; 65]>)
    requires
        signature@.len() == 64,
    ensures
        key.is_some() == secp256k1_recovered(message@, signature@, recovery_id).is_some(),
        key matches Some(k) ==> secp256k1_recovered(message@, signature@, recovery_id) == Some(k@),
{
    let msg = libsecp256k1::Message::parse(message);
    let sig = libsecp256k1::Signature::parse_standard_slice(signature).ok()?;
    let id = libsecp256k1::RecoveryId::parse_rpc(recovery_id).ok()?;
    let key = libsecp256k1::recover(&msg, &sig, &id).ok()?;
    Some(key.serialize())
}

/// The text that is hashed for `message`: a fixed tag, the length of the
/// message in bytes, and the message.
pub open spec fn eth_preimage(message: Seq<char>) -> Seq<char> {
    "\x19Ethereum Signed Message:\n"@ + decimal(encode_utf8(message).len()) + message
}

/// The message hash that a signer of the recoverable scheme signs.
pub open spec fn eth_message_spec(message: Seq<char>) -> Seq<u8> {
    keccak256_digest(encode_utf8(eth_preimage(message)))
}

/// Wraps `message` in the tag and length prefix of signed messages and
/// hashes it.
pub fn eth_message(message: String) -> (digest: [u8; 32])
    ensures
        digest@ == eth_message_spec(message@),
{
    let mut msg = String::from_str("\x19Ethereum Signed Message:\n");
    let length = decimal_string(message.as_str().as_bytes().len() as u64);
    msg.append(length.as_str());
    msg.append(message.as_str());
    keccak256(msg.as_str().as_bytes())
}

/// The address of an uncompressed public key: `0x` and, in hexadecimal,
/// the last 20 bytes of the digest of the key without its first byte.
pub open spec fn address_spec(public_key: Seq<u8>) -> Seq<char> {
    "0x"@ + hex_text(keccak256_digest(public_key.subrange(1, 65)).subrange(12, 32))
}

/// The address that belongs to an uncompressed public key.
pub fn public_key_to_address(public_key: [u8; 65]) -> (address: String)
    ensures
        address@ == address_spec(public_key@),
{
    let hash = keccak256(slice_subrange(public_key.as_slice(), 1, 65));
    let address_hex = hex_encode(slice_subrange(hash.as_slice(), 12, 32));
    let mut address = String::from_str("0x");
    address.append(address_hex.as_str());
    address
}

/// The signature and the recovery id in decoded signature bytes: the
/// first 64 bytes and the byte after them.
pub open spec fn signature_parts_spec(decoded: Option<Seq<u8>>) -> Option<(Seq<u8>, u8)> {
    match decoded {
        Some(bytes) => if bytes.len() >= 65 {
            Some((bytes.subrange(0, 64), bytes[64]))
        } else {
            None
        },
        None => None,
    }
}

/// The signature bytes that the text `signature` holds after its first
/// two bytes, the `0x` of the usual form.
pub open spec fn signature_bytes_spec(signature: Seq<char>) -> Option<Seq<u8>> {
    let text = encode_utf8(signature);
    if text.len() < 2 {
        None
    } else {
        hex_decoded(text.subrange(2, text.len() as int))
    }
}

/// Whether the caller's address is the address of the recovered key,
/// compared without regard to case; an error where no key was recovered.
pub open spec fn address_matches_spec(public_key: Seq<char>, recovered: Option<Seq<u8>>) -> Result<
    bool,
    CryptoError,
> {
    match recovered {
        None => Err(CryptoError::MalformedSignature),
        Some(key) => Ok(lowercase_text(public_key) == lowercase_text(address_spec(key))),
    }
}

/// What `verify` answers.
pub open spec fn verify_spec(public_key: Seq<char>, signature: Seq<char>, message: Seq<char>) -> Result<
    bool,
    CryptoError,
> {
    match signature_parts_spec(signature_bytes_spec(signature)) {
        None => Err(CryptoError::MalformedSignature),
        Some(parts) => address_matches_spec(
            public_key,
            secp256k1_recovered(eth_message_spec(message), parts.0, parts.1),
        ),
    }
}

/// The bytes of a recovered key.
pub open spec fn key_of(recovered: Option<[u8; 65]>) -> Option<Seq<u8>> {
    match recovered {
        Some(key) => Some(key@),
        None => None,
    }
}

/// Compares the caller's address with the address of the recovered key.
pub fn address_matches(public_key: &str, recovered: Option<[u8; 65]>) -> (r: Result<bool, CryptoError>)
    ensures
        r == address_matches_spec(public_key@, key_of(recovered)),
{
    match recovered {
        None => Err(CryptoError::MalformedSignature),
        Some(key) => {
            let address = public_key_to_address(key);
            let ours = lowercase(public_key);
            let theirs = lowercase(address.as_str());
            Ok(ours == theirs)
        },
    }
}

/// Checks the hexadecimal `signature` (65 bytes after `0x`: r, s and the
/// recovery id) over `message`: the address recovered from it must be
/// `public_key`, whatever the case of its letters.
pub fn verify(public_key: String, signature: String, message: String) -> (r: Result<bool, CryptoError>)
    ensures
        r == verify_spec(public_key@, signature@, message@),
{
    let text = signature.as_str().as_bytes();
    if text.len() < 2 {
        return Err(CryptoError::MalformedSignature);
    }
    let decoded = hex_decode(slice_subrange(text, 2, text.len()));
    match decoded {
        None => Err(CryptoError::MalformedSignature),
        Some(bytes) => {
            if bytes.len() < 65 {
                return Err(CryptoError::MalformedSignature);
            }
            let digest = eth_message(message);
            let recovered = recover(&digest, slice_subrange(bytes.as_slice(), 0, 64), bytes[64]);
            address_matches(public_key.as_str(), recovered)
        },
    }
}

} // verus!
