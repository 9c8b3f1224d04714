use fdb::crypto::{ed25519, generate_keypair, get_public_key_type, secp256k1, sign, verify, CryptoError};

fn eth_signer(secret: u8) -> (libsecp256k1::SecretKey, String) {
    let sk = libsecp256k1::SecretKey::parse(&[secret; 32]).unwrap();
    let pk = libsecp256k1::PublicKey::from_secret_key(&sk);
    (sk, secp256k1::public_key_to_address(pk.serialize()))
}

fn eth_signature(sk: &libsecp256k1::SecretKey, message: &str) -> String {
    let digest = secp256k1::eth_message(message.to_string());
    let (sig, id) = libsecp256k1::sign(&libsecp256k1::Message::parse(&digest), sk);
    let mut bytes = sig.serialize().to_vec();
    bytes.push(id.serialize() + 27);
    format!("0x{}", hex::encode(bytes))
}

fn ed_keys() -> (String, String) {
    let pair = generate_keypair();
    let pk = base64::decode(&pair.pk).unwrap();
    (bs58::encode(pk).into_string(), pair.sk)
}

fn ed_signature(sk: &str, message: &str) -> String {
    let sig = base64::decode(sign(message.to_string(), sk.to_string()).unwrap()).unwrap();
    bs58::encode(sig).into_string()
}

#[test]
fn eth_message_of_hello() {
    let digest = secp256k1::eth_message("hello".to_string());
    assert_eq!(
        hex::encode(digest),
        "50b2c43fd39106bafbba0da34fc430e1f91e3c96ea2acee2bc34119f92b37750"
    );
}

#[test]
fn eth_message_counts_bytes() {
    // The length in the prefix is the number of bytes, not of characters.
    let digest = secp256k1::eth_message("é".to_string());
    let mut expected = [0u8; 32];
    let mut keccak = tiny_keccak::Keccak::v256();
    tiny_keccak::Hasher::update(&mut keccak, "\x19Ethereum Signed Message:\n2é".as_bytes());
    tiny_keccak::Hasher::finalize(keccak, &mut expected);
    assert_eq!(digest, expected);
}

#[test]
fn address_of_secret_key_one() {
    let mut secret = [0u8; 32];
    secret[31] = 1;
    let sk = libsecp256k1::SecretKey::parse(&secret).unwrap();
    let pk = libsecp256k1::PublicKey::from_secret_key(&sk);
    assert_eq!(
        secp256k1::public_key_to_address(pk.serialize()),
        "0x7e5f4552091a69125d5dfcb7b8c2659029395bdf"
    );
}

#[test]
fn secp256k1_accepts_a_signature_of_the_signer() {
    let (sk, address) = eth_signer(7);
    let signature = eth_signature(&sk, "payload");
    assert_eq!(secp256k1::verify(address, signature, "payload".to_string()), Ok(true));
}

#[test]
fn secp256k1_compares_addresses_without_case() {
    let (sk, address) = eth_signer(7);
    let signature = eth_signature(&sk, "payload");
    let upper = format!("0x{}", address[2..].to_uppercase());
    assert_ne!(upper, address);
    assert_eq!(secp256k1::verify(upper, signature, "payload".to_string()), Ok(true));
}

#[test]
fn secp256k1_accepts_upper_case_signature_digits() {
    let (sk, address) = eth_signer(7);
    let signature = eth_signature(&sk, "payload");
    let upper = format!("0x{}", signature[2..].to_uppercase());
    assert_eq!(secp256k1::verify(address, upper, "payload".to_string()), Ok(true));
}

#[test]
fn secp256k1_rejects_another_message_or_signer() {
    let (sk, address) = eth_signer(7);
    let (_, other) = eth_signer(8);
    let signature = eth_signature(&sk, "payload");
    assert_eq!(secp256k1::verify(address, signature.clone(), "other".to_string()), Ok(false));
    assert_eq!(secp256k1::verify(other, signature, "payload".to_string()), Ok(false));
}

#[test]
fn secp256k1_tells_malformed_signatures_from_wrong_ones() {
    let (sk, address) = eth_signer(7);
    let signature = eth_signature(&sk, "payload");
    let malformed = Err(CryptoError::MalformedSignature);
    assert_eq!(secp256k1::verify(address.clone(), "".to_string(), "payload".to_string()), malformed);
    assert_eq!(secp256k1::verify(address.clone(), "0".to_string(), "payload".to_string()), malformed);
    assert_eq!(secp256k1::verify(address.clone(), "0x".to_string(), "payload".to_string()), malformed);
    assert_eq!(secp256k1::verify(address.clone(), "0xzz".to_string(), "payload".to_string()), malformed);
    assert_eq!(secp256k1::verify(address.clone(), "0xabc".to_string(), "payload".to_string()), malformed);
    // 64 bytes: the recovery id is missing.
    let short = signature[..130].to_string();
    assert_eq!(secp256k1::verify(address.clone(), short, "payload".to_string()), malformed);
    // A recovery id outside 27..=30.
    let bad_id = format!("{}05", &signature[..130]);
    assert_eq!(secp256k1::verify(address.clone(), bad_id, "payload".to_string()), malformed);
    // r and s beyond the order of the curve.
    let overflow = format!("0x{}1b", "ff".repeat(64));
    assert_eq!(secp256k1::verify(address.clone(), overflow, "payload".to_string()), malformed);
    // A multi-byte character where the prefix should be.
    assert_eq!(secp256k1::verify(address, "é00".to_string(), "payload".to_string()), malformed);
}

#[test]
fn ed25519_accepts_a_signature_of_the_key() {
    let (pk, sk) = ed_keys();
    let signature = ed_signature(&sk, "payload");
    assert_eq!(ed25519::verify(pk, signature, "payload".to_string()), Ok(true));
}

#[test]
fn ed25519_rejects_another_message() {
    let (pk, sk) = ed_keys();
    let signature = ed_signature(&sk, "payload");
    assert_eq!(ed25519::verify(pk, signature, "other".to_string()), Ok(false));
}

#[test]
fn ed25519_tells_malformed_input_from_wrong_signatures() {
    let (pk, sk) = ed_keys();
    let signature = ed_signature(&sk, "payload");
    let msg = "payload".to_string();
    assert_eq!(
        ed25519::verify("0OIl".to_string(), signature.clone(), msg.clone()),
        Err(CryptoError::MalformedPublicKey)
    );
    assert_eq!(
        ed25519::verify(bs58::encode([1u8; 31]).into_string(), signature.clone(), msg.clone()),
        Err(CryptoError::MalformedPublicKey)
    );
    assert_eq!(
        ed25519::verify("1".repeat(200), signature.clone(), msg.clone()),
        Err(CryptoError::MalformedPublicKey)
    );
    assert_eq!(
        ed25519::verify(pk.clone(), bs58::encode([1u8; 63]).into_string(), msg.clone()),
        Err(CryptoError::MalformedSignature)
    );
    assert_eq!(
        ed25519::verify(pk.clone(), "not base58!".to_string(), msg.clone()),
        Err(CryptoError::MalformedSignature)
    );
    assert_eq!(ed25519::verify(pk, bs58::encode([1u8; 64]).into_string(), msg), Ok(false));
}

#[test]
fn base58_decoding_of_known_texts() {
    assert_eq!(ed25519::decode("ZiCa"), Some(vec![97, 98, 99]));
    assert_eq!(ed25519::decode(""), Some(vec![]));
    assert_eq!(ed25519::decode("0"), None);
    assert_eq!(ed25519::decode(&"1".repeat(132)), Some(vec![0u8; 132]));
    assert_eq!(ed25519::decode(&"1".repeat(133)), None);
    assert_eq!(ed25519::fixed_width(Some(vec![1, 2, 3]), 3), Some(vec![1, 2, 3]));
    assert_eq!(ed25519::fixed_width(Some(vec![1, 2, 3]), 4), None);
    assert_eq!(ed25519::fixed_width(None, 0), None);
}

#[test]
fn generated_keys_have_the_widths_of_the_scheme() {
    let pair = generate_keypair();
    assert_eq!(base64::decode(&pair.pk).unwrap().len(), 32);
    assert_eq!(base64::decode(&pair.sk).unwrap().len(), 64);
    let other = generate_keypair();
    assert_ne!(pair.pk, other.pk);
}

#[test]
fn sign_rejects_malformed_secret_keys() {
    assert_eq!(sign("m".to_string(), "***".to_string()), Err(CryptoError::MalformedSecretKey));
    assert_eq!(
        sign("m".to_string(), base64::encode([1u8; 32])),
        Err(CryptoError::MalformedSecretKey)
    );
    let pair = generate_keypair();
    let signature = sign("m".to_string(), pair.sk).unwrap();
    assert_eq!(base64::decode(signature).unwrap().len(), 64);
}

#[test]
fn key_shape_selects_the_scheme() {
    let (_, address) = eth_signer(7);
    assert_eq!(get_public_key_type(&address), "secp256k1");
    let (pk, _) = ed_keys();
    assert_eq!(get_public_key_type(&pk), "ed25519");
    assert_eq!(get_public_key_type(""), "");
    assert_eq!(get_public_key_type("abc"), "");
    assert_eq!(get_public_key_type(&address[..41]), "");
    assert_eq!(get_public_key_type(&bs58::encode([1u8; 33]).into_string()), "");
}

#[test]
fn dispatcher_follows_the_scheme_tag() {
    let (sk, address) = eth_signer(7);
    let signature = eth_signature(&sk, "payload");
    let msg = "payload".to_string();
    assert_eq!(verify(address.clone(), signature.clone(), msg.clone(), "secp256k1".to_string()), Ok(true));
    // An empty tag stands for the recoverable scheme.
    assert_eq!(verify(address.clone(), signature.clone(), msg.clone(), "".to_string()), Ok(true));
    assert_eq!(
        verify(address.clone(), signature.clone(), msg.clone(), "rsa".to_string()),
        Err(CryptoError::NotSupportedEncryptionType)
    );
    let (pk, esk) = ed_keys();
    let esig = ed_signature(&esk, "payload");
    assert_eq!(verify(pk.clone(), esig.clone(), msg.clone(), "ed25519".to_string()), Ok(true));
    // The text of an EdDSA key is no signature of the recoverable scheme.
    assert_eq!(verify(pk, esig, msg, "secp256k1".to_string()), Err(CryptoError::MalformedSignature));
}
