use fdb::identity::{hash_text, identity};
use fdb::text::{decimal_string, digit_str, is_text, join};

#[test]
fn identity_of_empty_text() {
    assert_eq!(hash_text(""), "GKot5hBsd81kMupNCXHaqbhv3huEbxAFMLnpcX2hniwn");
}

#[test]
fn identity_is_base58_of_sha256() {
    // SHA-256("abc") = ba7816bf 8f01cfea 414140de 5dae2223 b00361a3 96177a9c b410ff61 f20015ad
    let digest = [
        0xbau8, 0x78, 0x16, 0xbf, 0x8f, 0x01, 0xcf, 0xea, 0x41, 0x41, 0x40, 0xde, 0x5d, 0xae, 0x22, 0x23,
        0xb0, 0x03, 0x61, 0xa3, 0x96, 0x17, 0x7a, 0x9c, 0xb4, 0x10, 0xff, 0x61, 0xf2, 0x00, 0x15, 0xad,
    ];
    assert_eq!(hash_text("abc"), bs58::encode(digest).into_string());
    assert_ne!(hash_text("abc"), "abc");
}

#[test]
fn identity_concatenates_fields_in_order() {
    let fields = vec!["a".to_string(), "bc".to_string(), "".to_string(), "d".to_string()];
    assert_eq!(join(&fields), "abcd");
    assert_eq!(identity(&fields), hash_text("abcd"));
}

#[test]
fn identity_is_deterministic() {
    let one = vec!["d1".to_string(), "mc".to_string(), "a".to_string(), "pk1".to_string(), "v1".to_string()];
    let two = vec!["d1".to_string(), "mc".to_string(), "a".to_string(), "pk1".to_string(), "v1".to_string()];
    assert_eq!(identity(&one), identity(&two));
}

#[test]
fn identity_differs_when_one_field_differs() {
    let base = vec!["d1".to_string(), "mc".to_string(), "a".to_string(), "pk1".to_string(), "v1".to_string()];
    for k in 0..base.len() {
        let mut other = base.clone();
        other[k] = format!("{}x", other[k]);
        assert_ne!(identity(&base), identity(&other));
    }
}

#[test]
fn identity_depends_on_field_order() {
    let one = vec!["a".to_string(), "b".to_string()];
    let two = vec!["b".to_string(), "a".to_string()];
    assert_ne!(identity(&one), identity(&two));
}

#[test]
fn decimal_rendering() {
    assert_eq!(decimal_string(0), "0");
    assert_eq!(decimal_string(7), "7");
    assert_eq!(decimal_string(10), "10");
    assert_eq!(decimal_string(1234567890), "1234567890");
    assert_eq!(decimal_string(u64::MAX), "18446744073709551615");
    assert_eq!(digit_str(9), "9");
}

#[test]
fn literal_comparison() {
    assert!(is_text(&"metadata".to_string(), "metadata"));
    assert!(!is_text(&"metadata".to_string(), "Metadata"));
    assert!(!is_text(&"".to_string(), "metadata"));
}
