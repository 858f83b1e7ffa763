use parity_common::crypto::kdf::{derive_key, ScryptError};

fn hex(s: &str) -> Vec<u8> {
    (0..s.len()).step_by(2).map(|i| u8::from_str_radix(&s[i..i + 2], 16).unwrap()).collect()
}

#[test]
fn test_derive() {
    let pass = b"parity pass";
    let salt: Vec<u8> = (0u8..32).collect();
    let (l, r) = derive_key(&pass[..], &salt, 262, 1, 8).unwrap();
    assert!(l == hex("577096ef2eeda11ccd2ef15ccebdc2c4"));
    assert!(r == hex("768293861629174c0a639a32706926a7"));
    let (l, r) = derive_key(&pass[..], &salt, 144, 4, 4).unwrap();
    assert!(l == hex("b676adc137f0d596ba3b8b4fd42db38c"));
    assert!(r == hex("d0c82276bf3b5141277ab9930001f0df"));
}

#[test]
fn derive_key_rfc_vector_halves() {
    // scrypt("password", "NaCl", N = 16, r = 1, p = 1), first 32 bytes
    let (l, r) = derive_key(b"password", b"NaCl", 16, 1, 1).unwrap();
    assert_eq!(l, hex("aec6b7483ed26e08802b41f4032086a0"));
    assert_eq!(r, hex("e886be7ac48fcfd92ff0cef8109752f4"));
    assert_eq!(l.len(), 16);
    assert_eq!(r.len(), 16);
}

#[test]
fn derive_key_n_is_rounded_down_to_power_of_two() {
    // 16 and 31 share log2 floor 4
    let a = derive_key(b"password", b"NaCl", 16, 1, 1).unwrap();
    let b = derive_key(b"password", b"NaCl", 31, 1, 1).unwrap();
    assert_eq!(a, b);
}

#[test]
fn derive_key_invalid_n() {
    // log2(2^17) = 17 >= 16 * r for r = 1
    assert_eq!(derive_key(b"p", b"s", 1 << 17, 1, 1), Err(ScryptError::InvalidN));
    // r = 0 refuses every n
    assert_eq!(derive_key(b"p", b"s", 2, 1, 0), Err(ScryptError::InvalidN));
}

#[test]
fn derive_key_invalid_p() {
    // the largest p for r = 1 is ((2^32 - 2) * 32) / 128 = 1073741823
    assert_eq!(derive_key(b"p", b"s", 2, 1_073_741_824, 1), Err(ScryptError::InvalidP));
}

#[test]
fn derive_key_refused_by_scrypt_params() {
    // 128 * r * N = 2^7 * 2^27 * 2^31 overflows a usize on 64-bit targets
    assert_eq!(derive_key(b"p", b"s", 1 << 31, 1, 1 << 27), Err(ScryptError::ScryptParam));
}
