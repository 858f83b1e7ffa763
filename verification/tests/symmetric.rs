use parity_common::crypto::symmetric::{AesCtr256, AesCtr256_cr, AesEcb256, AesEcb256_cr, SymmError};

fn hex(s: &str) -> Vec<u8> {
    (0..s.len()).step_by(2).map(|i| u8::from_str_radix(&s[i..i + 2], 16).unwrap()).collect()
}

fn message(e: SymmError) -> String {
    match e {
        SymmError::OtherError(m) => m,
    }
}

#[test]
fn ecb_encrypt_known_vector_and_back() {
    let key: Vec<u8> = (0u8..32).collect();
    let mut c = AesEcb256::new_enc(&key, None).unwrap();
    let mut data: Vec<u8> = (0u8..32).collect();
    c.encrypt(&mut data).unwrap();
    assert_eq!(data, hex("5a6e045708fb7196f02e553d02c3a692e9c3ef8ab23453e6f0749cd636e7a88e"));
    let mut d = AesEcb256::new_dec(&key, None).unwrap();
    assert_eq!(d.decrypt(&mut data).unwrap(), 32);
    assert_eq!(data, (0u8..32).collect::<Vec<u8>>());
}

#[test]
fn ecb_refuses_partial_blocks_and_bad_keys() {
    let key = [7u8; 32];
    let mut c = AesEcb256::new_enc(&key, None).unwrap();
    let mut data = vec![1u8; 17];
    assert_eq!(message(c.encrypt(&mut data).unwrap_err()), "BlockModeError");
    assert_eq!(data, vec![1u8; 17]);
    assert_eq!(message(c.decrypt(&mut data).unwrap_err()), "BlockModeError");
    assert_eq!(message(AesEcb256::new_enc(&[1u8; 16], None).err().unwrap()), "InvalidKeyLength");
    assert_eq!(message(AesEcb256::new_dec(&[1u8; 33], None).err().unwrap()), "InvalidKeyLength");
    let mut empty: Vec<u8> = Vec::new();
    assert_eq!(c.decrypt(&mut empty).unwrap(), 0);
    assert!(c.encrypt(&mut empty).is_ok());
}

#[test]
fn ecb_lengths_and_clear_state() {
    assert_eq!(AesEcb256_cr::key_len(), 32);
    assert_eq!(AesEcb256_cr::block_len(), 16);
    assert_eq!(AesEcb256_cr::iv_len(), None);
    let c = AesEcb256::new_enc(&[3u8; 32], None).unwrap();
    let mut c = c.clear_state(None).unwrap();
    let mut data = vec![0u8; 16];
    assert!(c.encrypt(&mut data).is_ok());
}

#[test]
fn ctr_keystream_known_vector_and_position() {
    let key: Vec<u8> = (0u8..32).collect();
    let iv = [0u8; 16];
    let mut c = AesCtr256::new_enc(&key, Some(&iv)).unwrap();
    let mut a = vec![0u8; 7];
    let mut b = vec![0u8; 13];
    c.encrypt(&mut a).unwrap();
    c.encrypt(&mut b).unwrap();
    a.extend(b);
    assert_eq!(a, hex("f29000b62a499fd0a9f39a6add2e7780f05d76ae"));
    let mut d = AesCtr256::new_dec(&key, Some(&iv)).unwrap();
    let mut whole = a.clone();
    assert_eq!(d.decrypt(&mut whole).unwrap(), 20);
    assert_eq!(whole, vec![0u8; 20]);
}

#[test]
fn ctr_lengths() {
    assert_eq!(AesCtr256_cr::key_len(), 32);
    assert_eq!(AesCtr256_cr::block_len(), 16);
    assert_eq!(AesCtr256_cr::iv_len(), Some(16));
}
