use parity_common::crypto::secp256k1::{CryptoError, InnerError, PublicKey, Secp256k1, SecretKey};

fn hex(s: &str) -> Vec<u8> {
    (0..s.len()).step_by(2).map(|i| u8::from_str_radix(&s[i..i + 2], 16).unwrap()).collect()
}

fn secret_0120() -> Vec<u8> {
    (1u8..=32).collect()
}

const PUB_0120: &str = "84bf7562262bbd6940085748f3be6afa52ae317155181ece31b66351ccffa4b08cc43d63b2859d469fee15f31c9edb5324266e6fd0407e87382d60fc4511acd8";
const PUB_2: &str = "c6047f9441ed7d6d3045406e95c07cd85c778e4b8cef3ca7abac09b95c709ee51ae168fea63dc339a3c58419466ceaeef7f632653266d0e1236431a950cfe52a";

fn key(bytes: &[u8]) -> SecretKey {
    Secp256k1::secret_from_slice(bytes).unwrap()
}

#[test]
fn keypair_from_slice_gives_public_key() {
    let (s, p) = Secp256k1::keypair_from_slice(&secret_0120()).unwrap();
    assert_eq!(s.to_vec(), secret_0120());
    assert_eq!(p.to_vec(), hex(PUB_0120));
    let p2 = Secp256k1::public_from_secret(&s).unwrap();
    assert_eq!(p2.to_vec(), hex(PUB_0120));
}

#[test]
fn public_from_secret_of_one_is_generator() {
    let p = Secp256k1::public_from_secret(&Secp256k1::one_key()).unwrap();
    let mut g = Secp256k1::generator_x();
    g.extend(Secp256k1::generator_y());
    assert_eq!(p.to_vec(), g);
}

#[test]
fn secret_from_slice_refuses_invalid() {
    assert_eq!(Secp256k1::secret_from_slice(&[0u8; 32]).unwrap_err(), CryptoError::InvalidSecret);
    assert_eq!(Secp256k1::secret_from_slice(&[1u8; 31]).unwrap_err(), CryptoError::InvalidSecret);
    assert_eq!(Secp256k1::secret_from_slice(&Secp256k1::curve_order()).unwrap_err(), CryptoError::InvalidSecret);
    assert!(Secp256k1::secret_from_slice(&Secp256k1::minus_one_key().to_vec()).is_ok());
    assert_eq!(Secp256k1::keypair_from_slice(&[0u8; 32]).unwrap_err(), CryptoError::InvalidSecret);
}

#[test]
fn public_from_slice_round_trip_and_refusal() {
    let raw = hex(PUB_0120);
    let p = Secp256k1::public_from_slice(&raw).unwrap();
    assert_eq!(p.to_vec(), raw);
    let mut longer = raw.clone();
    longer.extend([9u8, 9, 9]);
    assert_eq!(Secp256k1::public_from_slice(&longer).unwrap().to_vec(), raw);
    let mut bad = raw.clone();
    bad[63] ^= 1;
    assert_eq!(Secp256k1::public_from_slice(&bad).unwrap_err(), CryptoError::InvalidPublic);
}

#[test]
fn compressed_public_key() {
    let p = Secp256k1::public_from_slice(&hex(PUB_0120)).unwrap();
    assert_eq!(p.to_compressed_vec(), hex("0284bf7562262bbd6940085748f3be6afa52ae317155181ece31b66351ccffa4b0"));
    let p2 = Secp256k1::public_from_slice(&hex(PUB_2)).unwrap();
    assert_eq!(p2.to_compressed_vec()[0], 2);
}

#[test]
fn sign_is_deterministic_low_s_and_recovers() {
    let s = key(&secret_0120());
    let msg = [0xabu8; 32];
    let sig = s.sign(&msg).unwrap();
    assert_eq!(sig.len(), 65);
    assert_eq!(sig[..64].to_vec(), hex("c8bb1b4daa18298ed22d47ed128351b38fef17c1105db1c749e3d0fee221c2203cc8a9e6d7db6633b8e0c1aeff9704b2c9dc3c29fac933c9c726da1585cf7ddc"));
    assert!(sig[64] < 4);
    let p = Secp256k1::recover(&sig, &msg).unwrap();
    assert_eq!(p.to_vec(), hex(PUB_0120));
    assert_eq!(p.verify(&sig, &msg), Ok(true));
    let other = Secp256k1::public_from_slice(&hex(PUB_2)).unwrap();
    assert_eq!(other.verify(&sig, &msg), Ok(false));
}

#[test]
fn sign_refuses_short_message() {
    let s = key(&secret_0120());
    assert_eq!(s.sign(&[1u8; 31]).unwrap_err(), CryptoError::InvalidAesMessage);
}

#[test]
fn recover_and_verify_errors() {
    let s = key(&secret_0120());
    let msg = [0xabu8; 32];
    let mut sig = s.sign(&msg).unwrap();
    let p = Secp256k1::recover(&sig, &msg).unwrap();
    assert_eq!(Secp256k1::recover(&sig, &msg[..31]).unwrap_err(), CryptoError::InvalidAesMessage);
    assert_eq!(p.verify(&sig, &msg[..31]).unwrap_err(), CryptoError::InvalidAesMessage);
    sig[64] = 4;
    assert_eq!(Secp256k1::recover(&sig, &msg).unwrap_err(), CryptoError::InvalidRecoveryId);
    assert_eq!(p.verify(&sig, &msg).unwrap_err(), CryptoError::InvalidRecoveryId);
    let mut over = vec![0xffu8; 64];
    over.push(0);
    assert_eq!(Secp256k1::recover(&over, &msg).unwrap_err(), CryptoError::InvalidEcSignature);
    assert_eq!(p.verify(&over, &msg).unwrap_err(), CryptoError::InvalidEcSignature);
    let mut zero = vec![0u8; 64];
    zero.push(0);
    assert_eq!(Secp256k1::recover(&zero, &msg).unwrap_err(), CryptoError::InvalidEcSignature);
}

#[test]
fn shared_secret_is_x_of_product() {
    let s = key(&secret_0120());
    let p2 = Secp256k1::public_from_slice(&hex(PUB_2)).unwrap();
    let shared = s.shared_secret(&p2).unwrap();
    assert_eq!(shared.as_ref().to_vec(), hex("a6dcd46545ea65c04b5d2ac5112f38f921fba20c883163d14d369c7eaafb0c07"));
}

#[test]
fn public_mul_and_add() {
    let g = Secp256k1::public_from_secret(&Secp256k1::one_key()).unwrap();
    let mut p = g.clone();
    let mut two = vec![0u8; 31];
    two.push(2);
    Secp256k1::public_mul(&mut p, &key(&two)).unwrap();
    assert_eq!(p.to_vec(), hex(PUB_2));
    assert_eq!(Secp256k1::public_mul(&mut p, &Secp256k1::zero_key()).unwrap_err(), CryptoError::InvalidSecret);
    assert_eq!(p.to_vec(), hex(PUB_2));
    let mut sum = Secp256k1::public_from_slice(&hex(PUB_0120)).unwrap();
    Secp256k1::public_add(&mut sum, &p).unwrap();
    assert_eq!(sum.to_vec(), hex("764aada50d3bb41faa0c97b05f1aafa733051ad13463e121e1c5c3fdee6fa8c88bd40f3ee976500f26bc80d7b11638a9805ba82cfc1f62704d7571cae2274e76"));
    // G + (-G) is the point at infinity
    let mut minus_g = g.clone();
    Secp256k1::public_mul(&mut minus_g, &Secp256k1::minus_one_key()).unwrap();
    let mut at_inf = g.clone();
    assert_eq!(Secp256k1::public_add(&mut at_inf, &minus_g).unwrap_err(), CryptoError::InvalidPublic);
    assert_eq!(at_inf.to_vec(), g.to_vec());
}

#[test]
fn secret_arithmetic() {
    let a = key(&secret_0120());
    let mut m = a.clone();
    Secp256k1::secret_mul(&mut m, &a).unwrap();
    assert_eq!(m.to_vec(), hex("e360a6b4a66d7d0ef8d6290b8da39d9798a6b7ca50172f59a7e7d5c3eb69c7ea"));
    let mut s = a.clone();
    Secp256k1::secret_add(&mut s, &a).unwrap();
    assert_eq!(s.to_vec(), hex("020406080a0c0e10121416181a1c1e20222426282a2c2e30323436383a3c3e40"));
    let mut i = a.clone();
    Secp256k1::secret_inv(&mut i).unwrap();
    assert_eq!(i.to_vec(), hex("778bccb9e6a24c5053c062837abc188e2971b071784e4534a518cf6e6a755191"));
    // a * a^-1 = 1
    Secp256k1::secret_mul(&mut i, &a).unwrap();
    assert_eq!(i.to_vec(), Secp256k1::one_key().to_vec());
    // a * 1 = a
    let mut same = a.clone();
    Secp256k1::secret_mul(&mut same, &Secp256k1::one_key()).unwrap();
    assert_eq!(same.to_vec(), a.to_vec());
}

#[test]
fn secret_arithmetic_with_special_keys() {
    let a = key(&secret_0120());
    // a + (-1) + 1 = a
    let mut x = a.clone();
    Secp256k1::secret_add(&mut x, &Secp256k1::minus_one_key()).unwrap();
    Secp256k1::secret_add(&mut x, &Secp256k1::one_key()).unwrap();
    assert_eq!(x.to_vec(), a.to_vec());
    // 1 + (-1) = 0 is refused
    let mut one = Secp256k1::one_key();
    assert_eq!(Secp256k1::secret_add(&mut one, &Secp256k1::minus_one_key()).unwrap_err(), CryptoError::InvalidSecret);
    assert_eq!(one.to_vec(), Secp256k1::one_key().to_vec());
    // 0 + a = a, a + 0 = a
    let mut z = Secp256k1::zero_key();
    Secp256k1::secret_add(&mut z, &a).unwrap();
    assert_eq!(z.to_vec(), a.to_vec());
    let mut y = a.clone();
    Secp256k1::secret_add(&mut y, &Secp256k1::zero_key()).unwrap();
    assert_eq!(y.to_vec(), a.to_vec());
    // multiplying by zero and inverting zero are refused
    let mut w = a.clone();
    assert_eq!(Secp256k1::secret_mul(&mut w, &Secp256k1::zero_key()).unwrap_err(), CryptoError::InvalidSecret);
    let mut zz = Secp256k1::zero_key();
    assert_eq!(Secp256k1::secret_inv(&mut zz).unwrap_err(), CryptoError::InvalidSecret);
    assert!(Secp256k1::zero_key().is_zero());
    assert!(!Secp256k1::one_key().is_zero());
}

#[test]
fn error_messages_from_inner_errors() {
    assert_eq!(CryptoError::from(InnerError::InvalidSecretKey).message(), "Invalid secret");
    assert_eq!(CryptoError::from(InnerError::InvalidRecoveryId).message(), "Invalid recovery id");
    assert_eq!(CryptoError::from(InnerError::InvalidPublicKey).message(), "Invalid public");
    assert_eq!(CryptoError::from(InnerError::InvalidSignature).message(), "Invalid EC signature");
    assert_eq!(CryptoError::from(InnerError::IncorrectSignature).message(), "Invalid EC signature");
    assert_eq!(CryptoError::from(InnerError::InvalidMessage).message(), "Invalid AES message");
}

#[test]
fn curve_constants() {
    assert_eq!(Secp256k1::curve_order(), hex("fffffffffffffffffffffffffffffffebaaedce6af48a03bbfd25e8cd0364141"));
    assert_eq!(Secp256k1::generator_x(), hex("79be667ef9dcbbac55a06295ce870b07029bfcdb2dce28d959f2815b16f81798"));
    assert_eq!(Secp256k1::minus_one_key().to_vec(), hex("fffffffffffffffffffffffffffffffebaaedce6af48a03bbfd25e8cd0364140"));
    let _ = PublicKey::new(hex(PUB_2));
}

#[test]
fn shared_secret_is_symmetric() {
    let a = key(&secret_0120());
    let mut two_bytes = vec![0u8; 31];
    two_bytes.push(2);
    let b = key(&two_bytes);
    let pa = Secp256k1::public_from_secret(&a).unwrap();
    let pb = Secp256k1::public_from_secret(&b).unwrap();
    let s1 = a.shared_secret(&pb).unwrap();
    let s2 = b.shared_secret(&pa).unwrap();
    assert_eq!(s1, s2);
}

#[test]
fn signature_s_is_in_the_lower_half() {
    // n / 2, big-endian
    let bound = hex("7fffffffffffffffffffffffffffffff5d576e7357a4501ddfe92f46681b20a0");
    for i in 1u8..20 {
        let mut bytes = secret_0120();
        bytes[31] = i;
        let sig = key(&bytes).sign(&[i; 32]).unwrap();
        assert_eq!(sig.len(), 65);
        assert!(sig[32..64].to_vec() <= bound);
    }
}

#[test]
fn public_keys_add_as_their_secrets() {
    let a = key(&secret_0120());
    let mut two = vec![0u8; 31];
    two.push(2);
    let b = key(&two);
    let mut sum_pub = Secp256k1::public_from_secret(&a).unwrap();
    Secp256k1::public_add(&mut sum_pub, &Secp256k1::public_from_secret(&b).unwrap()).unwrap();
    let mut sum = a.clone();
    Secp256k1::secret_add(&mut sum, &b).unwrap();
    assert_eq!(sum_pub.to_vec(), Secp256k1::public_from_secret(&sum).unwrap().to_vec());
}

#[test]
fn inverting_twice_gives_back_the_key() {
    let a = key(&secret_0120());
    let mut i = a.clone();
    Secp256k1::secret_inv(&mut i).unwrap();
    Secp256k1::secret_inv(&mut i).unwrap();
    assert_eq!(i.to_vec(), a.to_vec());
}
