//! Keys, signatures and shared secrets on the secp256k1 curve.
//!
//! A secret key is a 32-byte big-endian scalar below the curve order; a
//! public key is a curve point, written as 64 bytes (its `x` and `y`
//! coordinates, without the tag byte of the uncompressed form). A signature
//! is 65 bytes: the 64-byte compact `r || s` and a recovery id.
use vstd::prelude::*;

use crate::bytes::{all_zero, be_nat, bytes_equal, sub_vec};

verus! {

/// Size of a recoverable signature.
pub const SIGN_SIZE: usize = 65;

/// Size of a public key without its tag byte.
pub const PUB_SIZE: usize = 64;

/// Size of a compressed public key.
pub const COMPRESSED_PUB_SIZE: usize = 33;

/// Size of a secret key.
pub const SECRET_SIZE: usize = 32;

/// Size of the input from which a key pair is made.
pub const KEYPAIR_INPUT_SIZE: usize = SECRET_SIZE;

/// The order of the curve's group.
pub open spec fn curve_order() -> nat {
    0xFFFFFFFFFFFFFFFFFFFFFFFFFFFFFFFEBAAEDCE6AF48A03BBFD25E8CD0364141nat
}

/// The prime of the curve's field.
pub open spec fn field_prime() -> nat {
    0xFFFFFFFFFFFFFFFFFFFFFFFFFFFFFFFFFFFFFFFFFFFFFFFFFFFFFFFEFFFFFC2Fnat
}

/// 32 bytes that write a scalar below the curve order.
pub open spec fn scalar_bytes(s: Seq<u8>) -> bool {
    s.len() == 32 && be_nat(s) < curve_order()
}

/// A valid secret key: 32 bytes of a nonzero scalar below the curve order.
pub open spec fn secret_valid(s: Seq<u8>) -> bool {
    scalar_bytes(s) && be_nat(s) > 0
}

/// The `x` coordinate of a 64-byte point.
pub open spec fn point_x(raw: Seq<u8>) -> nat {
    be_nat(raw.subrange(0, 32))
}

/// The `y` coordinate of a 64-byte point.
pub open spec fn point_y(raw: Seq<u8>) -> nat {
    be_nat(raw.subrange(32, 64))
}

/// 64 bytes of a point on the curve `y^2 = x^3 + 7` over the field.
pub open spec fn on_curve(raw: Seq<u8>) -> bool {
    let x = point_x(raw);
    let y = point_y(raw);
    &&& raw.len() == 64
    &&& x < field_prime()
    &&& y < field_prime()
    &&& (y * y) % field_prime() == (x * x * x + 7) % field_prime()
}

/// 64 bytes of a compact signature whose `r` and `s` lie below the curve order.
pub open spec fn compact_sig_valid(sig: Seq<u8>) -> bool {
    sig.len() == 64 && be_nat(sig.subrange(0, 32)) < curve_order() && be_nat(sig.subrange(32, 64))
        < curve_order()
}

/// The public key of a secret key, as 64 bytes.
pub uninterp spec fn secp_public_key(secret: Seq<u8>) -> Seq<u8>;

/// The deterministic (RFC 6979) recoverable signature of a 32-byte message:
/// the compact 64 bytes and the recovery id.
pub uninterp spec fn secp_signature(secret: Seq<u8>, message: Seq<u8>) -> (Seq<u8>, u8);

/// The public key recovered from a message, a compact signature and a
/// recovery id, or `None` where none is.
pub uninterp spec fn secp_recovered(message: Seq<u8>, sig: Seq<u8>, recid: u8) -> Option<Seq<u8>>;

/// Whether a compact signature of a message verifies against a public key.
pub uninterp spec fn secp_verifies(public: Seq<u8>, message: Seq<u8>, sig: Seq<u8>) -> bool;

/// A point multiplied by a scalar, as 64 bytes.
pub uninterp spec fn secp_point_mul(public: Seq<u8>, scalar: Seq<u8>) -> Seq<u8>;

/// The sum of two points, or `None` where it is the point at infinity.
pub uninterp spec fn secp_point_add(a: Seq<u8>, b: Seq<u8>) -> Option<Seq<u8>>;

/// Optional bytes, seen as a sequence.
pub open spec fn opt_bytes(v: Option<Vec<u8>>) -> Option<Seq<u8>> {
    match v {
        Some(b) => Some(b@),
        None => None,
    }
}

/// `libsecp256k1::SecretKey::parse_slice`: per its source, it succeeds
/// exactly on 32 bytes of a nonzero scalar below the curve order.
#[verifier::external_body]
fn parse_secret_ok(bytes: &[u8]) -> (b: bool)
    ensures
        b == secret_valid(bytes@),
{
    libsecp256k1::SecretKey::parse_slice(bytes).is_ok()
}

/// `libsecp256k1::Signature::parse_standard_slice`: per its source, it
/// succeeds exactly on 64 bytes whose halves lie below the curve order.
#[verifier::external_body]
fn parse_signature_ok(sig: &[u8]) -> (b: bool)
    ensures
        b == compact_sig_valid(sig@),
{
    libsecp256k1::Signature::parse_standard_slice(sig).is_ok()
}

/// `libsecp256k1::PublicKey::parse_slice` in the raw 64-byte format: per
/// its source, it succeeds exactly on the points of the curve.
#[verifier::external_body]
fn parse_public_ok(raw: &[u8]) -> (b: bool)
    requires
        raw@.len() == 64,
    ensures
        b == on_curve(raw@),
{
    libsecp256k1::PublicKey::parse_slice(raw, Some(libsecp256k1::PublicKeyFormat::Raw)).is_ok()
}

/// `libsecp256k1::PublicKey::from_secret_key`, written as 64 bytes: the
/// point of the secret times the generator, which lies on the curve.
#[verifier::external_body]
fn public_of_secret(secret: &[u8]) -> (raw: Vec<u8>)
    requires
        secret_valid(secret@),
    ensures
        raw@ == secp_public_key(secret@),
        on_curve(raw@),
{
    let sk = libsecp256k1::SecretKey::parse_slice(secret).unwrap();
    libsecp256k1::PublicKey::from_secret_key(&sk).serialize()[1..].to_vec()
}

/// `libsecp256k1::sign`: the compact signature and recovery id of a 32-byte
/// message. Per the crate's source (`sign_raw`), `r` and `s` are nonzero
/// scalars below the curve order, and the recovery id below 4 records the
/// parity and overflow of the nonce point (flipped with `s`): so the
/// signature verifies against the signer's public key, and recovering with
/// that id gives the signer's public key. `s` is normalized to the lower
/// half: an `s` of at least `n / 2` (`Scalar::is_high`) is replaced by
/// `n - s`, so the `s` written is at most `n / 2 + 1`. As for every ECDSA
/// signature, `r` with `n - s` in place of `s` verifies too, and recovers the
/// same key with the parity bit of the recovery id flipped (the nonce point
/// negated), which is how the crate itself moves `s` to the lower half.
#[verifier::external_body]
fn sign_message(secret: &[u8], message: &[u8]) -> (r: (Vec<u8>, u8))
    requires
        secret_valid(secret@),
        message@.len() == 32,
    ensures
        (r.0@, r.1) == secp_signature(secret@, message@),
        r.0@.len() == 64,
        r.1 < 4,
        compact_sig_valid(r.0@),
        be_nat(r.0@.subrange(32, 64)) <= curve_order() / 2 + 1,
        secp_verifies(secp_public_key(secret@), message@, r.0@),
        secp_recovered(message@, r.0@, r.1) == Some(secp_public_key(secret@)),
        forall|s2: Seq<u8>|
            s2.len() == 32 && #[trigger] be_nat(s2) == curve_order() - be_nat(r.0@.subrange(32, 64))
                ==> secp_verifies(secp_public_key(secret@), message@, r.0@.subrange(0, 32) + s2)
                && secp_recovered(message@, r.0@.subrange(0, 32) + s2, r.1 ^ 1u8) == Some(
                secp_public_key(secret@),
            ),
{
    let sk = libsecp256k1::SecretKey::parse_slice(secret).unwrap();
    let msg = libsecp256k1::Message::parse_slice(message).unwrap();
    let (sig, recid) = libsecp256k1::sign(&msg, &sk);
    (sig.serialize().to_vec(), recid.serialize())
}

/// `libsecp256k1::recover`: the public key of a signed message, or `None`
/// where recovery fails; a recovered key lies on the curve.
#[verifier::external_body]
fn recover_public(message: &[u8], sig: &[u8], recid: u8) -> (r: Option<Vec<u8>>)
    requires
        message@.len() == 32,
        compact_sig_valid(sig@),
        recid < 4,
    ensures
        opt_bytes(r) == secp_recovered(message@, sig@, recid),
        r matches Some(p) ==> on_curve(p@),
{
    let msg = libsecp256k1::Message::parse_slice(message).unwrap();
    let sig = libsecp256k1::Signature::parse_standard_slice(sig).unwrap();
    let recid = libsecp256k1::RecoveryId::parse(recid).unwrap();
    match libsecp256k1::recover(&msg, &sig, &recid) {
        Ok(p) => Some(p.serialize()[1..].to_vec()),
        Err(_) => None,
    }
}

/// `libsecp256k1::verify` of a compact signature against a public key.
#[verifier::external_body]
fn verify_signature(public: &[u8], message: &[u8], sig: &[u8]) -> (b: bool)
    requires
        on_curve(public@),
        message@.len() == 32,
        compact_sig_valid(sig@),
    ensures
        b == secp_verifies(public@, message@, sig@),
{
    let pk = libsecp256k1::PublicKey::parse_slice(public, Some(libsecp256k1::PublicKeyFormat::Raw)).unwrap();
    let msg = libsecp256k1::Message::parse_slice(message).unwrap();
    let sig = libsecp256k1::Signature::parse_standard_slice(sig).unwrap();
    libsecp256k1::verify(&msg, &sig, &pk)
}

/// `libsecp256k1::PublicKey::tweak_mul_assign`: a point times a nonzero
/// scalar, which lies on the curve again. Where the point is the public key
/// of a secret `b`, the product `k * (b * G)` is `b * (k * G)`, the product
/// of the public key of `k` by `b`.
#[verifier::external_body]
fn point_mul(public: &[u8], scalar: &[u8]) -> (raw: Vec<u8>)
    requires
        on_curve(public@),
        secret_valid(scalar@),
    ensures
        raw@ == secp_point_mul(public@, scalar@),
        on_curve(raw@),
        forall|b: Seq<u8>|
            secret_valid(b) && public@ == #[trigger] secp_public_key(b) ==> raw@
                == secp_point_mul(secp_public_key(scalar@), b),
{
    let mut pk = libsecp256k1::PublicKey::parse_slice(public, Some(libsecp256k1::PublicKeyFormat::Raw)).unwrap();
    let sk = libsecp256k1::SecretKey::parse_slice(scalar).unwrap();
    pk.tweak_mul_assign(&sk).unwrap();
    pk.serialize()[1..].to_vec()
}

/// `libsecp256k1::PublicKey::combine` of two points: their sum, or `None`
/// where it is the point at infinity. Adding points is adding scalars: where
/// the points are the public keys of secrets `sa` and `sb`, the sum is at
/// infinity exactly where `sa + sb` is zero modulo the curve order, and is
/// otherwise the public key of that sum.
#[verifier::external_body]
fn point_add(a: &[u8], b: &[u8]) -> (r: Option<Vec<u8>>)
    requires
        on_curve(a@),
        on_curve(b@),
    ensures
        opt_bytes(r) == secp_point_add(a@, b@),
        r matches Some(p) ==> on_curve(p@),
        forall|sa: Seq<u8>, sb: Seq<u8>|
            secret_valid(sa) && secret_valid(sb) && a@ == #[trigger] secp_public_key(sa) && b@
                == #[trigger] secp_public_key(sb) ==> (r is None <==> (be_nat(sa) + be_nat(sb))
                % curve_order() == 0),
        forall|sa: Seq<u8>, sb: Seq<u8>, sc: Seq<u8>|
            secret_valid(sa) && secret_valid(sb) && secret_valid(sc) && a@ == #[trigger] secp_public_key(
                sa,
            ) && b@ == #[trigger] secp_public_key(sb) && be_nat(sc) == (be_nat(sa) + be_nat(sb))
                % curve_order() ==> opt_bytes(r) == Some(#[trigger] secp_public_key(sc)),
{
    let pa = libsecp256k1::PublicKey::parse_slice(a, Some(libsecp256k1::PublicKeyFormat::Raw)).unwrap();
    let pb = libsecp256k1::PublicKey::parse_slice(b, Some(libsecp256k1::PublicKeyFormat::Raw)).unwrap();
    match libsecp256k1::PublicKey::combine(&[pa, pb]) {
        Ok(p) => Some(p.serialize()[1..].to_vec()),
        Err(_) => None,
    }
}

/// `libsecp256k1::SecretKey::tweak_add_assign`: the sum of two scalars
/// modulo the curve order, or `None` where it is zero.
#[verifier::external_body]
fn scalar_add(a: &[u8], b: &[u8]) -> (r: Option<Vec<u8>>)
    requires
        secret_valid(a@),
        secret_valid(b@),
    ensures
        r is None <==> (be_nat(a@) + be_nat(b@)) % curve_order() == 0,
        r matches Some(v) ==> scalar_bytes(v@) && be_nat(v@) == (be_nat(a@) + be_nat(b@))
            % curve_order(),
{
    let mut sa = libsecp256k1::SecretKey::parse_slice(a).unwrap();
    let sb = libsecp256k1::SecretKey::parse_slice(b).unwrap();
    match sa.tweak_add_assign(&sb) {
        Ok(()) => Some(sa.serialize().to_vec()),
        Err(_) => None,
    }
}

/// `libsecp256k1::SecretKey::tweak_mul_assign`: the product of two nonzero
/// scalars modulo the curve order.
#[verifier::external_body]
fn scalar_mul(a: &[u8], b: &[u8]) -> (v: Vec<u8>)
    requires
        secret_valid(a@),
        secret_valid(b@),
    ensures
        scalar_bytes(v@),
        be_nat(v@) == (be_nat(a@) * be_nat(b@)) % curve_order(),
{
    let mut sa = libsecp256k1::SecretKey::parse_slice(a).unwrap();
    let sb = libsecp256k1::SecretKey::parse_slice(b).unwrap();
    sa.tweak_mul_assign(&sb).unwrap();
    sa.serialize().to_vec()
}

/// `libsecp256k1::SecretKey::inv`: the inverse of a nonzero scalar modulo
/// the curve order.
#[verifier::external_body]
fn scalar_inv(a: &[u8]) -> (v: Vec<u8>)
    requires
        secret_valid(a@),
    ensures
        scalar_bytes(v@),
        (be_nat(a@) * be_nat(v@)) % curve_order() == 1,
{
    libsecp256k1::SecretKey::parse_slice(a).unwrap().inv().serialize().to_vec()
}

/// Errors of the curve library, as the library reports them.
#[derive(Debug, Clone, Copy, PartialEq, Eq, Structural)]
pub enum InnerError {
    InvalidSecretKey,
    InvalidRecoveryId,
    InvalidPublicKey,
    InvalidSignature,
    IncorrectSignature,
    InvalidMessage,
}

/// Errors of the asymmetric operations, each with its short message.
#[derive(Debug, Clone, Copy, PartialEq, Eq, Structural)]
pub enum CryptoError {
    /// "Invalid secret"
    InvalidSecret,
    /// "Invalid recovery id"
    InvalidRecoveryId,
    /// "Invalid public"
    InvalidPublic,
    /// "Invalid EC signature"
    InvalidEcSignature,
    /// "Invalid AES message"
    InvalidAesMessage,
}

impl CryptoError {
    /// The short message of the error.
    pub fn message(&self) -> (m: &'static str)
        ensures
            m@ == error_message(*self),
    {
        match self {
            CryptoError::InvalidSecret => "Invalid secret",
            CryptoError::InvalidRecoveryId => "Invalid recovery id",
            CryptoError::InvalidPublic => "Invalid public",
            CryptoError::InvalidEcSignature => "Invalid EC signature",
            CryptoError::InvalidAesMessage => "Invalid AES message",
        }
    }
}

/// The short message of each error.
pub open spec fn error_message(e: CryptoError) -> Seq<char> {
    match e {
        CryptoError::InvalidSecret => "Invalid secret"@,
        CryptoError::InvalidRecoveryId => "Invalid recovery id"@,
        CryptoError::InvalidPublic => "Invalid public"@,
        CryptoError::InvalidEcSignature => "Invalid EC signature"@,
        CryptoError::InvalidAesMessage => "Invalid AES message"@,
    }
}

/// The error that a library error is reported as.
pub open spec fn error_of(err: InnerError) -> CryptoError {
    match err {
        InnerError::InvalidSecretKey => CryptoError::InvalidSecret,
        InnerError::InvalidRecoveryId => CryptoError::InvalidRecoveryId,
        InnerError::InvalidPublicKey => CryptoError::InvalidPublic,
        InnerError::InvalidSignature => CryptoError::InvalidEcSignature,
        InnerError::IncorrectSignature => CryptoError::InvalidEcSignature,
        InnerError::InvalidMessage => CryptoError::InvalidAesMessage,
    }
}

impl From<InnerError> for CryptoError {
    fn from(err: InnerError) -> (e: Self) {
        match err {
            InnerError::InvalidSecretKey => CryptoError::InvalidSecret,
            InnerError::InvalidRecoveryId => CryptoError::InvalidRecoveryId,
            InnerError::InvalidPublicKey => CryptoError::InvalidPublic,
            InnerError::InvalidSignature => CryptoError::InvalidEcSignature,
            InnerError::IncorrectSignature => CryptoError::InvalidEcSignature,
            InnerError::InvalidMessage => CryptoError::InvalidAesMessage,
        }
    }
}

impl vstd::std_specs::convert::FromSpecImpl<InnerError> for CryptoError {
    open spec fn obeys_from_spec() -> bool {
        true
    }

    open spec fn from_spec(err: InnerError) -> CryptoError {
        error_of(err)
    }
}

/// A secret key: a scalar below the curve order. The zero key exists for
/// comparisons; operations that need a nonzero key refuse it.
#[derive(Debug, PartialEq, Eq)]
pub struct SecretKey {
    bytes: Vec<u8>,
}

impl SecretKey {
    #[verifier::type_invariant]
    pub closed spec fn wf(self) -> bool {
        scalar_bytes(self.bytes@)
    }

    pub closed spec fn bytes_view(self) -> Seq<u8> {
        self.bytes@
    }

    /// The 32 bytes of the key.
    pub fn to_vec(&self) -> (v: Vec<u8>)
        ensures
            v@ == self@,
            scalar_bytes(v@),
    {
        proof {
            use_type_invariant(self);
        }
        self.bytes.clone()
    }

    /// Whether the key is the zero scalar.
    pub fn is_zero(&self) -> (b: bool)
        ensures
            b == (be_nat(self@) == 0),
    {
        all_zero(self.bytes.as_slice())
    }
}

impl Clone for SecretKey {
    fn clone(&self) -> (k: Self)
        ensures
            k@ == self@,
    {
        proof {
            use_type_invariant(self);
        }
        SecretKey { bytes: self.bytes.clone() }
    }
}

impl View for SecretKey {
    type V = Seq<u8>;

    open spec fn view(&self) -> Seq<u8> {
        self.bytes_view()
    }
}

/// A public key: a point on the curve.
#[derive(Debug, PartialEq, Eq)]
pub struct PublicKey {
    raw: Vec<u8>,
}

impl PublicKey {
    #[verifier::type_invariant]
    pub closed spec fn wf(self) -> bool {
        on_curve(self.raw@)
    }

    pub closed spec fn raw_view(self) -> Seq<u8> {
        self.raw@
    }

    /// The public key of a point of the curve.
    pub fn new(raw: Vec<u8>) -> (p: PublicKey)
        requires
            on_curve(raw@),
        ensures
            p@ == raw@,
    {
        PublicKey { raw }
    }

    /// The 64 bytes of the point: `x` then `y`.
    pub fn to_vec(&self) -> (v: Vec<u8>)
        ensures
            v@ == self@,
            on_curve(v@),
    {
        proof {
            use_type_invariant(self);
        }
        self.raw.clone()
    }

    /// The compressed form: a tag of 2 for an even `y` or 3 for an odd
    /// one, then the 32 bytes of `x`.
    pub fn to_compressed_vec(&self) -> (v: Vec<u8>)
        ensures
            v@ == compressed(self@),
    {
        proof {
            use_type_invariant(self);
        }
        let tag: u8 = if self.raw[63] % 2 == 1 {
            3
        } else {
            2
        };
        let mut out: Vec<u8> = Vec::new();
        out.push(tag);
        let mut i: usize = 0;
        while i < 32
            invariant
                self.raw@.len() == 64,
                0 <= i <= 32,
                out@ == seq![tag] + self.raw@.subrange(0, i as int),
            decreases 32 - i,
        {
            out.push(self.raw[i]);
            i = i + 1;
        }
        proof {
            crate::bytes::lemma_be_parity(self.raw@.subrange(32, 64));
            assert(self.raw@.subrange(32, 64).last() == self.raw@[63]);
        }
        out
    }
}

impl Clone for PublicKey {
    fn clone(&self) -> (k: Self)
        ensures
            k@ == self@,
    {
        proof {
            use_type_invariant(self);
        }
        PublicKey { raw: self.raw.clone() }
    }
}

impl View for PublicKey {
    type V = Seq<u8>;

    open spec fn view(&self) -> Seq<u8> {
        self.raw_view()
    }
}

/// The compressed form of a point: the parity tag of `y`, then `x`.
pub open spec fn compressed(raw: Seq<u8>) -> Seq<u8> {
    seq![if point_y(raw) % 2 == 1 { 3u8 } else { 2u8 }] + raw.subrange(0, 32)
}

/// A shared secret: the `x` coordinate of the product of one side's public
/// key and the other side's secret key.
#[derive(Debug, Clone, PartialEq, Eq)]
pub struct SharedSecretAsRef(pub Vec<u8>);

impl SharedSecretAsRef {
    /// The bytes of the secret.
    pub fn as_ref(&self) -> (s: &[u8])
        ensures
            s@ == self.0@,
    {
        self.0.as_slice()
    }
}

/// The scalar 1 written as 32 bytes.
pub const ONE_BYTES: [u8; 32] = [0, 0, 0, 0, 0, 0, 0, 0, 0, 0, 0, 0, 0, 0, 0, 0, 0, 0, 0, 0, 0, 0, 0, 0, 0, 0, 0, 0, 0, 0, 0, 1];

/// Half the curve order, rounded down, plus one, written as 32 bytes: the
/// least `s` above the lower half.
pub const HALF_ORDER_PLUS_ONE: [u8; 32] = [
    0x7f, 0xff, 0xff, 0xff, 0xff, 0xff, 0xff, 0xff, 0xff, 0xff, 0xff, 0xff, 0xff, 0xff, 0xff, 0xff,
    0x5d, 0x57, 0x6e, 0x73, 0x57, 0xa4, 0x50, 0x1d, 0xdf, 0xe9, 0x2f, 0x46, 0x68, 0x1b, 0x20, 0xa1,
];

/// The scalar -1 modulo the curve order, written as 32 bytes.
pub const MINUS_ONE_BYTES: [u8; 32] = [
    255, 255, 255, 255, 255, 255, 255, 255, 255, 255, 255, 255, 255, 255, 255, 254,
    186, 174, 220, 230, 175, 72, 160, 59, 191, 210, 94, 140, 208, 54, 65, 64,
];

/// The order of the curve's group, written as 32 bytes.
pub const CURVE_ORDER: [u8; 32] = [
    255, 255, 255, 255, 255, 255, 255, 255, 255, 255, 255, 255, 255, 255, 255, 254,
    186, 174, 220, 230, 175, 72, 160, 59, 191, 210, 94, 140, 208, 54, 65, 65,
];

/// The `x` coordinate of the curve's generator, written as 32 bytes.
pub const GENERATOR_X: [u8; 32] = [
    0x79, 0xbe, 0x66, 0x7e, 0xf9, 0xdc, 0xbb, 0xac, 0x55, 0xa0, 0x62, 0x95, 0xce, 0x87, 0x0b, 0x07,
    0x02, 0x9b, 0xfc, 0xdb, 0x2d, 0xce, 0x28, 0xd9, 0x59, 0xf2, 0x81, 0x5b, 0x16, 0xf8, 0x17, 0x98,
];

/// The `y` coordinate of the curve's generator, written as 32 bytes.
pub const GENERATOR_Y: [u8; 32] = [
    0x48, 0x3a, 0xda, 0x77, 0x26, 0xa3, 0xc4, 0x65, 0x5d, 0xa4, 0xfb, 0xfc, 0x0e, 0x11, 0x08, 0xa8,
    0xfd, 0x17, 0xb4, 0x48, 0xa6, 0x85, 0x54, 0x19, 0x9c, 0x47, 0xd0, 0x8f, 0xfb, 0x10, 0xd4, 0xb8,
];


/// What recovering a public key from a 65-byte signature gives.
pub open spec fn recover_spec(signature: Seq<u8>, message: Seq<u8>) -> Result<Seq<u8>, CryptoError> {
    let compact = signature.subrange(0, 64);
    let recid = signature[64];
    if recid >= 4 {
        Err(error_of(InnerError::InvalidRecoveryId))
    } else if !compact_sig_valid(compact) {
        Err(error_of(InnerError::InvalidSignature))
    } else if message.len() != 32 {
        Err(error_of(InnerError::InvalidMessage))
    } else {
        match secp_recovered(message, compact, recid) {
            Some(p) => Ok(p),
            None => Err(error_of(InnerError::InvalidSignature)),
        }
    }
}

/// What verifying a 65-byte signature against a public key gives.
pub open spec fn verify_spec(public: Seq<u8>, signature: Seq<u8>, message: Seq<u8>) -> Result<bool, CryptoError> {
    let compact = signature.subrange(0, 64);
    let recid = signature[64];
    if recid >= 4 {
        Err(error_of(InnerError::InvalidRecoveryId))
    } else if !compact_sig_valid(compact) {
        Err(error_of(InnerError::InvalidSignature))
    } else if message.len() != 32 {
        Err(error_of(InnerError::InvalidMessage))
    } else {
        Ok(secp_verifies(public, message, compact))
    }
}

/// What reading a public key from the first 64 bytes of a slice gives.
pub open spec fn public_from_slice_spec(raw: Seq<u8>) -> Result<Seq<u8>, CryptoError> {
    if on_curve(raw.subrange(0, 64)) {
        Ok(raw.subrange(0, 64))
    } else {
        Err(error_of(InnerError::InvalidPublicKey))
    }
}

/// What reading a secret key from a slice gives.
pub open spec fn secret_from_slice_spec(bytes: Seq<u8>) -> Result<Seq<u8>, CryptoError> {
    if secret_valid(bytes) {
        Ok(bytes)
    } else {
        Err(error_of(InnerError::InvalidSecretKey))
    }
}

/// What signing a message gives: the compact signature followed by the
/// recovery id.
pub open spec fn sign_spec(secret: Seq<u8>, message: Seq<u8>) -> Result<Seq<u8>, CryptoError> {
    if message.len() != 32 {
        Err(error_of(InnerError::InvalidMessage))
    } else {
        let (compact, recid) = secp_signature(secret, message);
        let (low, low_recid) = low_s_signature(compact, recid);
        Ok(low.push(low_recid))
    }
}

/// The 32 bytes of `n - s`, for a scalar `s` of the curve.
pub open spec fn negated_scalar(s: nat) -> Seq<u8> {
    choose|t: Seq<u8>| t.len() == 32 && be_nat(t) == curve_order() - s
}

/// A compact signature with its `s` moved to the lower half: where `s` is
/// above `n / 2`, it is replaced by `n - s` and the parity bit of the
/// recovery id is flipped.
pub open spec fn low_s_signature(compact: Seq<u8>, recid: u8) -> (Seq<u8>, u8) {
    let s = be_nat(compact.subrange(32, 64));
    if s > curve_order() / 2 {
        (compact.subrange(0, 32) + negated_scalar(s), recid ^ 1u8)
    } else {
        (compact, recid)
    }
}

/// A result's success value seen through a view.
pub open spec fn res_view<T: View>(r: Result<T, CryptoError>) -> Result<T::V, CryptoError> {
    match r {
        Ok(v) => Ok(v@),
        Err(e) => Err(e),
    }
}

/// The secp256k1 curve.
pub struct Secp256k1;

impl Secp256k1 {
    /// Recover the public key that signed `message` with the 65-byte
    /// recoverable `signature`.
    pub fn recover(signature: &[u8], message: &[u8]) -> (r: Result<PublicKey, CryptoError>)
        requires
            signature@.len() >= SIGN_SIZE,
        ensures
            res_view(r) == recover_spec(signature@, message@),
    {
        let recid = signature[PUB_SIZE];
        if recid >= 4 {
            return Err(CryptoError::from(InnerError::InvalidRecoveryId));
        }
        let compact = sub_vec(signature, 0, PUB_SIZE);
        if !parse_signature_ok(compact.as_slice()) {
            return Err(CryptoError::from(InnerError::InvalidSignature));
        }
        if message.len() != 32 {
            return Err(CryptoError::from(InnerError::InvalidMessage));
        }
        match recover_public(message, compact.as_slice(), recid) {
            Some(raw) => Ok(PublicKey::new(raw)),
            None => Err(CryptoError::from(InnerError::InvalidSignature)),
        }
    }

    /// The key pair of the 32 bytes of a secret key. The caller is
    /// responsible for erasing the input from memory.
    pub fn keypair_from_slice(sk_bytes: &[u8]) -> (r: Result<(SecretKey, PublicKey), CryptoError>)
        requires
            sk_bytes@.len() == SECRET_SIZE,
        ensures
            secret_valid(sk_bytes@) ==> (r matches Ok((s, p)) && s@ == sk_bytes@ && p@
                == secp_public_key(sk_bytes@)),
            !secret_valid(sk_bytes@) ==> r == Err::<(SecretKey, PublicKey), CryptoError>(
                error_of(InnerError::InvalidSecretKey),
            ),
    {
        let sk = Self::secret_from_slice(sk_bytes)?;
        let pk = PublicKey::new(public_of_secret(sk.bytes.as_slice()));
        Ok((sk, pk))
    }

    /// The public key of a nonzero secret key.
    pub fn public_from_secret(s: &SecretKey) -> (r: Result<PublicKey, CryptoError>)
        requires
            be_nat(s@) > 0,
        ensures
            r matches Ok(p) && p@ == secp_public_key(s@),
    {
        proof {
            use_type_invariant(s);
        }
        Ok(PublicKey::new(public_of_secret(s.bytes.as_slice())))
    }

    /// The public key of the first 64 bytes of `public_sec_raw`: the `x`
    /// and `y` coordinates of a point on the curve.
    pub fn public_from_slice(public_sec_raw: &[u8]) -> (r: Result<PublicKey, CryptoError>)
        requires
            public_sec_raw@.len() >= PUB_SIZE,
        ensures
            res_view(r) == public_from_slice_spec(public_sec_raw@),
    {
        let raw = sub_vec(public_sec_raw, 0, PUB_SIZE);
        if parse_public_ok(raw.as_slice()) {
            Ok(PublicKey::new(raw))
        } else {
            Err(CryptoError::from(InnerError::InvalidPublicKey))
        }
    }

    /// The secret key of 32 bytes of a nonzero scalar below the curve order.
    pub fn secret_from_slice(secret: &[u8]) -> (r: Result<SecretKey, CryptoError>)
        ensures
            res_view(r) == secret_from_slice_spec(secret@),
    {
        if parse_secret_ok(secret) {
            let bytes = sub_vec(secret, 0, secret.len());
            assert(bytes@ =~= secret@);
            Ok(SecretKey { bytes })
        } else {
            Err(CryptoError::from(InnerError::InvalidSecretKey))
        }
    }

    /// Multiply a public key by a secret key; the zero key is refused and
    /// leaves the public key as it was.
    pub fn public_mul(pub_key: &mut PublicKey, sec_key: &SecretKey) -> (r: Result<(), CryptoError>)
        ensures
            be_nat(sec_key@) == 0 ==> r == Err::<(), CryptoError>(error_of(InnerError::InvalidSecretKey))
                && final(pub_key)@ == old(pub_key)@,
            be_nat(sec_key@) > 0 ==> r is Ok && final(pub_key)@ == secp_point_mul(
                old(pub_key)@,
                sec_key@,
            ),
    {
        proof {
            use_type_invariant(&*pub_key);
            use_type_invariant(sec_key);
        }
        if sec_key.is_zero() {
            return Err(CryptoError::from(InnerError::InvalidSecretKey));
        }
        let product = point_mul(pub_key.raw.as_slice(), sec_key.bytes.as_slice());
        *pub_key = PublicKey::new(product);
        Ok(())
    }

    /// Add another public key to a public key; a sum at infinity is refused
    /// and leaves the public key as it was.
    pub fn public_add(pub_key: &mut PublicKey, other_public: &PublicKey) -> (r: Result<(), CryptoError>)
        ensures
            match secp_point_add(other_public@, old(pub_key)@) {
                Some(sum) => r is Ok && final(pub_key)@ == sum,
                None => r == Err::<(), CryptoError>(error_of(InnerError::InvalidPublicKey))
                    && final(pub_key)@ == old(pub_key)@,
            },
            forall|a: Seq<u8>, b: Seq<u8>|
                secret_valid(a) && secret_valid(b) && old(pub_key)@ == #[trigger] secp_public_key(a)
                    && other_public@ == #[trigger] secp_public_key(b) ==> (r is Err <==> (be_nat(a)
                    + be_nat(b)) % curve_order() == 0),
            forall|a: Seq<u8>, b: Seq<u8>, c: Seq<u8>|
                secret_valid(a) && secret_valid(b) && secret_valid(c) && old(pub_key)@
                    == #[trigger] secp_public_key(a) && other_public@ == #[trigger] secp_public_key(b)
                    && be_nat(c) == (be_nat(a) + be_nat(b)) % curve_order() ==> final(pub_key)@
                    == #[trigger] secp_public_key(c),
    {
        proof {
            use_type_invariant(&*pub_key);
            use_type_invariant(other_public);
        }
        match point_add(other_public.raw.as_slice(), pub_key.raw.as_slice()) {
            Some(sum) => {
                *pub_key = PublicKey::new(sum);
                Ok(())
            },
            None => Err(CryptoError::from(InnerError::InvalidPublicKey)),
        }
    }

    /// Multiply a secret key by another one, modulo the curve order; a zero
    /// factor `other_secret` is refused and leaves the key as it was.
    pub fn secret_mul(sec_key: &mut SecretKey, other_secret: &SecretKey) -> (r: Result<(), CryptoError>)
        ensures
            be_nat(other_secret@) == 0 ==> r == Err::<(), CryptoError>(
                error_of(InnerError::InvalidSecretKey),
            ) && final(sec_key)@ == old(sec_key)@,
            be_nat(other_secret@) > 0 ==> r is Ok && be_nat(final(sec_key)@) == (be_nat(
                old(sec_key)@,
            ) * be_nat(other_secret@)) % curve_order(),
    {
        proof {
            use_type_invariant(&*sec_key);
            use_type_invariant(other_secret);
        }
        if other_secret.is_zero() {
            return Err(CryptoError::from(InnerError::InvalidSecretKey));
        }
        if sec_key.is_zero() {
            return Ok(());
        }
        let product = scalar_mul(sec_key.bytes.as_slice(), other_secret.bytes.as_slice());
        *sec_key = SecretKey { bytes: product };
        Ok(())
    }

    /// Add another secret key to a secret key, modulo the curve order; a
    /// zero sum is refused and leaves the key as it was.
    pub fn secret_add(sec_key: &mut SecretKey, other_secret: &SecretKey) -> (r: Result<(), CryptoError>)
        ensures
            (be_nat(old(sec_key)@) + be_nat(other_secret@)) % curve_order() == 0 ==> r == Err::<
                (),
                CryptoError,
            >(error_of(InnerError::InvalidSecretKey)) && final(sec_key)@ == old(sec_key)@,
            (be_nat(old(sec_key)@) + be_nat(other_secret@)) % curve_order() != 0 ==> r is Ok
                && be_nat(final(sec_key)@) == (be_nat(old(sec_key)@) + be_nat(other_secret@))
                % curve_order(),
    {
        proof {
            use_type_invariant(&*sec_key);
            use_type_invariant(other_secret);
        }
        let self_zero = sec_key.is_zero();
        let other_zero = other_secret.is_zero();
        if self_zero && other_zero {
            return Err(CryptoError::from(InnerError::InvalidSecretKey));
        }
        if other_zero {
            return Ok(());
        }
        if self_zero {
            *sec_key = other_secret.clone();
            return Ok(());
        }
        match scalar_add(sec_key.bytes.as_slice(), other_secret.bytes.as_slice()) {
            Some(sum) => {
                *sec_key = SecretKey { bytes: sum };
                Ok(())
            },
            None => Err(CryptoError::from(InnerError::InvalidSecretKey)),
        }
    }

    /// Invert a secret key modulo the curve order; the zero key is refused
    /// and left as it was.
    pub fn secret_inv(sec_key: &mut SecretKey) -> (r: Result<(), CryptoError>)
        ensures
            be_nat(old(sec_key)@) == 0 ==> r == Err::<(), CryptoError>(
                error_of(InnerError::InvalidSecretKey),
            ) && final(sec_key)@ == old(sec_key)@,
            be_nat(old(sec_key)@) > 0 ==> r is Ok && (be_nat(old(sec_key)@) * be_nat(
                final(sec_key)@,
            )) % curve_order() == 1,
    {
        proof {
            use_type_invariant(&*sec_key);
        }
        if sec_key.is_zero() {
            return Err(CryptoError::from(InnerError::InvalidSecretKey));
        }
        let inverse = scalar_inv(sec_key.bytes.as_slice());
        *sec_key = SecretKey { bytes: inverse };
        Ok(())
    }
}

impl SecretKey {
    /// The shared secret of this nonzero secret key and the other side's
    /// public key: the `x` coordinate of their product.
    /// Both sides get the same secret: where `publ` is the public key of a
    /// secret `b`, the secret is the one that `b` gets with this key's
    /// public key.
    pub fn shared_secret(&self, publ: &PublicKey) -> (r: Result<SharedSecretAsRef, CryptoError>)
        requires
            be_nat(self@) > 0,
        ensures
            r matches Ok(s) && s.0@ == secp_point_mul(publ@, self@).subrange(0, 32),
            r matches Ok(s) ==> forall|b: Seq<u8>|
                secret_valid(b) && publ@ == #[trigger] secp_public_key(b) ==> s.0@
                    == secp_point_mul(secp_public_key(self@), b).subrange(0, 32),
    {
        proof {
            use_type_invariant(self);
            use_type_invariant(publ);
        }
        let product = point_mul(publ.raw.as_slice(), self.bytes.as_slice());
        Ok(SharedSecretAsRef(sub_vec(product.as_slice(), 0, 32)))
    }

    /// The 65-byte recoverable signature of a 32-byte message by this
    /// nonzero secret key: the compact signature (`r`, then a low `s`), then
    /// the recovery id. The signature verifies against, and recovers, the
    /// key's public key.
    pub fn sign(&self, message: &[u8]) -> (r: Result<Vec<u8>, CryptoError>)
        requires
            be_nat(self@) > 0,
        ensures
            res_view(r) == sign_spec(self@, message@),
            r matches Ok(sig) ==> sig@.len() == SIGN_SIZE && sig@[64] < 4 && be_nat(sig@.subrange(32, 64))
                <= curve_order() / 2,
            r matches Ok(sig) ==> verify_spec(secp_public_key(self@), sig@, message@) == Ok::<
                bool,
                CryptoError,
            >(true) && recover_spec(sig@, message@) == Ok::<Seq<u8>, CryptoError>(
                secp_public_key(self@),
            ),
    {
        proof {
            use_type_invariant(self);
        }
        if message.len() != 32 {
            return Err(CryptoError::from(InnerError::InvalidMessage));
        }
        let (signed, signed_recid) = sign_message(self.bytes.as_slice(), message);
        let s = sub_vec(signed.as_slice(), 32, 64);
        proof {
            lemma_constant_bytes();
        }
        let high = bytes_equal(s.as_slice(), HALF_ORDER_PLUS_ONE.as_slice());
        proof {
            if !high && be_nat(s@) == curve_order() / 2 + 1 {
                crate::bytes::lemma_be_injective(s@, HALF_ORDER_PLUS_ONE@);
            }
        }
        let (compact, recid) = if high {
            let low = scalar_mul(s.as_slice(), MINUS_ONE_BYTES.as_slice());
            proof {
                lemma_times_minus_one(be_nat(s@));
            }
            let mut c = sub_vec(signed.as_slice(), 0, 32);
            let mut low_part = low;
            c.append(&mut low_part);
            proof {
                assert(s@ =~= signed@.subrange(32, 64));
                assert(low@.len() == 32 && be_nat(low@) == curve_order() - be_nat(s@));
                let t = negated_scalar(be_nat(s@));
                assert(t.len() == 32 && be_nat(t) == curve_order() - be_nat(s@));
                crate::bytes::lemma_be_injective(t, low@);
                assert(low_s_signature(signed@, signed_recid) == (signed@.subrange(0, 32) + low@, signed_recid ^ 1u8));
                assert(c@ =~= signed@.subrange(0, 32) + low@);
                assert(c@.subrange(0, 32) =~= signed@.subrange(0, 32));
                assert(c@.subrange(32, 64) =~= low@);
                assert(signed_recid ^ 1u8 < 4) by (bit_vector)
                    requires
                        signed_recid < 4,
                ;
            }
            (c, signed_recid ^ 1u8)
        } else {
            proof {
                assert(s@ =~= signed@.subrange(32, 64));
                assert(low_s_signature(signed@, signed_recid) == (signed@, signed_recid));
            }
            (signed, signed_recid)
        };
        let mut data_arr = compact;
        data_arr.push(recid);
        proof {
            assert(data_arr@.subrange(0, 64) =~= compact@);
            assert(data_arr@.subrange(32, 64) =~= compact@.subrange(32, 64));
            assert(data_arr@[64] == recid);
            assert(s@ =~= signed@.subrange(32, 64));
        }
        Ok(data_arr)
    }
}

impl PublicKey {
    /// Whether the 65-byte recoverable `signature` of `message` verifies
    /// against this public key; the recovery id is checked and then ignored.
    pub fn verify(&self, signature: &[u8], message: &[u8]) -> (r: Result<bool, CryptoError>)
        requires
            signature@.len() >= SIGN_SIZE,
        ensures
            r == verify_spec(self@, signature@, message@),
    {
        proof {
            use_type_invariant(self);
        }
        let recid = signature[PUB_SIZE];
        if recid >= 4 {
            return Err(CryptoError::from(InnerError::InvalidRecoveryId));
        }
        let compact = sub_vec(signature, 0, PUB_SIZE);
        if !parse_signature_ok(compact.as_slice()) {
            return Err(CryptoError::from(InnerError::InvalidSignature));
        }
        if message.len() != 32 {
            return Err(CryptoError::from(InnerError::InvalidMessage));
        }
        Ok(verify_signature(self.raw.as_slice(), message, compact.as_slice()))
    }
}


/// The number written by `MINUS_ONE_BYTES` is the curve order minus one,
/// that of `ONE_BYTES` is one, and that of `CURVE_ORDER` is the order.
proof fn lemma_constant_bytes()
    ensures
        be_nat(MINUS_ONE_BYTES@) == curve_order() - 1,
        be_nat(ONE_BYTES@) == 1,
        be_nat(CURVE_ORDER@) == curve_order(),
        be_nat(HALF_ORDER_PLUS_ONE@) == curve_order() / 2 + 1,
{
    reveal_with_fuel(be_nat, 33);
}

/// Multiplying a nonzero scalar by -1 modulo the curve order gives its
/// negation.
proof fn lemma_times_minus_one(s: nat)
    requires
        0 < s < curve_order(),
    ensures
        (s * (curve_order() - 1) as nat) % curve_order() == curve_order() - s,
{
    let n = curve_order() as int;
    let x = s as int;
    assert(x * (n - 1) == (x - 1) * n + (n - x)) by (nonlinear_arith);
    vstd::arithmetic::div_mod::lemma_fundamental_div_mod_converse(x * (n - 1), n, x - 1, n - x);
}


impl Secp256k1 {
    /// The `x` coordinate of the generator.
    pub fn generator_x() -> (v: Vec<u8>)
        ensures
            v@ == GENERATOR_X@,
    {
        let v = sub_vec(GENERATOR_X.as_slice(), 0, 32);
        assert(v@ =~= GENERATOR_X@);
        v
    }

    /// The `y` coordinate of the generator.
    pub fn generator_y() -> (v: Vec<u8>)
        ensures
            v@ == GENERATOR_Y@,
    {
        let v = sub_vec(GENERATOR_Y.as_slice(), 0, 32);
        assert(v@ =~= GENERATOR_Y@);
        v
    }

    /// The order of the curve's group.
    pub fn curve_order() -> (v: Vec<u8>)
        ensures
            be_nat(v@) == curve_order(),
            v@.len() == 32,
    {
        let v = sub_vec(CURVE_ORDER.as_slice(), 0, 32);
        proof {
            lemma_constant_bytes();
            assert(v@ =~= CURVE_ORDER@);
        }
        v
    }

    /// The secret key of the scalar 1.
    pub fn one_key() -> (k: SecretKey)
        ensures
            be_nat(k@) == 1,
            k@.len() == 32,
    {
        let bytes = sub_vec(ONE_BYTES.as_slice(), 0, 32);
        proof {
            lemma_constant_bytes();
            assert(bytes@ =~= ONE_BYTES@);
        }
        SecretKey { bytes }
    }

    /// The zero scalar, for comparisons.
    pub fn zero_key() -> (k: SecretKey)
        ensures
            be_nat(k@) == 0,
            k@.len() == 32,
    {
        let bytes: Vec<u8> = vec![0u8; 32];
        proof {
            crate::bytes::lemma_be_zeros(bytes@);
        }
        SecretKey { bytes }
    }

    /// The secret key of the scalar -1, that is the curve order minus one.
    pub fn minus_one_key() -> (k: SecretKey)
        ensures
            be_nat(k@) == curve_order() - 1,
            k@.len() == 32,
    {
        let bytes = sub_vec(MINUS_ONE_BYTES.as_slice(), 0, 32);
        proof {
            lemma_constant_bytes();
            assert(bytes@ =~= MINUS_ONE_BYTES@);
        }
        SecretKey { bytes }
    }
}


/// A public key written out with `to_vec` and read back with
/// `public_from_slice` is the same key.
pub proof fn law_public_key_round_trip(raw: Seq<u8>)
    requires
        on_curve(raw),
    ensures
        public_from_slice_spec(raw) == Ok::<Seq<u8>, CryptoError>(raw),
{
    assert(raw.subrange(0, 64) =~= raw);
}

/// A valid secret key written out with `to_vec` and read back with
/// `secret_from_slice` is the same key.
pub proof fn law_secret_key_round_trip(bytes: Seq<u8>)
    requires
        secret_valid(bytes),
    ensures
        secret_from_slice_spec(bytes) == Ok::<Seq<u8>, CryptoError>(bytes),
{
}

/// Multiplying a secret key by the one key leaves its scalar as it is.
pub proof fn law_mul_by_one_key(a: Seq<u8>)
    requires
        scalar_bytes(a),
    ensures
        (be_nat(a) * be_nat(ONE_BYTES@)) % curve_order() == be_nat(a),
{
    lemma_constant_bytes();
    vstd::arithmetic::div_mod::lemma_small_mod(be_nat(a), curve_order());
}

/// Adding the minus-one key to a secret key other than one, then the one
/// key, gives back its scalar, and the sum in between is not zero.
pub proof fn law_minus_one_then_one(a: Seq<u8>)
    requires
        scalar_bytes(a),
        be_nat(a) != 1,
    ensures
        (be_nat(a) + be_nat(MINUS_ONE_BYTES@)) % curve_order() != 0,
        (((be_nat(a) + be_nat(MINUS_ONE_BYTES@)) % curve_order()) + be_nat(ONE_BYTES@))
            % curve_order() == be_nat(a),
{
    lemma_constant_bytes();
    let n = curve_order();
    let x = be_nat(a);
    if x == 0 {
        vstd::arithmetic::div_mod::lemma_small_mod((n - 1) as nat, n);
        vstd::arithmetic::div_mod::lemma_mod_self_0(n as int);
    } else {
        vstd::arithmetic::div_mod::lemma_mod_add_multiples_vanish((x - 1) as int, n as int);
        vstd::arithmetic::div_mod::lemma_small_mod((x - 1) as nat, n);
        vstd::arithmetic::div_mod::lemma_small_mod(x, n);
    }
}

/// The inverse of a secret key, multiplied by the key in either order,
/// gives one.
pub proof fn law_inverse_times_key_is_one(a: Seq<u8>, inv: Seq<u8>)
    requires
        (be_nat(a) * be_nat(inv)) % curve_order() == 1,
    ensures
        (be_nat(inv) * be_nat(a)) % curve_order() == be_nat(ONE_BYTES@),
{
    lemma_constant_bytes();
    vstd::arithmetic::mul::lemma_mul_is_commutative(be_nat(a) as int, be_nat(inv) as int);
}

/// Verifying a 65-byte signature checks its 64-byte compact part against
/// the public key and nothing else: once the recovery id is in range, the
/// answer is whether the compact signature verifies, so it is the same for
/// every recovery id.
pub proof fn law_verify_ignores_recovery_id(public: Seq<u8>, signature: Seq<u8>, message: Seq<u8>, other_id: u8)
    requires
        signature.len() >= 65,
        signature[64] < 4,
        other_id < 4,
        compact_sig_valid(signature.subrange(0, 64)),
        message.len() == 32,
    ensures
        verify_spec(public, signature, message) == Ok::<bool, CryptoError>(
            secp_verifies(public, message, signature.subrange(0, 64)),
        ),
        verify_spec(public, signature.update(64, other_id), message) == verify_spec(
            public,
            signature,
            message,
        ),
{
    assert(signature.update(64, other_id).subrange(0, 64) =~= signature.subrange(0, 64));
}

/// Inverting a secret key twice gives back the key: where `inv` is the
/// inverse of `a` and `inv2` that of `inv`, `inv2` is `a`, byte for byte.
pub proof fn law_inverse_twice_gives_back_the_key(a: Seq<u8>, inv: Seq<u8>, inv2: Seq<u8>)
    requires
        scalar_bytes(a),
        scalar_bytes(inv2),
        (be_nat(a) * be_nat(inv)) % curve_order() == 1,
        (be_nat(inv) * be_nat(inv2)) % curve_order() == 1,
    ensures
        inv2 == a,
{
    let n = curve_order() as int;
    let x = be_nat(a) as int;
    let y = be_nat(inv) as int;
    let z = be_nat(inv2) as int;
    vstd::arithmetic::div_mod::lemma_mul_mod_noop_left(x * y, z, n);
    vstd::arithmetic::div_mod::lemma_mul_mod_noop_right(x, y * z, n);
    vstd::arithmetic::mul::lemma_mul_is_associative(x, y, z);
    vstd::arithmetic::div_mod::lemma_small_mod(z as nat, n as nat);
    vstd::arithmetic::div_mod::lemma_small_mod(x as nat, n as nat);
    assert(1 * z == z);
    assert(x * 1 == x);
    crate::bytes::lemma_be_injective(inv2, a);
}

} // verus!
