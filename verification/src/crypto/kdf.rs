//! Scrypt key derivation, split into an encryption key and a MAC key.
use vstd::prelude::*;
use vstd::arithmetic::power2::pow2;

use crate::bytes::sub_vec;
use crate::crypto::{KEY_LENGTH, KEY_LENGTH_AES};

verus! {

#[verifier::external_type_specification]
#[verifier::external_body]
pub struct ExInvalidParams(::scrypt::errors::InvalidParams);

#[verifier::external_type_specification]
#[verifier::external_body]
pub struct ExInvalidOutputLen(::scrypt::errors::InvalidOutputLen);

/// Errors of `derive_key`.
#[derive(Debug, PartialEq, Eq, Clone, Copy, Structural)]
pub enum ScryptError {
    /// `n` is too large for the block size `r`.
    InvalidN,
    /// `p` is too large for the block size `r`.
    InvalidP,
    /// The scrypt implementation refused the parameters.
    ScryptParam,
    /// The scrypt implementation refused the output length.
    ScryptLength,
}

/// The greatest `k` with `2^k <= n`, for `n >= 1`.
pub open spec fn floor_log2(n: nat) -> nat
    decreases n,
{
    if n < 2 {
        0
    } else {
        1 + floor_log2(n / 2)
    }
}

/// The parameters that the scrypt implementation accepts: `N = 2^log_n`,
/// block size `r` and parallelism `p` must be positive, `128 * r * N` and
/// `128 * r * p` must fit in a `usize`, `log_n < 16 * r`, and `r * p < 2^30`.
pub open spec fn scrypt_params_valid(log_n: u8, r: u32, p: u32) -> bool {
    &&& r > 0
    &&& p > 0
    &&& log_n < usize::BITS
    &&& 128 * r <= usize::MAX
    &&& 128 * r * pow2(log_n as nat) <= usize::MAX
    &&& 128 * r * p <= usize::MAX
    &&& log_n < 16 * r
    &&& r * p < 0x4000_0000
}

/// The output lengths that the scrypt implementation accepts.
pub open spec fn scrypt_output_len_valid(len: nat) -> bool {
    len > 0 && len / 32 <= 0xffff_ffff
}

/// The scrypt key derivation function's output of `len` bytes.
pub uninterp spec fn scrypt_output(
    password: Seq<u8>,
    salt: Seq<u8>,
    log_n: u8,
    r: u32,
    p: u32,
    len: nat,
) -> Seq<u8>;

/// Runs `scrypt::ScryptParams::new(log_n, r, p)` and, where it succeeds,
/// `scrypt::scrypt` into `output`. Both results are handed back as they come.
/// Per the crate's source, the parameters are refused exactly where
/// `scrypt_params_valid` fails, the output is refused exactly where its length
/// fails `scrypt_output_len_valid` (before anything is written), and the
/// output otherwise holds the derived bytes.
#[verifier::external_body]
fn run_scrypt(
    password: &[u8],
    salt: &[u8],
    log_n: u8,
    r: u32,
    p: u32,
    output: &mut [u8],
) -> (res: Result<Result<(), ::scrypt::errors::InvalidOutputLen>, ::scrypt::errors::InvalidParams>)
    ensures
        final(output)@.len() == old(output)@.len(),
        res is Err <==> !scrypt_params_valid(log_n, r, p),
        res matches Ok(inner) ==> (inner is Ok <==> scrypt_output_len_valid(old(output)@.len())),
        res matches Ok(inner) && inner is Ok ==> final(output)@ == scrypt_output(
            password@,
            salt@,
            log_n,
            r,
            p,
            old(output)@.len(),
        ),
        !(res matches Ok(inner) && inner is Ok) ==> final(output)@ == old(output)@,
{
    let params = ::scrypt::ScryptParams::new(log_n, r, p)?;
    Ok(::scrypt::scrypt(password, salt, &params, output))
}

/// The largest `p` that `derive_key` accepts for block size `r`.
pub open spec fn max_p(r: u32) -> int {
    ((u32::MAX - 1) * 32) / (128 * r)
}

/// What `derive_key` returns.
pub open spec fn derive_key_spec(
    pass: Seq<u8>,
    salt: Seq<u8>,
    n: u32,
    p: u32,
    r: u32,
) -> Result<(Seq<u8>, Seq<u8>), ScryptError> {
    let log_n = floor_log2(n as nat);
    if log_n >= 16 * r {
        Err(ScryptError::InvalidN)
    } else if p > max_p(r) {
        Err(ScryptError::InvalidP)
    } else if !scrypt_params_valid(log_n as u8, r, p) {
        Err(ScryptError::ScryptParam)
    } else {
        let key = scrypt_output(pass, salt, log_n as u8, r, p, KEY_LENGTH as nat);
        Ok((key.subrange(0, KEY_LENGTH_AES as int), key.subrange(KEY_LENGTH_AES as int, KEY_LENGTH as int)))
    }
}

/// `floor_log2` of a `u32` that is at least 1.
fn log2_floor(n: u32) -> (k: u8)
    requires
        n >= 1,
    ensures
        k == floor_log2(n as nat),
        k < 32,
{
    let mut m: u32 = n;
    let mut k: u8 = 0;
    proof {
        vstd::arithmetic::power2::lemma2_to64();
    }
    while m >= 2
        invariant
            1 <= m <= n,
            k + floor_log2(m as nat) == floor_log2(n as nat),
            k < 32,
            m * pow2(k as nat) <= n,
        decreases m,
    {
        proof {
            vstd::arithmetic::power2::lemma_pow2_unfold((k + 1) as nat);
            assert((m / 2) * pow2((k + 1) as nat) <= m * pow2(k as nat)) by (nonlinear_arith)
                requires
                    pow2((k + 1) as nat) == 2 * pow2(k as nat),
                    m >= 2,
            ;
            assert(m * pow2(k as nat) >= 2 * pow2(k as nat)) by (nonlinear_arith)
                requires
                    m >= 2,
            ;
            lemma_pow2_bound(k as nat, n);
        }
        m = m / 2;
        k = k + 1;
    }
    k
}

/// `2^(k + 1) <= n` for a `u32` value `n` means `k < 31`.
proof fn lemma_pow2_bound(k: nat, n: u32)
    requires
        2 * pow2(k) <= n,
    ensures
        k < 31,
{
    if k >= 31 {
        vstd::arithmetic::power2::lemma_pow2_strictly_increases(31, k + 1);
        vstd::arithmetic::power2::lemma2_to64();
        vstd::arithmetic::power2::lemma_pow2_unfold(k + 1);
        if k > 31 {
            vstd::arithmetic::power2::lemma_pow2_strictly_increases(32, k + 1);
        }
    }
}

/// Derive a 32-byte key from `pass` and `salt` with scrypt, with
/// `N = 2^floor(log2 n)`, block size `r` and parallelism `p`, and return its
/// first and second 16-byte halves.
pub fn derive_key(pass: &[u8], salt: &[u8], n: u32, p: u32, r: u32) -> (res: Result<
    (Vec<u8>, Vec<u8>),
    ScryptError,
>)
    requires
        n >= 1,
        16 * r <= u32::MAX,
    ensures
        match derive_key_spec(pass@, salt@, n, p, r) {
            Ok((right, left)) => res matches Ok((a, b)) && a@ == right && b@ == left,
            Err(e) => res == Err::<(Vec<u8>, Vec<u8>), ScryptError>(e),
        },
        res matches Ok((a, b)) ==> a@.len() == KEY_LENGTH_AES && b@.len() == KEY_LENGTH - KEY_LENGTH_AES
            && a@ + b@ == scrypt_output(pass@, salt@, floor_log2(n as nat) as u8, r, p, KEY_LENGTH as nat),
{
    let log_n = log2_floor(n);
    if log_n as u32 >= r * 16 {
        return Err(ScryptError::InvalidN);
    }
    if p as u64 > ((u32::MAX as u64 - 1) * 32) / (128 * (r as u64)) {
        return Err(ScryptError::InvalidP);
    }
    let mut derived_key: Vec<u8> = vec![0u8; KEY_LENGTH];
    match run_scrypt(pass, salt, log_n, r, p, derived_key.as_mut_slice()) {
        Err(_) => Err(ScryptError::ScryptParam),
        Ok(Err(_)) => Err(ScryptError::ScryptLength),
        Ok(Ok(())) => {
            let right = sub_vec(derived_key.as_slice(), 0, KEY_LENGTH_AES);
            let left = sub_vec(derived_key.as_slice(), KEY_LENGTH_AES, KEY_LENGTH);
            assert(right@ + left@ =~= derived_key@);
            Ok((right, left))
        },
    }
}


/// A derived key comes in two halves of 16 bytes that together make the
/// 32-byte scrypt output of the same password, salt and parameters (the
/// scrypt call fills an output of 32 bytes, so its result has that length).
pub proof fn law_derived_halves_make_the_key(pass: Seq<u8>, salt: Seq<u8>, n: u32, p: u32, r: u32)
    requires
        derive_key_spec(pass, salt, n, p, r) is Ok,
        scrypt_output(pass, salt, floor_log2(n as nat) as u8, r, p, 32).len() == 32,
    ensures
        ({
            let (right, left) = derive_key_spec(pass, salt, n, p, r)->Ok_0;
            &&& right.len() == 16
            &&& left.len() == 16
            &&& right + left == scrypt_output(pass, salt, floor_log2(n as nat) as u8, r, p, 32)
        }),
{
    let (right, left) = derive_key_spec(pass, salt, n, p, r)->Ok_0;
    let key = scrypt_output(pass, salt, floor_log2(n as nat) as u8, r, p, 32);
    assert(right + left =~= key);
}

/// `floor_log2` of a power of two gives back its exponent.
proof fn lemma_floor_log2_of_pow2(k: nat)
    ensures
        floor_log2(pow2(k)) == k,
    decreases k,
{
    if k == 0 {
        vstd::arithmetic::power2::lemma2_to64();
    } else {
        vstd::arithmetic::power2::lemma_pow2_unfold(k);
        lemma_floor_log2_of_pow2((k - 1) as nat);
        vstd::arithmetic::power2::lemma_pow2_pos((k - 1) as nat);
        assert(pow2(k) >= 2);
        assert(pow2(k) / 2 == pow2((k - 1) as nat));
        assert(floor_log2(pow2(k)) == 1 + floor_log2(pow2(k) / 2));
    }
}

/// The power of two kept by `floor_log2` is at most the number.
proof fn lemma_pow2_floor_log2_le(n: nat)
    requires
        n >= 1,
    ensures
        pow2(floor_log2(n)) <= n,
    decreases n,
{
    if n < 2 {
        vstd::arithmetic::power2::lemma2_to64();
    } else {
        lemma_pow2_floor_log2_le(n / 2);
        vstd::arithmetic::power2::lemma_pow2_unfold(floor_log2(n));
    }
}

/// Only the highest set bit of `n` counts: `derive_key` with `n` derives
/// what it derives with the greatest power of two that is at most `n`.
pub proof fn law_only_highest_bit_of_n_counts(pass: Seq<u8>, salt: Seq<u8>, n: u32, p: u32, r: u32)
    requires
        n >= 1,
    ensures
        pow2(floor_log2(n as nat)) <= n,
        derive_key_spec(pass, salt, n, p, r) == derive_key_spec(
            pass,
            salt,
            pow2(floor_log2(n as nat)) as u32,
            p,
            r,
        ),
{
    lemma_pow2_floor_log2_le(n as nat);
    lemma_floor_log2_of_pow2(floor_log2(n as nat));
}

} // verus!
