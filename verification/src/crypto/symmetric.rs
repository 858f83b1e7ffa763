//! Symmetric ciphers: AES-256 in ECB mode without padding, and AES-256 in
//! CTR mode with a 64-bit big-endian counter.
use vstd::prelude::*;
use vstd::string::*;

use aes::cipher::{NewCipher, StreamCipher, StreamCipherSeek};
use aes::{Aes256, Aes256Ctr};
use block_modes::block_padding::ZeroPadding;
use block_modes::{BlockMode, BlockModeError, Ecb};

verus! {

#[verifier::external_type_specification]
#[verifier::external_body]
pub struct ExBlockModeError(BlockModeError);

#[verifier::external_type_specification]
#[verifier::external_body]
pub struct ExLoopError(::aes::cipher::errors::LoopError);

/// Errors of the symmetric ciphers.
#[derive(Debug)]
pub enum SymmError {
    OtherError(String),
}

/// AES-256 in ECB mode of `data` under `key`, block by block.
pub uninterp spec fn aes256_ecb_encrypt(key: Seq<u8>, data: Seq<u8>) -> Seq<u8>;

/// AES-256 ECB decryption of `data` under `key`, block by block.
pub uninterp spec fn aes256_ecb_decrypt(key: Seq<u8>, data: Seq<u8>) -> Seq<u8>;

/// `data` xored with the AES-256 CTR keystream of `key` and `iv` (64-bit
/// big-endian counter), starting at byte `pos` of the keystream.
pub uninterp spec fn aes256_ctr_apply(key: Seq<u8>, iv: Seq<u8>, pos: nat, data: Seq<u8>) -> Seq<u8>;

/// Whether `len` more bytes of keystream from byte `pos` run past the last
/// block that a 64-bit counter reaches.
pub open spec fn ctr_overflows(pos: nat, len: nat) -> bool {
    let left = 16 - pos % 16;
    len >= left && pos / 16 + 1 + (len - left) / 16 > u64::MAX
}

/// `<Aes256 as NewBlockCipher>::KeySize`: 32 bytes.
#[verifier::external_body]
fn aes256_key_size() -> (n: usize)
    ensures
        n == 32,
{
    <<Aes256 as aes::NewBlockCipher>::KeySize as aes::cipher::generic_array::typenum::Unsigned>::to_usize()
}

/// `<Aes256 as BlockCipher>::BlockSize`: 16 bytes.
#[verifier::external_body]
fn aes256_block_size() -> (n: usize)
    ensures
        n == 16,
{
    <<Aes256 as aes::BlockCipher>::BlockSize as aes::cipher::generic_array::typenum::Unsigned>::to_usize()
}

/// `Ecb::<Aes256, ZeroPadding>::new_from_slices`: it takes exactly the keys
/// of 32 bytes.
#[verifier::external_body]
fn ecb_accepts_key(key: &[u8]) -> (b: bool)
    ensures
        b == (key@.len() == 32),
{
    Ecb::<Aes256, ZeroPadding>::new_from_slices(key, &[]).is_ok()
}

/// `BlockMode::encrypt` of ECB with zero padding over the whole of
/// `content`: per the crate's source it fails exactly where the length is
/// no multiple of the block size (leaving `content` as it was), and
/// otherwise encrypts it in place, block by block, with the AES permutation,
/// which AES decryption under the same key inverts.
#[verifier::external_body]
fn ecb_encrypt(key: &[u8], content: &mut [u8]) -> (r: Result<(), BlockModeError>)
    requires
        key@.len() == 32,
    ensures
        final(content)@.len() == old(content)@.len(),
        r is Err <==> old(content)@.len() % 16 != 0,
        r is Err ==> final(content)@ == old(content)@,
        r is Ok ==> final(content)@ == aes256_ecb_encrypt(key@, old(content)@),
        r is Ok ==> aes256_ecb_decrypt(key@, final(content)@) == old(content)@,
{
    let len = content.len();
    match Ecb::<Aes256, ZeroPadding>::new_from_slices(key, &[]).unwrap().encrypt(content, len) {
        Ok(_) => Ok(()),
        Err(e) => Err(e),
    }
}

/// `BlockMode::decrypt` of ECB with zero padding on nonempty `content`: it
/// fails exactly where the length is no multiple of the block size (leaving
/// `content` as it was), and otherwise decrypts it in place. The unpadded
/// length that it reports is not used.
#[verifier::external_body]
fn ecb_decrypt(key: &[u8], content: &mut [u8]) -> (r: Result<(), BlockModeError>)
    requires
        key@.len() == 32,
        old(content)@.len() > 0,
    ensures
        final(content)@.len() == old(content)@.len(),
        r is Err <==> old(content)@.len() % 16 != 0,
        r is Err ==> final(content)@ == old(content)@,
        r is Ok ==> final(content)@ == aes256_ecb_decrypt(key@, old(content)@),
{
    match Ecb::<Aes256, ZeroPadding>::new_from_slices(key, &[]).unwrap().decrypt(content) {
        Ok(_) => Ok(()),
        Err(e) => Err(e),
    }
}

/// `Aes256Ctr::new`, `try_seek(pos)` and `try_apply_keystream(data)`: per
/// the crate's source the keystream runs out exactly where the 64-bit block
/// counter would overflow (leaving `data` as it was); otherwise `data` is
/// xored with the keystream from byte `pos`, so that xoring the result with
/// the same keystream gives `data` back.
#[verifier::external_body]
fn ctr_apply(key: &[u8], iv: &[u8], pos: u128, data: &mut [u8]) -> (r: Result<(), ::aes::cipher::errors::LoopError>)
    requires
        key@.len() == 32,
        iv@.len() == 16,
        pos / 16 <= u64::MAX,
    ensures
        final(data)@.len() == old(data)@.len(),
        r is Err <==> ctr_overflows(pos as nat, old(data)@.len()),
        r is Err ==> final(data)@ == old(data)@,
        r is Ok ==> final(data)@ == aes256_ctr_apply(key@, iv@, pos as nat, old(data)@),
        r is Ok ==> aes256_ctr_apply(key@, iv@, pos as nat, final(data)@) == old(data)@,
{
    let mut cipher = Aes256Ctr::new(key.into(), iv.into());
    cipher.try_seek(pos).unwrap();
    cipher.try_apply_keystream(data)
}

/// The message of `LoopError` (its `Display`): "Loop Error".
#[verifier::external_body]
fn loop_error_message(e: &::aes::cipher::errors::LoopError) -> (m: String)
    ensures
        m@ == "Loop Error"@,
{
    e.to_string()
}

/// The message that a `BlockModeError` is reported with.
pub open spec fn block_mode_error_message() -> Seq<char> {
    "BlockModeError"@
}

/// The message that a refused key length is reported with.
pub open spec fn invalid_key_length_message() -> Seq<char> {
    "InvalidKeyLength"@
}

/// The message of the error, if it is an `OtherError`.
pub open spec fn symm_message(e: SymmError) -> Seq<char> {
    match e {
        SymmError::OtherError(m) => m@,
    }
}

/// AES-256 in ECB mode, without padding.
pub struct AesEcb256;

/// An AES-256 ECB cipher of a key.
#[allow(non_camel_case_types)]
pub struct AesEcb256_cr {
    key: Vec<u8>,
}

impl AesEcb256_cr {
    #[verifier::type_invariant]
    pub closed spec fn wf(self) -> bool {
        self.key@.len() == 32
    }

    /// The key of the cipher.
    pub closed spec fn key(self) -> Seq<u8> {
        self.key@
    }

    /// Key length: 32 bytes.
    pub fn key_len() -> (n: usize)
        ensures
            n == 32,
    {
        aes256_key_size()
    }

    /// Block length: 16 bytes.
    pub fn block_len() -> (n: usize)
        ensures
            n == 16,
    {
        aes256_block_size()
    }

    /// ECB takes no initialization vector.
    pub fn iv_len() -> (n: Option<usize>)
        ensures
            n is None,
    {
        None
    }

    /// Restarting ECB changes nothing: it keeps no state between blocks.
    pub fn clear_state(self, _new_iv: Option<&[u8]>) -> (r: Result<Self, SymmError>)
        ensures
            r matches Ok(c) && c.key() == self.key(),
    {
        Ok(self)
    }

    /// Encrypt `content` in place, block by block. A length that is no
    /// multiple of the block size is refused, leaving `content` as it was.
    pub fn encrypt(&mut self, content: &mut [u8]) -> (r: Result<(), SymmError>)
        ensures
            final(self).key() == old(self).key(),
            final(content)@.len() == old(content)@.len(),
            old(content)@.len() % 16 != 0 ==> (r matches Err(e) && symm_message(e)
                == block_mode_error_message() && final(content)@ == old(content)@),
            old(content)@.len() % 16 == 0 ==> r is Ok && final(content)@ == aes256_ecb_encrypt(
                old(self).key(),
                old(content)@,
            ),
            r is Ok ==> aes256_ecb_decrypt(old(self).key(), final(content)@) == old(content)@,
    {
        proof {
            use_type_invariant(&*self);
        }
        match ecb_encrypt(self.key.as_slice(), content) {
            Ok(()) => Ok(()),
            Err(_) => Err(SymmError::OtherError(String::from_str("BlockModeError"))),
        }
    }

    /// Decrypt `content` in place, block by block, and return its length.
    /// A length that is no multiple of the block size is refused, leaving
    /// `content` as it was; empty content stays empty.
    pub fn decrypt(&mut self, content: &mut [u8]) -> (r: Result<usize, SymmError>)
        ensures
            final(self).key() == old(self).key(),
            final(content)@.len() == old(content)@.len(),
            old(content)@.len() % 16 != 0 ==> (r matches Err(e) && symm_message(e)
                == block_mode_error_message() && final(content)@ == old(content)@),
            old(content)@.len() == 0 ==> r == Ok::<usize, SymmError>(0) && final(content)@ == old(
                content,
            )@,
            old(content)@.len() % 16 == 0 && old(content)@.len() > 0 ==> r == Ok::<
                usize,
                SymmError,
            >(old(content)@.len() as usize) && final(content)@ == aes256_ecb_decrypt(
                old(self).key(),
                old(content)@,
            ),
    {
        proof {
            use_type_invariant(&*self);
        }
        if content.len() == 0 {
            return Ok(0);
        }
        match ecb_decrypt(self.key.as_slice(), content) {
            Ok(()) => Ok(content.len()),
            Err(_) => Err(SymmError::OtherError(String::from_str("BlockModeError"))),
        }
    }
}

impl AesEcb256 {
    /// An encrypting cipher of `key`; ECB takes no initialization vector.
    /// Keys of other lengths than 32 bytes are refused.
    pub fn new_enc(key: &[u8], iv: Option<&[u8]>) -> (r: Result<AesEcb256_cr, SymmError>)
        requires
            iv is None,
        ensures
            key@.len() == 32 ==> (r matches Ok(c) && c.key() == key@),
            key@.len() != 32 ==> (r matches Err(e) && symm_message(e) == invalid_key_length_message()),
    {
        if ecb_accepts_key(key) {
            let k = crate::bytes::sub_vec(key, 0, key.len());
            assert(k@ =~= key@);
            Ok(AesEcb256_cr { key: k })
        } else {
            Err(SymmError::OtherError(String::from_str("InvalidKeyLength")))
        }
    }

    /// A decrypting cipher of `key`; the same as the encrypting one.
    pub fn new_dec(key: &[u8], iv: Option<&[u8]>) -> (r: Result<AesEcb256_cr, SymmError>)
        requires
            iv is None,
        ensures
            key@.len() == 32 ==> (r matches Ok(c) && c.key() == key@),
            key@.len() != 32 ==> (r matches Err(e) && symm_message(e) == invalid_key_length_message()),
    {
        Self::new_enc(key, iv)
    }
}

/// AES-256 in CTR mode.
pub struct AesCtr256;

/// An AES-256 CTR cipher of a key and an initialization vector, with its
/// position in the keystream.
#[allow(non_camel_case_types)]
pub struct AesCtr256_cr {
    key: Vec<u8>,
    iv: Vec<u8>,
    pos: u128,
}

impl AesCtr256_cr {
    #[verifier::type_invariant]
    pub closed spec fn wf(self) -> bool {
        self.key@.len() == 32 && self.iv@.len() == 16 && self.pos / 16 <= u64::MAX
    }

    /// The key of the cipher.
    pub closed spec fn key(self) -> Seq<u8> {
        self.key@
    }

    /// The initialization vector of the cipher.
    pub closed spec fn iv(self) -> Seq<u8> {
        self.iv@
    }

    /// How many bytes of keystream the cipher has used.
    pub closed spec fn pos(self) -> nat {
        self.pos as nat
    }

    /// Key length: 32 bytes.
    pub fn key_len() -> (n: usize)
        ensures
            n == 32,
    {
        aes256_key_size()
    }

    /// Block length: 16 bytes.
    pub fn block_len() -> (n: usize)
        ensures
            n == 16,
    {
        aes256_block_size()
    }

    /// CTR takes an initialization vector of one block.
    pub fn iv_len() -> (n: Option<usize>)
        ensures
            n == Some(16usize),
    {
        Some(aes256_block_size())
    }

    /// Xor `data` with the next bytes of keystream, and move past them.
    /// Running out of keystream is refused, leaving everything as it was.
    fn apply(&mut self, data: &mut [u8]) -> (r: Result<(), SymmError>)
        ensures
            final(data)@.len() == old(data)@.len(),
            final(self).key() == old(self).key(),
            final(self).iv() == old(self).iv(),
            ctr_overflows(old(self).pos(), old(data)@.len()) ==> (r matches Err(e) && symm_message(e)
                == "Loop Error"@ && final(data)@ == old(data)@ && final(self).pos() == old(self).pos()),
            !ctr_overflows(old(self).pos(), old(data)@.len()) ==> r is Ok && final(data)@
                == aes256_ctr_apply(old(self).key(), old(self).iv(), old(self).pos(), old(data)@)
                && final(self).pos() == old(self).pos() + old(data)@.len(),
            r is Ok ==> aes256_ctr_apply(old(self).key(), old(self).iv(), old(self).pos(), final(data)@)
                == old(data)@,
    {
        proof {
            use_type_invariant(&*self);
        }
        let len = data.len();
        match ctr_apply(self.key.as_slice(), self.iv.as_slice(), self.pos, data) {
            Ok(()) => {
                proof {
                    lemma_ctr_pos_bound(self.pos as nat, len as nat);
                }
                self.pos = self.pos + len as u128;
                Ok(())
            },
            Err(e) => Err(SymmError::OtherError(loop_error_message(&e))),
        }
    }

    /// Encrypt `data` in place.
    pub fn encrypt(&mut self, content: &mut [u8]) -> (r: Result<(), SymmError>)
        ensures
            final(self).key() == old(self).key(),
            final(content)@.len() == old(content)@.len(),
            final(self).iv() == old(self).iv(),
            ctr_overflows(old(self).pos(), old(content)@.len()) ==> (r matches Err(e) && symm_message(
                e,
            ) == "Loop Error"@ && final(content)@ == old(content)@ && final(self).pos() == old(
                self,
            ).pos()),
            !ctr_overflows(old(self).pos(), old(content)@.len()) ==> r is Ok && final(content)@
                == aes256_ctr_apply(old(self).key(), old(self).iv(), old(self).pos(), old(content)@)
                && final(self).pos() == old(self).pos() + old(content)@.len(),
            r is Ok ==> aes256_ctr_apply(old(self).key(), old(self).iv(), old(self).pos(), final(content)@)
                == old(content)@,
    {
        self.apply(content)
    }

    /// Decrypt `data` in place, and return its length.
    pub fn decrypt(&mut self, content: &mut [u8]) -> (r: Result<usize, SymmError>)
        ensures
            final(self).key() == old(self).key(),
            final(content)@.len() == old(content)@.len(),
            final(self).iv() == old(self).iv(),
            ctr_overflows(old(self).pos(), old(content)@.len()) ==> (r matches Err(e) && symm_message(
                e,
            ) == "Loop Error"@ && final(content)@ == old(content)@ && final(self).pos() == old(
                self,
            ).pos()),
            !ctr_overflows(old(self).pos(), old(content)@.len()) ==> r == Ok::<usize, SymmError>(
                old(content)@.len() as usize,
            ) && final(content)@ == aes256_ctr_apply(
                old(self).key(),
                old(self).iv(),
                old(self).pos(),
                old(content)@,
            ) && final(self).pos() == old(self).pos() + old(content)@.len(),
            r is Ok ==> aes256_ctr_apply(old(self).key(), old(self).iv(), old(self).pos(), final(content)@)
                == old(content)@,
    {
        self.apply(content)?;
        Ok(content.len())
    }
}

/// Moving `len` bytes from `pos` without running out of keystream keeps
/// the block index within a 64-bit counter, and the position within a `u128`.
proof fn lemma_ctr_pos_bound(pos: nat, len: nat)
    requires
        pos / 16 <= u64::MAX,
        !ctr_overflows(pos, len),
        len <= usize::MAX,
    ensures
        (pos + len) / 16 <= u64::MAX,
        pos + len <= u128::MAX,
{
    let left = 16 - pos % 16;
    if len >= left {
        assert((pos + len) / 16 == pos / 16 + 1 + (len - left) / 16) by (nonlinear_arith)
            requires
                left == 16 - pos % 16,
                len >= left,
        ;
    } else {
        assert((pos + len) / 16 == pos / 16) by (nonlinear_arith)
            requires
                left == 16 - pos % 16,
                len < left,
        ;
    }
}

impl AesCtr256 {
    /// An encrypting cipher of a 32-byte `key` and 16-byte `iv`, at the
    /// start of its keystream. CTR needs an initialization vector.
    pub fn new_enc(key: &[u8], iv: Option<&[u8]>) -> (r: Result<AesCtr256_cr, SymmError>)
        requires
            key@.len() == 32,
            iv matches Some(v) && v@.len() == 16,
        ensures
            r matches Ok(c) && c.key() == key@ && c.iv() == iv->0@ && c.pos() == 0,
    {
        let v = match iv {
            Some(v) => v,
            None => {
                proof {
                    assert(false);
                }
                key
            },
        };
        let k = crate::bytes::sub_vec(key, 0, key.len());
        let i = crate::bytes::sub_vec(v, 0, v.len());
        assert(k@ =~= key@);
        assert(i@ =~= v@);
        Ok(AesCtr256_cr { key: k, iv: i, pos: 0 })
    }

    /// A decrypting cipher: the same as the encrypting one.
    pub fn new_dec(key: &[u8], iv: Option<&[u8]>) -> (r: Result<AesCtr256_cr, SymmError>)
        requires
            key@.len() == 32,
            iv matches Some(v) && v@.len() == 16,
        ensures
            r matches Ok(c) && c.key() == key@ && c.iv() == iv->0@ && c.pos() == 0,
    {
        Self::new_enc(key, iv)
    }
}

} // verus!
