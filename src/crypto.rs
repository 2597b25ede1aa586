use vstd::prelude::*;

use aes_gcm::aead::rand_core::RngCore;
use argon2::{Algorithm, Argon2, Params, Version};
use hkdf::Hkdf;
use openssl::symm::{decrypt_aead, encrypt_aead, Cipher};
use ring::rand::SecureRandom;
use sha3::Sha3_384;
use subtle::ConstantTimeEq;
use tiny_keccak::{Hasher, Kmac};
use zeroize::Zeroize;

verus! {

/// The 32 bytes that HKDF over SHA3-384, with no salt, expands from `ikm`
/// under the context label `info`.
pub uninterp spec fn hkdf_sha3_384_of(ikm: Seq<u8>, info: Seq<u8>) -> Seq<u8>;

/// The 32-byte KMAC256 tag of `message` under `key`, with an empty
/// customisation string.
pub uninterp spec fn kmac256_of(key: Seq<u8>, message: Seq<u8>) -> Seq<u8>;

/// AES-256-GCM encryption of `plaintext`: the ciphertext followed by the
/// 16-byte tag.
pub uninterp spec fn aes_gcm_seal_of(
    key: Seq<u8>,
    nonce: Seq<u8>,
    aad: Seq<u8>,
    plaintext: Seq<u8>,
) -> Seq<u8>;

/// AES-256-GCM decryption: the plaintext when `tag` authenticates
/// `ciphertext` and `aad`, `None` otherwise.
pub uninterp spec fn aes_gcm_open_of(
    key: Seq<u8>,
    nonce: Seq<u8>,
    aad: Seq<u8>,
    ciphertext: Seq<u8>,
    tag: Seq<u8>,
) -> Option<Seq<u8>>;

/// Argon2id (version 0x13, 64 MiB, 3 passes, 4 lanes) of `password` with
/// `salt`, 32 bytes long.
pub uninterp spec fn argon2id_of(password: Seq<u8>, salt: Seq<u8>) -> Seq<u8>;

/// Relies on zeroize's `Zeroize` for `[u8]`: every byte is set to zero with
/// volatile writes, and the length is kept.
#[verifier::external_body]
pub(crate) fn wipe_bytes(b: &mut Vec<u8>)
    ensures
        final(b)@ == Seq::new(old(b)@.len(), |_i: int| 0u8),
    opens_invariants none
    no_unwind
{
    b.as_mut_slice().zeroize();
}

/// Relies on the operating-system generator (`OsRng::try_fill_bytes` of
/// rand_core, as re-exported by aes-gcm): fills `buf` and reports whether the
/// generator answered. Nothing is known of the bytes.
#[verifier::external_body]
pub(crate) fn os_random_fill(buf: &mut [u8]) -> (ok: bool)
    ensures
        final(buf)@.len() == old(buf)@.len(),
{
    aes_gcm::aead::OsRng.try_fill_bytes(buf).is_ok()
}

/// Relies on ring's `SystemRandom::fill`: fills `buf` and reports whether the
/// generator answered. Nothing is known of the bytes.
#[verifier::external_body]
pub(crate) fn system_random_fill(buf: &mut [u8]) -> (ok: bool)
    ensures
        final(buf)@.len() == old(buf)@.len(),
{
    ring::rand::SystemRandom::new().fill(buf).is_ok()
}

/// Relies on hkdf's `Hkdf::<Sha3_384>::new(None, ikm)` and `expand`, which
/// fails only for outputs longer than 255 hash lengths; 32 bytes never do.
#[verifier::external_body]
pub(crate) fn hkdf_sha3_384_expand(ikm: &[u8], info: &[u8]) -> (r: Vec<u8>)
    ensures
        r@ == hkdf_sha3_384_of(ikm@, info@),
        r@.len() == 32,
{
    let mut okm = [0u8; 32];
    Hkdf::<Sha3_384>::new(None, ikm).expand(info, &mut okm).expect("32 bytes is a valid length");
    okm.to_vec()
}

/// Relies on tiny-keccak's `Kmac::v256(key, &[])`: absorbing `first` then
/// `second` is absorbing their concatenation; `finalize` writes 32 bytes.
#[verifier::external_body]
pub(crate) fn kmac256(key: &[u8], first: &[u8], second: &[u8]) -> (r: Vec<u8>)
    ensures
        r@ == kmac256_of(key@, first@ + second@),
        r@.len() == 32,
{
    let mut mac = Kmac::v256(key, &[]);
    mac.update(first);
    mac.update(second);
    let mut tag = [0u8; 32];
    mac.finalize(&mut tag);
    tag.to_vec()
}

/// Relies on subtle's `ConstantTimeEq` for slices: true exactly when both
/// have the same length and the same bytes.
#[verifier::external_body]
pub(crate) fn constant_time_eq(a: &[u8], b: &[u8]) -> (r: bool)
    ensures
        r == (a@ == b@),
{
    a.ct_eq(b).into()
}

/// Longest input that openssl's AEAD calls accept: they pass each length on
/// as a C `int` and panic above it.
pub const MAX_AEAD_INPUT: usize = 0x7fff_ffff;

/// Relies on openssl's `symm::encrypt_aead` with `Cipher::aes_256_gcm()`:
/// with a 32-byte key, a 12-byte nonce and inputs that fit a C `int`, only
/// an internal openssl failure (memory exhaustion) makes it return an error,
/// and that aborts here as an allocation failure would. The ciphertext is
/// as long as the plaintext, the tag is 16 bytes, and decrypting them with
/// the same key, nonce and AAD gives the plaintext back.
#[verifier::external_body]
pub(crate) fn aes_gcm_encrypt(key: &[u8], nonce: &[u8], aad: &[u8], plaintext: &[u8]) -> (r: (
    Vec<u8>,
    Vec<u8>,
))
    requires
        key@.len() == 32,
        nonce@.len() == 12,
        aad@.len() <= MAX_AEAD_INPUT,
        plaintext@.len() <= MAX_AEAD_INPUT,
    ensures
        r.0@ + r.1@ == aes_gcm_seal_of(key@, nonce@, aad@, plaintext@),
        r.0@.len() == plaintext@.len(),
        r.1@.len() == 16,
        aes_gcm_open_of(key@, nonce@, aad@, r.0@, r.1@) == Some(plaintext@),
{
    let mut tag = [0u8; 16];
    let c = encrypt_aead(Cipher::aes_256_gcm(), key, Some(nonce), aad, plaintext, &mut tag)
        .expect("AES-256-GCM accepts a 32-byte key, a 12-byte nonce and these lengths");
    (c, tag.to_vec())
}

/// Relies on openssl's `symm::decrypt_aead` with `Cipher::aes_256_gcm()`:
/// it returns the plaintext exactly when the tag verifies; that plaintext is
/// as long as the ciphertext, and encrypting it again gives the ciphertext
/// and the tag.
#[verifier::external_body]
pub(crate) fn aes_gcm_decrypt(
    key: &[u8],
    nonce: &[u8],
    aad: &[u8],
    ciphertext: &[u8],
    tag: &[u8],
) -> (r: Option<Vec<u8>>)
    requires
        key@.len() == 32,
        nonce@.len() == 12,
        tag@.len() == 16,
        aad@.len() <= MAX_AEAD_INPUT,
        ciphertext@.len() <= MAX_AEAD_INPUT,
    ensures
        r is Some <==> aes_gcm_open_of(key@, nonce@, aad@, ciphertext@, tag@) is Some,
        r matches Some(p) ==> {
            &&& aes_gcm_open_of(key@, nonce@, aad@, ciphertext@, tag@) == Some(p@)
            &&& p@.len() == ciphertext@.len()
            &&& aes_gcm_seal_of(key@, nonce@, aad@, p@) == ciphertext@ + tag@
        },
{
    decrypt_aead(Cipher::aes_256_gcm(), key, Some(nonce), aad, ciphertext, tag).ok()
}

/// Relies on argon2's `Argon2::hash_password_into` with Argon2id, version
/// 0x13 and `Params::new(65536, 3, 4, Some(32))`: its only refusals are a
/// password longer than `u32::MAX` bytes and a salt shorter than 8 or longer
/// than `u32::MAX` bytes, which are the `None` cases.
#[verifier::external_body]
pub(crate) fn argon2id_derive(password: &[u8], salt: &[u8]) -> (r: Option<Vec<u8>>)
    ensures
        r matches Some(k) ==> k@ == argon2id_of(password@, salt@) && k@.len() == 32,
        r is Some <==> (password@.len() <= 0xffff_ffff && 8 <= salt@.len() && salt@.len()
            <= 0xffff_ffff),
{
    let params = Params::new(65536, 3, 4, Some(32)).ok()?;
    let mut out = [0u8; 32];
    Argon2::new(Algorithm::Argon2id, Version::V0x13, params)
        .hash_password_into(password, salt, &mut out)
        .ok()?;
    Some(out.to_vec())
}

} // verus!
