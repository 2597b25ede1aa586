use vstd::prelude::*;
use vstd::utf8::encode_utf8;

use crate::bytes::zeroed;
use crate::crypto::{
    aes_gcm_decrypt, aes_gcm_encrypt, aes_gcm_open_of, aes_gcm_seal_of, argon2id_derive,
    argon2id_of, os_random_fill, system_random_fill,
};
use crate::dek::{Dek, GCM_TAG_LEN, NONCE_LEN};
use crate::error::KmsError;
use crate::secure_buf::{SecureBuffer, MAX_SECURE_LEN};

verus! {

/// Length in bytes of a key-encryption key.
pub const KEK_LEN: usize = 32;

/// Length in bytes of the random salt used when deriving a key-encryption key.
pub const KEK_SALT_LEN: usize = 16;

/// The additional authenticated data that binds a wrapped DEK to its secret.
pub open spec fn secret_aad(name: Seq<char>) -> Seq<u8> {
    encode_utf8("secret:"@ + name)
}

/// `(wrapped, nonce_out, tag)` is `dek` wrapped under `kek` for `name` with
/// `nonce`, by AES-256-GCM.
pub open spec fn kek_sealed(
    kek: Seq<u8>,
    dek: Seq<u8>,
    name: Seq<char>,
    nonce: Seq<u8>,
    wrapped: Seq<u8>,
    nonce_out: Seq<u8>,
    tag: Seq<u8>,
) -> bool {
    &&& nonce_out == nonce
    &&& wrapped + tag == aes_gcm_seal_of(kek, nonce, secret_aad(name), dek)
    &&& wrapped.len() == dek.len()
    &&& tag.len() == GCM_TAG_LEN
    &&& aes_gcm_open_of(kek, nonce, secret_aad(name), wrapped, tag) == Some(dek)
}

/// What unwrapping a wrapped DEK gives: the DEK when the key, nonce and tag
/// have their lengths and AES-GCM authenticates, `None` otherwise.
pub open spec fn kek_opened(
    kek: Seq<u8>,
    wrapped: Seq<u8>,
    nonce: Seq<u8>,
    tag: Seq<u8>,
    name: Seq<char>,
) -> Option<Seq<u8>> {
    if kek.len() == KEK_LEN && nonce.len() == NONCE_LEN && tag.len() == GCM_TAG_LEN {
        aes_gcm_open_of(kek, nonce, secret_aad(name), wrapped, tag)
    } else {
        None
    }
}

/// A DEK wrapped under a key for a secret name unwraps, under the same key
/// and the same name, to that DEK.
pub proof fn lemma_kek_wrap_unwrap_round_trip(
    kek: Seq<u8>,
    dek: Seq<u8>,
    name: Seq<char>,
    nonce: Seq<u8>,
    wrapped: Seq<u8>,
    tag: Seq<u8>,
)
    requires
        kek.len() == KEK_LEN,
        nonce.len() == NONCE_LEN,
        kek_sealed(kek, dek, name, nonce, wrapped, nonce, tag),
    ensures
        kek_opened(kek, wrapped, nonce, tag, name) == Some(dek),
{
}

/// The bytes of `secret:<name>`.
fn secret_aad_bytes(name: &str) -> (r: Vec<u8>)
    ensures
        r@ == secret_aad(name@),
{
    let mut s = String::from_str("secret:");
    s.append(name);
    s.as_str().as_bytes_vec()
}

/// `dek` and the AAD for `name` are short enough for the cipher.
pub open spec fn kek_inputs_fit(dek: Seq<u8>, name: Seq<char>) -> bool {
    dek.len() <= MAX_SECURE_LEN && secret_aad(name).len() <= MAX_SECURE_LEN
}

/// Wraps `dek` under `kek` for `name` with the given nonce.
pub fn seal_dek_with_nonce(kek: &[u8], dek: &[u8], name: &str, nonce: &[u8]) -> (r: Result<
    (Vec<u8>, Vec<u8>, Vec<u8>),
    KmsError,
>)
    requires
        nonce@.len() == NONCE_LEN,
    ensures
        kek@.len() != KEK_LEN ==> r == Err::<(Vec<u8>, Vec<u8>, Vec<u8>), KmsError>(KmsError::InvalidKey),
        kek@.len() == KEK_LEN && !kek_inputs_fit(dek@, name@) ==> r == Err::<(Vec<u8>, Vec<u8>, Vec<u8>), KmsError>(
            KmsError::TooLarge,
        ),
        kek@.len() == KEK_LEN && kek_inputs_fit(dek@, name@) ==> (r matches Ok((w, n, t))
            && kek_sealed(kek@, dek@, name@, nonce@, w@, n@, t@)),
{
    if kek.len() != KEK_LEN {
        return Err(KmsError::InvalidKey);
    }
    let aad = secret_aad_bytes(name);
    if dek.len() > MAX_SECURE_LEN || aad.len() > MAX_SECURE_LEN {
        return Err(KmsError::TooLarge);
    }
    let (wrapped, tag) = aes_gcm_encrypt(kek, nonce, aad.as_slice(), dek);
    Ok((wrapped, vstd::slice::slice_to_vec(nonce), tag))
}

/// Wraps `dek` under `kek` for `name` with a freshly drawn nonce.
pub fn seal_dek(kek: &[u8], dek: &[u8], name: &str) -> (r: Result<
    (Vec<u8>, Vec<u8>, Vec<u8>),
    KmsError,
>)
    ensures
        kek@.len() != KEK_LEN ==> r == Err::<(Vec<u8>, Vec<u8>, Vec<u8>), KmsError>(KmsError::InvalidKey),
        kek@.len() == KEK_LEN && !kek_inputs_fit(dek@, name@) ==> r == Err::<(Vec<u8>, Vec<u8>, Vec<u8>), KmsError>(
            KmsError::TooLarge,
        ),
        kek@.len() == KEK_LEN && kek_inputs_fit(dek@, name@) ==> {
            &&& r matches Ok((w, n, t)) ==> n@.len() == NONCE_LEN && kek_sealed(
                kek@,
                dek@,
                name@,
                n@,
                w@,
                n@,
                t@,
            )
            &&& r matches Err(e) ==> e == KmsError::Randomness
        },
{
    if kek.len() != KEK_LEN {
        return Err(KmsError::InvalidKey);
    }
    let aad = secret_aad_bytes(name);
    if dek.len() > MAX_SECURE_LEN || aad.len() > MAX_SECURE_LEN {
        return Err(KmsError::TooLarge);
    }
    let mut nonce = zeroed(NONCE_LEN);
    if !system_random_fill(nonce.as_mut_slice()) {
        return Err(KmsError::Randomness);
    }
    seal_dek_with_nonce(kek, dek, name, nonce.as_slice())
}

/// Unwraps a DEK wrapped under `kek` for `name`.
pub fn open_dek(kek: &[u8], wrapped: &[u8], nonce: &[u8], tag: &[u8], name: &str) -> (r: Result<
    Vec<u8>,
    KmsError,
>)
    ensures
        kek@.len() != KEK_LEN ==> r == Err::<Vec<u8>, KmsError>(KmsError::InvalidKey),
        kek@.len() == KEK_LEN && !kek_inputs_fit(wrapped@, name@) ==> r == Err::<
            Vec<u8>,
            KmsError,
        >(KmsError::TooLarge),
        kek@.len() == KEK_LEN && kek_inputs_fit(wrapped@, name@) ==> {
            &&& r matches Ok(d) ==> kek_opened(kek@, wrapped@, nonce@, tag@, name@) == Some(d@)
                && d@.len() == wrapped@.len()
            &&& r matches Err(e) ==> e == KmsError::Authentication && kek_opened(
                kek@,
                wrapped@,
                nonce@,
                tag@,
                name@,
            ) is None
        },
{
    if kek.len() != KEK_LEN {
        return Err(KmsError::InvalidKey);
    }
    let aad = secret_aad_bytes(name);
    if wrapped.len() > MAX_SECURE_LEN || aad.len() > MAX_SECURE_LEN {
        return Err(KmsError::TooLarge);
    }
    if nonce.len() != NONCE_LEN || tag.len() != GCM_TAG_LEN {
        return Err(KmsError::Authentication);
    }
    match aes_gcm_decrypt(kek, nonce, aad.as_slice(), wrapped, tag) {
        Some(d) => Ok(d),
        None => Err(KmsError::Authentication),
    }
}

/// Whether Argon2id accepts `passphrase` and `salt` as inputs.
pub open spec fn argon2_accepts(passphrase: Seq<u8>, salt: Seq<u8>) -> bool {
    passphrase.len() <= 0xffff_ffff && 8 <= salt.len() && salt.len() <= 0xffff_ffff
}

/// Derives a key-encryption key from `passphrase` and `salt` by Argon2id.
pub fn derive_kek_with_salt(passphrase: &[u8], salt: &[u8]) -> (r: Result<SecureBuffer, KmsError>)
    ensures
        r matches Ok(k) ==> k@ == argon2id_of(passphrase@, salt@) && k@.len() == KEK_LEN,
        r is Ok <==> argon2_accepts(passphrase@, salt@),
        r matches Err(e) ==> e == KmsError::DerivationInput,
{
    match argon2id_derive(passphrase, salt) {
        Some(k) => match SecureBuffer::from_slice(k.as_slice()) {
            Ok(b) => Ok(b),
            Err(_) => Err(KmsError::DerivationInput),
        },
        None => Err(KmsError::DerivationInput),
    }
}

/// Derives a key-encryption key from `passphrase` under a fresh random salt.
/// A passphrase longer than Argon2id accepts is refused before any draw.
pub fn derive_kek(passphrase: &[u8]) -> (r: Result<SecureBuffer, KmsError>)
    ensures
        r matches Ok(k) ==> k@.len() == KEK_LEN && exists|salt: Seq<u8>|
            salt.len() == KEK_SALT_LEN && k@ == #[trigger] argon2id_of(passphrase@, salt),
        passphrase@.len() > 0xffff_ffff ==> r == Err::<SecureBuffer, KmsError>(KmsError::DerivationInput),
        passphrase@.len() <= 0xffff_ffff ==> (r matches Err(e) ==> e == KmsError::Randomness),
{
    if passphrase.len() as u64 > 0xffff_ffff {
        return Err(KmsError::DerivationInput);
    }
    let mut salt = zeroed(KEK_SALT_LEN);
    if !os_random_fill(salt.as_mut_slice()) {
        return Err(KmsError::Randomness);
    }
    derive_kek_with_salt(passphrase, salt.as_slice())
}

/// The operations every key-encryption-key provider offers.
pub trait KekProvider {
    /// Wraps a DEK for the secret `secret_name`; the DEK is consumed.
    fn wrap_dek(&self, dek: Dek, secret_name: &str) -> Result<(Vec<u8>, Vec<u8>, Vec<u8>), KmsError>;

    /// Unwraps a DEK that was wrapped for `secret_name`.
    fn unwrap_dek(&self, dek: &[u8], nonce: &[u8], tag: &[u8], secret_name: &str) -> Result<
        SecureBuffer,
        KmsError,
    >;

    /// Provisions a new key-encryption key and returns its identifier.
    fn init_new_kek(&self) -> Result<String, KmsError>;
}

/// A provider whose key-encryption key lives in process memory. Meant for
/// testing only: the key is as safe as the host's storage.
pub struct FileSystemKEKProvider {
    kek: SecureBuffer,
}

impl View for FileSystemKEKProvider {
    type V = Seq<u8>;

    closed spec fn view(&self) -> Seq<u8> {
        self.kek@
    }
}

impl FileSystemKEKProvider {
    /// A provider over a key that was stored earlier.
    pub fn from_key(kek: SecureBuffer) -> (r: FileSystemKEKProvider)
        ensures
            r@ == kek@,
    {
        FileSystemKEKProvider { kek }
    }

    /// A provider over a key derived from `passphrase` under a fresh salt.
    pub fn init(passphrase: &[u8]) -> (r: Result<FileSystemKEKProvider, KmsError>)
        ensures
            r matches Ok(p) ==> p@.len() == KEK_LEN && exists|salt: Seq<u8>|
                salt.len() == KEK_SALT_LEN && p@ == #[trigger] argon2id_of(passphrase@, salt),
            passphrase@.len() > 0xffff_ffff ==> r is Err && (r matches Err(e) ==> e
                == KmsError::DerivationInput),
            passphrase@.len() <= 0xffff_ffff ==> (r matches Err(e) ==> e == KmsError::Randomness),
    {
        match derive_kek(passphrase) {
            Ok(kek) => Ok(FileSystemKEKProvider { kek }),
            Err(e) => Err(e),
        }
    }

    /// The key bytes, for storing the key between runs.
    pub fn expose(&self) -> (r: &[u8])
        ensures
            r@ == self@,
    {
        self.kek.expose()
    }

    /// Wraps `dek` for `secret_name` under this provider's key.
    pub fn wrap_dek(&self, dek: Dek, secret_name: &str) -> (r: Result<
        (Vec<u8>, Vec<u8>, Vec<u8>),
        KmsError,
    >)
        ensures
            self@.len() != KEK_LEN ==> r == Err::<(Vec<u8>, Vec<u8>, Vec<u8>), KmsError>(KmsError::InvalidKey),
            self@.len() == KEK_LEN && secret_aad(secret_name@).len() > MAX_SECURE_LEN ==> r
                == Err::<(Vec<u8>, Vec<u8>, Vec<u8>), KmsError>(KmsError::TooLarge),
            self@.len() == KEK_LEN && secret_aad(secret_name@).len() <= MAX_SECURE_LEN ==> {
                &&& r matches Ok((w, n, t)) ==> {
                    &&& self@.len() == KEK_LEN
                    &&& dek@.len() <= MAX_SECURE_LEN
                    &&& n@.len() == NONCE_LEN
                    &&& kek_sealed(self@, dek@, secret_name@, n@, w@, n@, t@)
                }
                &&& r matches Err(e) ==> e == KmsError::Randomness
            },
    {
        seal_dek(self.kek.expose(), dek.expose(), secret_name)
    }

    /// Unwraps a DEK wrapped for `secret_name` under this provider's key.
    pub fn unwrap_dek(&self, dek: &[u8], nonce: &[u8], tag: &[u8], secret_name: &str) -> (r:
        Result<SecureBuffer, KmsError>)
        ensures
            self@.len() != KEK_LEN ==> r == Err::<SecureBuffer, KmsError>(KmsError::InvalidKey),
            self@.len() == KEK_LEN && !kek_inputs_fit(dek@, secret_name@) ==> r == Err::<
                SecureBuffer,
                KmsError,
            >(KmsError::TooLarge),
            self@.len() == KEK_LEN && kek_inputs_fit(dek@, secret_name@) ==> {
                &&& r matches Ok(d) ==> kek_opened(self@, dek@, nonce@, tag@, secret_name@) == Some(
                    d@,
                )
                &&& r matches Err(e) ==> e == KmsError::Authentication && kek_opened(
                    self@,
                    dek@,
                    nonce@,
                    tag@,
                    secret_name@,
                ) is None
            },
    {
        let d = match open_dek(self.kek.expose(), dek, nonce, tag, secret_name) {
            Ok(d) => d,
            Err(e) => return Err(e),
        };
        SecureBuffer::from_slice(d.as_slice())
    }
}

impl KekProvider for FileSystemKEKProvider {
    fn wrap_dek(&self, dek: Dek, secret_name: &str) -> Result<(Vec<u8>, Vec<u8>, Vec<u8>), KmsError> {
        FileSystemKEKProvider::wrap_dek(self, dek, secret_name)
    }

    fn unwrap_dek(&self, dek: &[u8], nonce: &[u8], tag: &[u8], secret_name: &str) -> Result<
        SecureBuffer,
        KmsError,
    > {
        FileSystemKEKProvider::unwrap_dek(self, dek, nonce, tag, secret_name)
    }

    fn init_new_kek(&self) -> Result<String, KmsError> {
        Err(KmsError::Unsupported)
    }
}

} // verus!
