use vstd::prelude::*;
use vstd::string::StringSliceAdditionalSpecFns;
use vstd::utf8::encode_utf8;

use vstd::slice::slice_to_vec;

use crate::bytes::zeroed;
use crate::crypto::{
    aes_gcm_decrypt, aes_gcm_encrypt, aes_gcm_open_of, aes_gcm_seal_of, constant_time_eq,
    hkdf_sha3_384_expand, hkdf_sha3_384_of, kmac256, kmac256_of, os_random_fill,
    system_random_fill, wipe_bytes,
};
use crate::error::KmsError;
use crate::secure_buf::{SecureBuffer, MAX_SECURE_LEN};

verus! {

/// Length in bytes of a data-encryption key.
pub const DEK_LEN: usize = 32;

/// Length in bytes of an AES-GCM nonce.
pub const NONCE_LEN: usize = 12;

/// Length in bytes of an AES-GCM tag.
pub const GCM_TAG_LEN: usize = 16;

/// Length in bytes of a KMAC256 tag.
pub const KMAC_TAG_LEN: usize = 32;

/// The additional authenticated data that binds a sealed payload to `name`.
pub open spec fn data_aad(name: Seq<char>) -> Seq<u8> {
    encode_utf8("name="@ + name)
}

/// The AES-256-GCM key derived from a data-encryption key.
pub open spec fn aead_key_of(dek: Seq<u8>) -> Seq<u8> {
    hkdf_sha3_384_of(dek, "AES-256-GCM".spec_bytes())
}

/// The KMAC256 key derived from a data-encryption key.
pub open spec fn mac_key_of(dek: Seq<u8>) -> Seq<u8> {
    hkdf_sha3_384_of(dek, "KMAC-256".spec_bytes())
}

/// A payload sealed under a data-encryption key.
pub struct DekWrapDataResult {
    pub data: Vec<u8>,
    pub gcm_tag: Vec<u8>,
    pub kmac_tag: Vec<u8>,
    pub nonce: Vec<u8>,
}

/// `r` is `plaintext` sealed under `dek` for `name` with `nonce`: AES-256-GCM
/// under the derived AEAD key, then KMAC256 over ciphertext and AAD under the
/// derived MAC key.
pub open spec fn sealed_under(
    dek: Seq<u8>,
    plaintext: Seq<u8>,
    name: Seq<char>,
    nonce: Seq<u8>,
    r: DekWrapDataResult,
) -> bool {
    let aad = data_aad(name);
    &&& r.nonce@ == nonce
    &&& r.data@ + r.gcm_tag@ == aes_gcm_seal_of(aead_key_of(dek), nonce, aad, plaintext)
    &&& r.data@.len() == plaintext.len()
    &&& r.gcm_tag@.len() == GCM_TAG_LEN
    &&& r.kmac_tag@ == kmac256_of(mac_key_of(dek), r.data@ + aad)
    &&& r.kmac_tag@.len() == KMAC_TAG_LEN
    &&& aes_gcm_open_of(aead_key_of(dek), nonce, aad, r.data@, r.gcm_tag@) == Some(plaintext)
}

/// What opening a sealed payload gives: the plaintext when the KMAC tag
/// matches and then AES-GCM authenticates, `None` otherwise.
pub open spec fn opened_from(
    dek: Seq<u8>,
    data: Seq<u8>,
    kmac_tag: Seq<u8>,
    name: Seq<char>,
    nonce: Seq<u8>,
    gcm_tag: Seq<u8>,
) -> Option<Seq<u8>> {
    let aad = data_aad(name);
    if kmac_tag == kmac256_of(mac_key_of(dek), data + aad) && nonce.len() == NONCE_LEN
        && gcm_tag.len() == GCM_TAG_LEN {
        aes_gcm_open_of(aead_key_of(dek), nonce, aad, data, gcm_tag)
    } else {
        None
    }
}

/// A payload sealed under a key for a name opens, under the same key and
/// the same name, to that payload.
pub proof fn lemma_seal_open_round_trip(
    dek: Seq<u8>,
    plaintext: Seq<u8>,
    name: Seq<char>,
    nonce: Seq<u8>,
    w: DekWrapDataResult,
)
    requires
        nonce.len() == NONCE_LEN,
        sealed_under(dek, plaintext, name, nonce, w),
    ensures
        opened_from(dek, w.data@, w.kmac_tag@, name, w.nonce@, w.gcm_tag@) == Some(plaintext),
{
}

/// A sealed payload presented with any KMAC tag other than its own is
/// rejected: opening it gives nothing, whatever the ciphertext would decrypt to.
pub proof fn lemma_forged_kmac_tag_rejected(
    dek: Seq<u8>,
    plaintext: Seq<u8>,
    name: Seq<char>,
    nonce: Seq<u8>,
    w: DekWrapDataResult,
    forged_tag: Seq<u8>,
)
    requires
        sealed_under(dek, plaintext, name, nonce, w),
        forged_tag != w.kmac_tag@,
    ensures
        opened_from(dek, w.data@, forged_tag, name, w.nonce@, w.gcm_tag@) is None,
{
}

/// Opening succeeds only when the KMAC tag is the one computed over the
/// ciphertext and the name, and AES-GCM then authenticates the ciphertext.
pub proof fn lemma_open_requires_both_tags(
    dek: Seq<u8>,
    data: Seq<u8>,
    kmac_tag: Seq<u8>,
    name: Seq<char>,
    nonce: Seq<u8>,
    gcm_tag: Seq<u8>,
)
    requires
        opened_from(dek, data, kmac_tag, name, nonce, gcm_tag) is Some,
    ensures
        kmac_tag == kmac256_of(mac_key_of(dek), data + data_aad(name)),
        aes_gcm_open_of(aead_key_of(dek), nonce, data_aad(name), data, gcm_tag) == opened_from(
            dek,
            data,
            kmac_tag,
            name,
            nonce,
            gcm_tag,
        ),
{
}

/// A data-encryption key, held in a secure buffer.
pub struct Dek {
    key: SecureBuffer,
}

impl View for Dek {
    type V = Seq<u8>;

    closed spec fn view(&self) -> Seq<u8> {
        self.key@
    }
}

/// The bytes of `name=<name>`.
fn name_aad(name: &str) -> (r: Vec<u8>)
    ensures
        r@ == data_aad(name@),
{
    let mut s = String::from_str("name=");
    s.append(name);
    s.as_str().as_bytes_vec()
}

impl Dek {
    /// A fresh key of 32 bytes from the operating system's generator.
    pub fn init() -> (r: Result<Dek, KmsError>)
        ensures
            r matches Ok(d) ==> d@.len() == DEK_LEN,
            r matches Err(e) ==> e == KmsError::Randomness,
    {
        let mut bytes = zeroed(DEK_LEN);
        let drawn = os_random_fill(bytes.as_mut_slice());
        let key = SecureBuffer::from_slice(bytes.as_slice());
        wipe_bytes(&mut bytes);
        if !drawn {
            return Err(KmsError::Randomness);
        }
        let key = match key {
            Ok(b) => b,
            Err(_) => return Err(KmsError::Allocation),
        };
        Ok(Dek { key })
    }

    /// The key bytes.
    pub fn expose(&self) -> (r: &[u8])
        ensures
            r@ == self@,
            r@.len() <= MAX_SECURE_LEN,
    {
        self.key.expose()
    }

    /// The AES-256-GCM key and the KMAC256 key derived from this key.
    fn sub_keys(&self) -> (r: (Vec<u8>, Vec<u8>))
        ensures
            r.0@ == aead_key_of(self@),
            r.1@ == mac_key_of(self@),
            r.0@.len() == 32,
    {
        let dek = self.key.expose();
        let aes_key = hkdf_sha3_384_expand(dek, "AES-256-GCM".as_bytes());
        let kmac_key = hkdf_sha3_384_expand(dek, "KMAC-256".as_bytes());
        (aes_key, kmac_key)
    }

    /// Seals `data` for `name` with the given nonce. A name whose AAD is
    /// longer than `MAX_SECURE_LEN` bytes is refused as too large.
    pub fn wrap_data_with_nonce(&self, data: &SecureBuffer, name: &str, nonce: &[u8]) -> (r:
        Result<DekWrapDataResult, KmsError>)
        requires
            nonce@.len() == NONCE_LEN,
        ensures
            data_aad(name@).len() <= MAX_SECURE_LEN ==> (r matches Ok(w) && sealed_under(
                self@,
                data@,
                name@,
                nonce@,
                w,
            )),
            data_aad(name@).len() > MAX_SECURE_LEN ==> r == Err::<DekWrapDataResult, KmsError>(
                KmsError::TooLarge,
            ),
    {
        let aad = name_aad(name);
        if aad.len() > MAX_SECURE_LEN {
            return Err(KmsError::TooLarge);
        }
        let (aes_key, kmac_key) = self.sub_keys();
        let (ciphertext, gcm_tag) = aes_gcm_encrypt(
            aes_key.as_slice(),
            nonce,
            aad.as_slice(),
            data.expose(),
        );
        let kmac_tag = kmac256(kmac_key.as_slice(), ciphertext.as_slice(), aad.as_slice());
        Ok(DekWrapDataResult { data: ciphertext, gcm_tag, kmac_tag, nonce: slice_to_vec(nonce) })
    }

    /// Seals `data` for `name` under a freshly drawn nonce. The plaintext
    /// buffer is consumed and wiped.
    pub fn wrap_data(&self, data: SecureBuffer, name: String) -> (r: Result<
        DekWrapDataResult,
        KmsError,
    >)
        ensures
            r matches Ok(w) ==> w.nonce@.len() == NONCE_LEN && sealed_under(
                self@,
                data@,
                name@,
                w.nonce@,
                w,
            ),
            data_aad(name@).len() > MAX_SECURE_LEN ==> r == Err::<DekWrapDataResult, KmsError>(
                KmsError::TooLarge,
            ),
            data_aad(name@).len() <= MAX_SECURE_LEN ==> (r matches Err(e) ==> e
                == KmsError::Randomness),
    {
        let aad = name_aad(name.as_str());
        if aad.len() > MAX_SECURE_LEN {
            return Err(KmsError::TooLarge);
        }
        let mut nonce = zeroed(NONCE_LEN);
        if !system_random_fill(nonce.as_mut_slice()) {
            return Err(KmsError::Randomness);
        }
        self.wrap_data_with_nonce(&data, name.as_str(), nonce.as_slice())
    }

    /// Opens a sealed payload. Inputs longer than `MAX_SECURE_LEN` bytes are
    /// refused as too large; otherwise the KMAC tag is compared in constant
    /// time first, and decryption is attempted only when it matches.
    pub fn unwrap_data(
        &self,
        data: Vec<u8>,
        kmac_tag: Vec<u8>,
        name: &str,
        nonce: Vec<u8>,
        gcm_tag: Vec<u8>,
    ) -> (r: Result<SecureBuffer, KmsError>)
        ensures
            data@.len() > MAX_SECURE_LEN || data_aad(name@).len() > MAX_SECURE_LEN ==> r
                == Err::<SecureBuffer, KmsError>(KmsError::TooLarge),
            data@.len() <= MAX_SECURE_LEN && data_aad(name@).len() <= MAX_SECURE_LEN ==> {
                &&& r matches Ok(p) ==> {
                    &&& opened_from(self@, data@, kmac_tag@, name@, nonce@, gcm_tag@) == Some(p@)
                    &&& p@.len() == data@.len()
                    &&& aes_gcm_seal_of(aead_key_of(self@), nonce@, data_aad(name@), p@) == data@
                        + gcm_tag@
                }
                &&& r matches Err(e) ==> e == KmsError::Authentication && opened_from(
                    self@,
                    data@,
                    kmac_tag@,
                    name@,
                    nonce@,
                    gcm_tag@,
                ) is None
                &&& kmac_tag@.len() != KMAC_TAG_LEN ==> r == Err::<SecureBuffer, KmsError>(
                    KmsError::Authentication,
                )
            },
    {
        let aad = name_aad(name);
        if data.len() > MAX_SECURE_LEN || aad.len() > MAX_SECURE_LEN {
            return Err(KmsError::TooLarge);
        }
        let (aes_key, kmac_key) = self.sub_keys();
        let expected = kmac256(kmac_key.as_slice(), data.as_slice(), aad.as_slice());
        if !constant_time_eq(kmac_tag.as_slice(), expected.as_slice()) {
            return Err(KmsError::Authentication);
        }
        if nonce.len() != NONCE_LEN || gcm_tag.len() != GCM_TAG_LEN {
            return Err(KmsError::Authentication);
        }
        let plaintext = match aes_gcm_decrypt(
            aes_key.as_slice(),
            nonce.as_slice(),
            aad.as_slice(),
            data.as_slice(),
            gcm_tag.as_slice(),
        ) {
            Some(p) => p,
            None => return Err(KmsError::Authentication),
        };
        match SecureBuffer::from_slice(plaintext.as_slice()) {
            Ok(b) => Ok(b),
            Err(_) => Err(KmsError::Allocation),
        }
    }
}

impl From<SecureBuffer> for Dek {
    fn from(value: SecureBuffer) -> (r: Dek) {
        Dek { key: value }
    }
}

impl vstd::std_specs::convert::FromSpecImpl<SecureBuffer> for Dek {
    open spec fn obeys_from_spec() -> bool {
        true
    }

    closed spec fn from_spec(v: SecureBuffer) -> Dek {
        Dek { key: v }
    }
}

} // verus!
