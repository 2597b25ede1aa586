use vstd::prelude::*;

use crate::dek::{data_aad, opened_from, sealed_under, Dek, DekWrapDataResult, DEK_LEN, NONCE_LEN};
use crate::error::KmsError;
use crate::kek::KekProvider;
use crate::secure_buf::{SecureBuffer, MAX_SECURE_LEN};

verus! {

/// A key-value secret as a caller hands it in.
pub struct KvStoreStoreData {
    pub name: String,
    pub value: Vec<u8>,
}

/// A DEK as the KEK provider wrapped it.
pub struct KvStoreReturnDek {
    pub nonce: Vec<u8>,
    pub tag: Vec<u8>,
    pub data: Vec<u8>,
}

/// A sealed key-value secret together with its wrapped DEK.
pub struct KvStoreReturn {
    pub dek: KvStoreReturnDek,
    pub gcm_tag: Vec<u8>,
    pub kmac_tag: Vec<u8>,
    pub nonce: Vec<u8>,
    pub data: Vec<u8>,
}

/// What a store lists of a secret.
pub struct RetrievedSecretData {
    pub id: String,
    pub name: String,
}

/// The fields a store asks its users to fill in.
pub struct StoreUiRequirements {
    pub name: bool,
    pub description: bool,
    pub secret_type: bool,
}

/// The payload part of `r` is `value` sealed under `dek` for `name`.
pub open spec fn secret_sealed(dek: Seq<u8>, value: Seq<u8>, name: Seq<char>, r: KvStoreReturn) -> bool {
    sealed_under(
        dek,
        value,
        name,
        r.nonce@,
        DekWrapDataResult {
            data: r.data,
            gcm_tag: r.gcm_tag,
            kmac_tag: r.kmac_tag,
            nonce: r.nonce,
        },
    )
}

/// The key-value secret store.
pub struct KvStore {}

impl KvStore {
    /// A new store.
    pub fn init() -> (r: KvStore) {
        KvStore {}
    }

    /// The fields this store asks for.
    pub fn ui_reqs(&self) -> (r: StoreUiRequirements)
        ensures
            r.name && r.description && !r.secret_type,
    {
        StoreUiRequirements { name: true, description: true, secret_type: false }
    }

    /// Seals `data.value` under a fresh DEK bound to `data.name`, then has
    /// `kek_provider` wrap that DEK; the DEK is consumed by the provider.
    pub fn store<P: KekProvider>(&self, kek_provider: &P, data: KvStoreStoreData) -> (r: Result<
        KvStoreReturn,
        KmsError,
    >)
        ensures
            r matches Ok(ret) ==> ret.nonce@.len() == NONCE_LEN && exists|k: Seq<u8>|
                k.len() == DEK_LEN && #[trigger] secret_sealed(k, data.value@, data.name@, ret),
            data.value@.len() > MAX_SECURE_LEN ==> r == Err::<KvStoreReturn, KmsError>(
                KmsError::Allocation,
            ),
            data_aad(data.name@).len() > MAX_SECURE_LEN ==> r is Err,
    {
        let sec_data = match SecureBuffer::from_slice(data.value.as_slice()) {
            Ok(b) => b,
            Err(e) => return Err(e),
        };
        let dek = match Dek::init() {
            Ok(d) => d,
            Err(e) => return Err(e),
        };
        let encrypted = match dek.wrap_data(sec_data, data.name.clone()) {
            Ok(w) => w,
            Err(e) => return Err(e),
        };
        let ghost key = dek@;
        let (wrapped, nonce, tag) = match kek_provider.wrap_dek(dek, data.name.as_str()) {
            Ok(w) => w,
            Err(e) => return Err(e),
        };
        let ret = KvStoreReturn {
            dek: KvStoreReturnDek { nonce, tag, data: wrapped },
            gcm_tag: encrypted.gcm_tag,
            kmac_tag: encrypted.kmac_tag,
            nonce: encrypted.nonce,
            data: encrypted.data,
        };
        let r = Ok(ret);
        assert(r matches Ok(ret) ==> secret_sealed(key, data.value@, data.name@, ret));
        r
    }

    /// Has `kek_provider` unwrap the DEK of `record`, then opens the payload
    /// for `name` under it.
    pub fn retrieve<P: KekProvider>(&self, kek_provider: &P, record: &KvStoreReturn, name: &str) -> (r:
        Result<SecureBuffer, KmsError>)
        ensures
            r matches Ok(p) ==> exists|k: Seq<u8>|
                #[trigger] opened_from(
                    k,
                    record.data@,
                    record.kmac_tag@,
                    name@,
                    record.nonce@,
                    record.gcm_tag@,
                ) == Some(p@),
    {
        let key = match kek_provider.unwrap_dek(
            record.dek.data.as_slice(),
            record.dek.nonce.as_slice(),
            record.dek.tag.as_slice(),
            name,
        ) {
            Ok(k) => k,
            Err(e) => return Err(e),
        };
        let dek = Dek::from(key);
        let r = dek.unwrap_data(
            record.data.clone(),
            record.kmac_tag.clone(),
            name,
            record.nonce.clone(),
            record.gcm_tag.clone(),
        );
        r
    }
}

} // verus!
