use vstd::prelude::*;

use crate::bytes::zeroed;
use crate::crypto::os_random_fill;
use crate::dek::NONCE_LEN;
use crate::error::KmsError;
use crate::kek::{kek_inputs_fit, kek_opened, kek_sealed, open_dek, seal_dek, KEK_LEN};
use crate::secure_buf::SecureBuffer;

verus! {

/// First handle of the TPM persistent-object range handed out to KEKs.
pub const PERSISTENT_HANDLE_FIRST: u32 = 0x8100_0000;

/// Last handle of the TPM persistent-object range handed out to KEKs.
pub const PERSISTENT_HANDLE_LAST: u32 = 0x817F_FFFF;

/// How many random handles are tried before provisioning gives up.
pub const MAX_HANDLE_ATTEMPTS: usize = 64;

/// A provisioned key-encryption key as the service stores it.
pub struct StoredKEK {
    pub id: String,
    pub wrapped_kek: Vec<u8>,
    pub persistent_handle: u32,
    pub wrapped_priv_key: Vec<u8>,
    pub wrapped_pub_key: Vec<u8>,
}

/// A request to wrap a DEK under the key-encryption key `kek`.
pub struct WrapDEKRequest {
    pub dek: Vec<u8>,
    pub secret_name: String,
    pub kek: String,
}

/// A request to unwrap a DEK under the key-encryption key `kek`.
pub struct UnwrapDEKRequest {
    pub wrapped_dek: Vec<u8>,
    pub tag: Vec<u8>,
    pub nonce: Vec<u8>,
    pub secret_name: String,
    pub kek: String,
}

/// The answer to a wrap request.
pub struct WrapDEKResponse {
    pub wrapped_dek: Vec<u8>,
    pub nonce: Vec<u8>,
    pub tag: Vec<u8>,
}

/// The answer to an unwrap request.
pub struct UnwrapDEKResponse {
    pub unwrapped_dek: Vec<u8>,
}

/// The handle that a random draw stands for in the range `first..=last`.
pub open spec fn handle_candidate(first: u32, last: u32, draw: u32) -> int {
    first + draw as int % (last - first + 1)
}

/// Whether `v` holds `h`.
fn holds_handle(v: &Vec<u32>, h: u32) -> (r: bool)
    ensures
        r == v@.contains(h),
{
    let mut i: usize = 0;
    while i < v.len()
        invariant
            i <= v@.len(),
            forall|j: int| 0 <= j < i ==> v@[j] != h,
        decreases v@.len() - i,
    {
        if v[i] == h {
            return true;
        }
        i = i + 1;
    }
    false
}

/// Picks the handle of the first draw that is not occupied. Each draw stands
/// for one handle of `first..=last`; when every one of them is occupied the
/// result is `NoFreeHandle`.
pub fn select_free_handle(occupied: &Vec<u32>, first: u32, last: u32, draws: &Vec<u32>) -> (r:
    Result<u32, KmsError>)
    requires
        first <= last,
    ensures
        r matches Ok(h) ==> exists|i: int|
            0 <= i < draws@.len() && h == handle_candidate(first, last, #[trigger] draws@[i])
                && !occupied@.contains(h) && forall|j: int|
                0 <= j < i ==> occupied@.contains(
                    handle_candidate(first, last, #[trigger] draws@[j]) as u32,
                ),
        r matches Err(e) ==> e == KmsError::NoFreeHandle && forall|j: int|
            0 <= j < draws@.len() ==> occupied@.contains(
                handle_candidate(first, last, #[trigger] draws@[j]) as u32,
            ),
{
    let span: u64 = (last - first) as u64 + 1;
    let mut i: usize = 0;
    while i < draws.len()
        invariant
            first <= last,
            span == last - first + 1,
            i <= draws@.len(),
            forall|j: int|
                0 <= j < i ==> occupied@.contains(
                    handle_candidate(first, last, #[trigger] draws@[j]) as u32,
                ),
        decreases draws@.len() - i,
    {
        let offset: u64 = draws[i] as u64 % span;
        let candidate: u32 = (first as u64 + offset) as u32;
        assert(candidate == handle_candidate(first, last, draws@[i as int]));
        if !holds_handle(occupied, candidate) {
            return Ok(candidate);
        }
        i = i + 1;
    }
    Err(KmsError::NoFreeHandle)
}

/// Four bytes read as a little-endian `u32`.
fn u32_from_le(b0: u8, b1: u8, b2: u8, b3: u8) -> (r: u32)
    ensures
        r == b0 + 256 * b1 + 65536 * b2 + 16777216 * b3,
{
    let v: u64 = b0 as u64 + 256 * (b1 as u64) + 65536 * (b2 as u64) + 16777216 * (b3 as u64);
    v as u32
}

/// Picks a free persistent handle in `first..=last` uniformly among the
/// draws of the operating system's generator, trying at most
/// `MAX_HANDLE_ATTEMPTS` times.
pub fn allocate_persistent_handle(occupied: &Vec<u32>, first: u32, last: u32) -> (r: Result<
    u32,
    KmsError,
>)
    requires
        first <= last,
    ensures
        r matches Ok(h) ==> first <= h <= last && !occupied@.contains(h),
        r matches Err(e) ==> e == KmsError::NoFreeHandle || e == KmsError::Randomness,
        (forall|h: u32| first <= h <= last ==> occupied@.contains(h)) ==> r is Err,
{
    let mut bytes = zeroed(4 * MAX_HANDLE_ATTEMPTS);
    if !os_random_fill(bytes.as_mut_slice()) {
        return Err(KmsError::Randomness);
    }
    let mut draws: Vec<u32> = Vec::with_capacity(MAX_HANDLE_ATTEMPTS);
    let mut i: usize = 0;
    while i < MAX_HANDLE_ATTEMPTS
        invariant
            i <= MAX_HANDLE_ATTEMPTS,
            bytes@.len() == 4 * MAX_HANDLE_ATTEMPTS,
        decreases MAX_HANDLE_ATTEMPTS - i,
    {
        draws.push(
            u32_from_le(bytes[4 * i], bytes[4 * i + 1], bytes[4 * i + 2], bytes[4 * i + 3]),
        );
        i = i + 1;
    }
    let r = select_free_handle(occupied, first, last, &draws);
    if let Ok(h) = r {
        let ghost i = choose|i: int|
            0 <= i < draws@.len() && h == handle_candidate(first, last, #[trigger] draws@[i])
                && !occupied@.contains(h) && forall|j: int|
                0 <= j < i ==> occupied@.contains(
                    handle_candidate(first, last, #[trigger] draws@[j]) as u32,
                );
        assert(first <= handle_candidate(first, last, draws@[i]) <= last);
    }
    r
}

/// Wraps the DEK of `req` under the recovered key-encryption key `kek`.
pub fn wrap_with_kek(kek: &SecureBuffer, req: &WrapDEKRequest) -> (r: Result<
    WrapDEKResponse,
    KmsError,
>)
    ensures
        kek@.len() != KEK_LEN ==> r == Err::<WrapDEKResponse, KmsError>(KmsError::InvalidKey),
        kek@.len() == KEK_LEN && !kek_inputs_fit(req.dek@, req.secret_name@) ==> r == Err::<
            WrapDEKResponse,
            KmsError,
        >(KmsError::TooLarge),
        kek@.len() == KEK_LEN && kek_inputs_fit(req.dek@, req.secret_name@) ==> {
            &&& r matches Ok(resp) ==> resp.nonce@.len() == NONCE_LEN && kek_sealed(
                kek@,
                req.dek@,
                req.secret_name@,
                resp.nonce@,
                resp.wrapped_dek@,
                resp.nonce@,
                resp.tag@,
            )
            &&& r matches Err(e) ==> e == KmsError::Randomness
        },
{
    match seal_dek(kek.expose(), req.dek.as_slice(), req.secret_name.as_str()) {
        Ok((wrapped_dek, nonce, tag)) => Ok(WrapDEKResponse { wrapped_dek, nonce, tag }),
        Err(e) => Err(e),
    }
}

/// Unwraps the DEK of `req` under the recovered key-encryption key `kek`.
pub fn unwrap_with_kek(kek: &SecureBuffer, req: &UnwrapDEKRequest) -> (r: Result<
    UnwrapDEKResponse,
    KmsError,
>)
    ensures
        kek@.len() != KEK_LEN ==> r == Err::<UnwrapDEKResponse, KmsError>(KmsError::InvalidKey),
        kek@.len() == KEK_LEN && !kek_inputs_fit(req.wrapped_dek@, req.secret_name@) ==> r
            == Err::<UnwrapDEKResponse, KmsError>(KmsError::TooLarge),
        kek@.len() == KEK_LEN && kek_inputs_fit(req.wrapped_dek@, req.secret_name@) ==> {
            &&& r matches Ok(resp) ==> kek_opened(
                kek@,
                req.wrapped_dek@,
                req.nonce@,
                req.tag@,
                req.secret_name@,
            ) == Some(resp.unwrapped_dek@)
            &&& r matches Err(e) ==> e == KmsError::Authentication && kek_opened(
                kek@,
                req.wrapped_dek@,
                req.nonce@,
                req.tag@,
                req.secret_name@,
            ) is None
        },
{
    match open_dek(
        kek.expose(),
        req.wrapped_dek.as_slice(),
        req.nonce.as_slice(),
        req.tag.as_slice(),
        req.secret_name.as_str(),
    ) {
        Ok(unwrapped_dek) => Ok(UnwrapDEKResponse { unwrapped_dek }),
        Err(e) => Err(e),
    }
}

/// The liveness probe: always the HTTP status 200, and nothing is read or
/// changed, so repeated probes all answer the same.
pub fn status() -> (r: u16)
    ensures
        r == 200,
{
    200
}

} // verus!
