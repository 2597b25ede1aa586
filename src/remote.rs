use vstd::prelude::*;

use crate::dek::{GCM_TAG_LEN, NONCE_LEN};
use crate::error::KmsError;
use crate::secure_buf::{SecureBuffer, MAX_SECURE_LEN};

verus! {

/// The KEK service's answer to a provisioning request.
pub struct InitKekResponse {
    pub id: String,
}

/// The KEK service's answer to a wrap request, as received.
pub struct WrapDekResponse {
    pub wrapped_dek: Vec<u8>,
    pub nonce: Vec<u8>,
    pub tag: Vec<u8>,
}

/// The KEK service's answer to an unwrap request, as received.
pub struct UnwrapDekResponse {
    pub unwrapped_dek: Vec<u8>,
}

/// Whether an HTTP status code reports success.
pub open spec fn is_success(status: u16) -> bool {
    200 <= status <= 299
}

/// Turns the service's reply to a wrap request into the wrapped DEK, its
/// nonce and its tag. Anything but a success carrying a 12-byte nonce and a
/// 16-byte tag is a provider error.
pub fn wrap_reply(status: u16, reply: Option<WrapDekResponse>) -> (r: Result<
    (Vec<u8>, Vec<u8>, Vec<u8>),
    KmsError,
>)
    ensures
        r matches Ok((w, n, t)) ==> {
            &&& is_success(status)
            &&& reply is Some
            &&& w@ == reply->Some_0.wrapped_dek@
            &&& n@ == reply->Some_0.nonce@
            &&& t@ == reply->Some_0.tag@
            &&& n@.len() == NONCE_LEN
            &&& t@.len() == GCM_TAG_LEN
        },
        r is Err <==> !(is_success(status) && reply is Some && reply->Some_0.nonce@.len()
            == NONCE_LEN && reply->Some_0.tag@.len() == GCM_TAG_LEN),
        r matches Err(e) ==> e == KmsError::Provider,
{
    if status < 200 || status > 299 {
        return Err(KmsError::Provider);
    }
    match reply {
        Some(resp) => {
            if resp.nonce.len() != NONCE_LEN || resp.tag.len() != GCM_TAG_LEN {
                Err(KmsError::Provider)
            } else {
                Ok((resp.wrapped_dek, resp.nonce, resp.tag))
            }
        },
        None => Err(KmsError::Provider),
    }
}

/// Turns the service's reply to an unwrap request into the DEK, held in a
/// secure buffer. Anything but a success carrying a DEK is a provider error.
pub fn unwrap_reply(status: u16, reply: Option<UnwrapDekResponse>) -> (r: Result<
    SecureBuffer,
    KmsError,
>)
    ensures
        r matches Ok(d) ==> is_success(status) && reply is Some && d@
            == reply->Some_0.unwrapped_dek@,
        r matches Err(e) ==> if is_success(status) && reply is Some {
            e == KmsError::Allocation && reply->Some_0.unwrapped_dek@.len() > MAX_SECURE_LEN
        } else {
            e == KmsError::Provider
        },
{
    if status < 200 || status > 299 {
        return Err(KmsError::Provider);
    }
    match reply {
        Some(resp) => SecureBuffer::from_slice(resp.unwrapped_dek.as_slice()),
        None => Err(KmsError::Provider),
    }
}

/// Turns the service's reply to a provisioning request into the new KEK's
/// identifier.
pub fn init_kek_reply(status: u16, reply: Option<InitKekResponse>) -> (r: Result<String, KmsError>)
    ensures
        r matches Ok(id) ==> is_success(status) && reply is Some && id@ == reply->Some_0.id@,
        r is Err <==> !(is_success(status) && reply is Some),
        r matches Err(e) ==> e == KmsError::Provider,
{
    if status < 200 || status > 299 {
        return Err(KmsError::Provider);
    }
    match reply {
        Some(resp) => Ok(resp.id),
        None => Err(KmsError::Provider),
    }
}

} // verus!
