//! Envelope encryption for a secrets manager: secret payloads are sealed
//! under per-secret data-encryption keys (DEKs), and DEKs are wrapped under
//! a key-encryption key (KEK) held by a provider.
//!
//! - `secure_buf`: key material that is wiped when it goes away.
//! - `dek`: DEKs, and sealing a payload with AES-256-GCM plus KMAC256.
//! - `kek`: wrapping DEKs under a KEK, KEK derivation, and the providers.
//! - `service`: the KEK service's decisions: persistent-handle allocation
//!   and its wrap and unwrap requests.
//! - `store`: the key-value store's seal and open flow.
//! - `remote`: reading the replies of a remote KEK service.
//! - `policy`: the vocabulary of access policies.
//! - `crypto`: the outside cryptographic functions the library relies on.
use vstd::prelude::*;

pub mod bytes;
pub mod crypto;
pub mod dek;
pub mod error;
pub mod kek;
pub mod policy;
pub mod remote;
pub mod secure_buf;
pub mod service;
pub mod store;

verus! {

} // verus!
