use vstd::prelude::*;

verus! {

/// The failures that the key-management core reports.
#[derive(Debug, Clone, Copy, PartialEq, Eq, Structural)]
pub enum KmsError {
    /// Secure memory could not be set up.
    Allocation,
    /// The entropy source failed.
    Randomness,
    /// A MAC or AEAD tag did not verify.
    Authentication,
    /// Every persistent handle tried was already occupied.
    NoFreeHandle,
    /// A key-derivation input was refused by the derivation function.
    DerivationInput,
    /// An input is longer than the ciphers accept.
    TooLarge,
    /// A key-encryption key does not have the length its cipher needs.
    InvalidKey,
    /// The provider does not offer this operation.
    Unsupported,
    /// The remote key service was unreachable or answered with an error.
    Provider,
}

} // verus!
