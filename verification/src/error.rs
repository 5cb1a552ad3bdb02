//! The failure taxonomy of the encryption core.

use vstd::prelude::*;

verus! {

/// Every failure the core reports to its caller. Cryptographic failures are
/// never swallowed: they abort the enclosing operation and surface here.
#[derive(Clone, Copy, Debug, PartialEq, Eq, Structural)]
pub enum CryptoError {
    /// The secure random source failed while generating a secret key. No
    /// low-entropy fallback is produced in its place.
    EntropyFailure,
    /// Malformed or undecodable key material while building an encryption
    /// context.
    ConfigurationError,
    /// The underlying cryptographic provider rejected an encryption
    /// operation.
    EncryptionFailure,
}

impl CryptoError {
    /// A short description, for callers that surface the failure.
    pub fn describe(&self) -> (r: &'static str)
        ensures
            self is EntropyFailure ==> r@ == "secure random source failed"@,
            self is ConfigurationError ==> r@ == "malformed key material"@,
            self is EncryptionFailure ==> r@ == "encryption provider rejected the operation"@,
    {
        match self {
            CryptoError::EntropyFailure => "secure random source failed",
            CryptoError::ConfigurationError => "malformed key material",
            CryptoError::EncryptionFailure => "encryption provider rejected the operation",
        }
    }
}

} // verus!
