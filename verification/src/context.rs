//! The per-operation encryption context: an immutable value built fresh
//! from the derived key for each encryption call.

use vstd::prelude::*;
use vstd::string::{StrSliceExecFns, StringExecFns};
use crate::error::CryptoError;
use crate::hex::{hex_decode, hex_decode_chars, valid_hex_chars};

verus! {

/// The distance-scaling (approximation) factor handed to the vector
/// encryption provider.
pub const VECTOR_SCALING_FACTOR: u16 = 2;

/// The vector-specific secret of a context.
#[derive(Debug)]
pub struct VectorSecretConfig {
    /// The fixed path identifier the vector secret is bound to.
    pub secret_path: String,
    /// The distance-scaling factor the provider applies.
    pub scaling_factor: u16,
}

/// An in-memory encryption configuration: the current key with its id and,
/// when vector encryption is wanted, the vector-specific secret. Built
/// fresh per logical operation and owned by the call that builds it; no
/// rotated (previous) key is configured here.
#[derive(Debug)]
pub struct EncryptionContext {
    /// Identifier of the single current key.
    pub key_id: u32,
    /// Raw bytes of the current key.
    pub key: Vec<u8>,
    /// The vector-specific secret, present exactly when asked for.
    pub vector_secret: Option<VectorSecretConfig>,
}

impl EncryptionContext {
    /// Exactly one current key with id 1 and non-empty material; any
    /// vector secret is bound to the fixed path with the fixed factor.
    pub open spec fn wf(self) -> bool {
        &&& self.key_id == 1
    &&& self.key@.len() > 0
    &&& (self.vector_secret is Some ==> self.vector_secret->0.secret_path@ == "key"@
        && self.vector_secret->0.scaling_factor == VECTOR_SCALING_FACTOR)
    }
}

/// Builds the encryption context from the hex-encoded derived key. Fails
/// with a configuration error exactly when the key is empty or is no
/// hexadecimal string; on success the context holds the decoded key bytes
/// under id 1, and a vector secret exactly when one was asked for.
pub fn encryption_context(key_hex: &str, with_vector_secret: bool) -> (r: Result<
    EncryptionContext,
    CryptoError,
>)
    ensures
        r is Ok <==> (key_hex@.len() > 0 && valid_hex_chars(key_hex@)),
        r is Ok ==> r->Ok_0.wf() && r->Ok_0.key@ == hex_decode_chars(key_hex@) && (
        r->Ok_0.vector_secret is Some <==> with_vector_secret),
        r is Err ==> r->Err_0 is ConfigurationError,
{
    if key_hex.unicode_len() == 0 {
        return Err(CryptoError::ConfigurationError);
    }
    let key = match hex_decode(key_hex) {
        Some(k) => k,
        None => {
            return Err(CryptoError::ConfigurationError);
        },
    };
    let vector_secret = if with_vector_secret {
        Some(
            VectorSecretConfig {
                secret_path: String::from_str("key"),
                scaling_factor: VECTOR_SCALING_FACTOR,
            },
        )
    } else {
        None
    };
    Ok(EncryptionContext { key_id: 1, key, vector_secret })
}

} // verus!
