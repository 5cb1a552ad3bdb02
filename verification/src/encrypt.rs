//! Document and vector encryption on top of the per-operation context,
//! through the standalone provider of ironcore_alloy, and the rendering of
//! the results into their transport form.

use vstd::prelude::*;
use vstd::string::{StrSliceExecFns, StringExecFns};
use crate::context::{encryption_context, EncryptionContext, VectorSecretConfig};
use crate::error::CryptoError;
use crate::hex::{hex_encode_lower, hex_lower_chars, valid_hex_chars};
use std::collections::HashMap;
use std::sync::Arc;
use ironcore_alloy::standalone::config::{
    RotatableSecret, StandaloneConfiguration, StandaloneSecret, StandardSecrets, VectorSecret,
};
use ironcore_alloy::standard::{PlaintextDocument, StandardDocumentOps};
use ironcore_alloy::vector::{PlaintextVector, VectorOps};
use ironcore_alloy::{
    AlloyMetadata, DerivationPath, FieldId, PlaintextBytes, Secret, SecretPath, Standalone,
    TenantId,
};

verus! {

/// The standalone encryption provider of ironcore_alloy, carried opaquely
/// from configuration to the encryption calls.
#[verifier::external_type_specification]
#[verifier::external_body]
pub struct ExStandalone(Standalone);

/// Transport form of an encrypted document: the hex-encoded edek shared by
/// all fields, and the field name with the hex-encoded ciphertext of every
/// input field.
#[derive(Debug)]
pub struct EncryptedDocumentWrapper {
    /// Hex encoding of the encrypted data-encryption key. Losing it makes
    /// the ciphertext permanently unrecoverable.
    pub edek: String,
    /// One pair of field name and hex-encoded ciphertext per input field.
    pub document: Vec<(String, String)>,
}

/// Relies on ironcore_alloy's standalone configuration constructors:
/// Secret::new accepts exactly key material of at least 32 bytes, and with
/// the single secret id 1 named as primary, StandardSecrets::new and
/// Standalone::new cannot fail.
#[verifier::external_body]
fn alloy_standalone_standard(key: &Vec<u8>) -> (r: Result<Arc<Standalone>, CryptoError>)
    ensures
        r is Ok <==> key@.len() >= 32,
        r is Err ==> r->Err_0 is ConfigurationError,
{
    let secret = Secret::new(key.clone()).map_err(|_| CryptoError::ConfigurationError)?;
    let secrets = StandardSecrets::new(Some(1), vec![StandaloneSecret::new(1, secret)])
        .map_err(|_| CryptoError::ConfigurationError)?;
    let config = StandaloneConfiguration::new(secrets, HashMap::new(), HashMap::new());
    Ok(Standalone::new(&config))
}

/// Relies on the same constructors plus RotatableSecret::new, which cannot
/// fail when a current secret is supplied, and VectorSecret::new, which
/// stores the approximation factor beside the secret under the given path.
#[verifier::external_body]
fn alloy_standalone_vector(key: &Vec<u8>, secret_path: &str, scaling_factor: u16) -> (r: Result<
    Arc<Standalone>,
    CryptoError,
>)
    ensures
        r is Ok <==> key@.len() >= 32,
        r is Err ==> r->Err_0 is ConfigurationError,
{
    let standard_secret = Secret::new(key.clone()).map_err(|_| CryptoError::ConfigurationError)?;
    let vector_secret = Secret::new(key.clone()).map_err(|_| CryptoError::ConfigurationError)?;
    let secrets = StandardSecrets::new(Some(1), vec![StandaloneSecret::new(1, standard_secret)])
        .map_err(|_| CryptoError::ConfigurationError)?;
    let rotatable = RotatableSecret::new(Some(StandaloneSecret::new(1, vector_secret)), None)
        .map_err(|_| CryptoError::ConfigurationError)?;
    let vector = HashMap::from(
        [(SecretPath(secret_path.to_string()), VectorSecret::new(scaling_factor.into(), rotatable))],
    );
    let config = StandaloneConfiguration::new(secrets, HashMap::new(), vector);
    Ok(Standalone::new(&config))
}

/// Relies on StandardDocumentOps::encrypt of the standalone provider: it
/// draws a fresh document key, wraps it into the edek behind the non-empty
/// key-id header, and encrypts each field under a random IV while keeping
/// its field name, so the entry put in comes back out. The ciphertext is
/// randomized; nothing is assumed of the bytes beyond both parts being
/// non-empty.
#[verifier::external_body]
fn alloy_encrypt_field(
    alloy: &Arc<Standalone>,
    field_name: &str,
    text: &Vec<u8>,
    tenant: &str,
) -> (r: Result<(Vec<u8>, Vec<u8>), CryptoError>)
    ensures
        r is Ok ==> r->Ok_0.0@.len() > 0 && r->Ok_0.1@.len() > 0,
        r is Err ==> r->Err_0 is EncryptionFailure,
{
    let metadata = AlloyMetadata::new_simple(TenantId(tenant.to_string()));
    let document = PlaintextDocument(
        HashMap::from([(FieldId(field_name.to_string()), PlaintextBytes(text.clone()))]),
    );
    let mut encrypted = futures::executor::block_on(alloy.standard().encrypt(document, &metadata))
        .map_err(|_| CryptoError::EncryptionFailure)?;
    let ciphertext = encrypted
        .document
        .remove(&FieldId(field_name.to_string()))
        .ok_or(CryptoError::EncryptionFailure)?;
    Ok((encrypted.edek.0.0, ciphertext.0))
}

/// Relies on VectorOps::encrypt of the standalone provider: the ciphertext
/// vector is the shuffled input scaled and perturbed componentwise, so it
/// keeps exactly the dimension of the input; its values are randomized.
/// Components cross this boundary as single-precision bit patterns held in
/// u32, converted one for one in each direction.
#[verifier::external_body]
fn alloy_encrypt_vector(
    alloy: &Arc<Standalone>,
    embedding_bits: &Vec<u32>,
    secret_path: &str,
    derivation_path: &str,
    tenant: &str,
) -> (r: Result<Vec<u32>, CryptoError>)
    ensures
        r is Ok ==> r->Ok_0@.len() == embedding_bits@.len(),
        r is Err ==> r->Err_0 is EncryptionFailure,
{
    let plaintext_vector = PlaintextVector {
        plaintext_vector: embedding_bits.iter().map(|b| bytemuck::cast(*b)).collect(),
        secret_path: SecretPath(secret_path.to_string()),
        derivation_path: DerivationPath(derivation_path.to_string()),
    };
    let metadata = AlloyMetadata::new_simple(TenantId(tenant.to_string()));
    let encrypted = futures::executor::block_on(alloy.vector().encrypt(plaintext_vector, &metadata))
        .map_err(|_| CryptoError::EncryptionFailure)?;
    Ok(encrypted.encrypted_vector.iter().map(|f| bytemuck::cast(*f)).collect())
}

/// Renders one encrypted field and its edek in the transport form.
pub fn seal_document(field_name: &str, edek_bytes: &Vec<u8>, ciphertext: &Vec<u8>) -> (r:
    EncryptedDocumentWrapper)
    ensures
        r.edek@ == hex_lower_chars(edek_bytes@),
        r.document@.len() == 1,
        r.document@[0].0@ == field_name@,
        r.document@[0].1@ == hex_lower_chars(ciphertext@),
{
    let mut document: Vec<(String, String)> = Vec::new();
    document.push((String::from_str(field_name), hex_encode_lower(ciphertext)));
    EncryptedDocumentWrapper { edek: hex_encode_lower(edek_bytes), document }
}

/// Encrypts one message text under the derived key. The text becomes the
/// single field named "message" of a document encrypted for the fixed
/// personal tenant; the result carries that one field's ciphertext and the
/// edek, both as lowercase hex. Fails with a configuration error exactly
/// when the key is no hexadecimal encoding of at least 32 bytes; the
/// provider rejecting the randomized encryption itself surfaces as an
/// encryption failure, never as a partial result.
pub fn encrypt_text(text: &str, key: &str) -> (r: Result<EncryptedDocumentWrapper, CryptoError>)
    ensures
        !(valid_hex_chars(key@) && key@.len() >= 64) ==> r is Err && r->Err_0
            is ConfigurationError,
        r is Err ==> (r->Err_0 is ConfigurationError || r->Err_0 is EncryptionFailure),
        valid_hex_chars(key@) && key@.len() >= 64 ==> (r is Ok || r->Err_0 is EncryptionFailure),
        r is Ok ==> r->Ok_0.document@.len() == 1 && r->Ok_0.document@[0].0@ == "message"@ && (
        exists|b: Seq<u8>| b.len() > 0 && r->Ok_0.edek@ == #[trigger] hex_lower_chars(b)) && (
        exists|b: Seq<u8>| b.len() > 0 && r->Ok_0.document@[0].1@ == #[trigger] hex_lower_chars(b)),
{
    let context = match encryption_context(key, false) {
        Ok(c) => c,
        Err(e) => {
            return Err(e);
        },
    };
    let alloy = match alloy_standalone_standard(&context.key) {
        Ok(a) => a,
        Err(e) => {
            return Err(e);
        },
    };
    let text_bytes = text.as_bytes_vec();
    let (edek, ciphertext) = match alloy_encrypt_field(&alloy, "message", &text_bytes, "Personal") {
        Ok(p) => p,
        Err(e) => {
            return Err(e);
        },
    };
    let sealed = seal_document("message", &edek, &ciphertext);
    Ok(sealed)
}

/// Encrypts a batch of embedding vectors under the derived key, in input
/// order: the i-th output is the encryption of the i-th input and keeps its
/// dimension, so callers can correlate embeddings back to their source
/// text. Components cross as single-precision bit patterns held in u32. An
/// empty batch comes back empty without touching the provider's encryption
/// path; a key that is no hexadecimal encoding of at least 32 bytes is a
/// configuration error.
pub fn encrypt_embeddings(embeddings: &Vec<Vec<u32>>, key: &str) -> (r: Result<
    Vec<Vec<u32>>,
    CryptoError,
>)
    ensures
        !(valid_hex_chars(key@) && key@.len() >= 64) ==> r is Err && r->Err_0
            is ConfigurationError,
        r is Err ==> (r->Err_0 is ConfigurationError || r->Err_0 is EncryptionFailure),
        valid_hex_chars(key@) && key@.len() >= 64 ==> (r is Ok || r->Err_0 is EncryptionFailure),
        r is Ok ==> r->Ok_0@.len() == embeddings@.len(),
        r is Ok ==> forall|i: int|
            0 <= i < embeddings@.len() ==> #[trigger] r->Ok_0@[i]@.len() == embeddings@[i]@.len(),
        valid_hex_chars(key@) && key@.len() >= 64 && embeddings@.len() == 0 ==> r is Ok,
{
    let context = match encryption_context(key, true) {
        Ok(c) => c,
        Err(e) => {
            return Err(e);
        },
    };
    let vector_secret: VectorSecretConfig = match context.vector_secret {
        Some(v) => v,
        None => unreached(),
    };
    let alloy = match alloy_standalone_vector(
        &context.key,
        vector_secret.secret_path.as_str(),
        vector_secret.scaling_factor,
    ) {
        Ok(a) => a,
        Err(e) => {
            return Err(e);
        },
    };
    let mut encrypted: Vec<Vec<u32>> = Vec::new();
    let mut i: usize = 0;
    while i < embeddings.len()
        invariant
            valid_hex_chars(key@),
            key@.len() >= 64,
            i <= embeddings@.len(),
            encrypted@.len() == i,
            forall|j: int|
                0 <= j < i ==> #[trigger] encrypted@[j]@.len() == embeddings@[j]@.len(),
        decreases embeddings@.len() - i,
    {
        let ev = match alloy_encrypt_vector(&alloy, &embeddings[i], "key", "message", "Personal") {
            Ok(v) => v,
            Err(e) => {
                return Err(e);
            },
        };
        encrypted.push(ev);
        i += 1;
    }
    Ok(encrypted)
}

} // verus!
