use chatlock::config::KeygenConfig;
use chatlock::context::encryption_context;
use chatlock::encrypt::{encrypt_embeddings, encrypt_text};
use chatlock::error::CryptoError;
use chatlock::greet;
use chatlock::hex::{hex_decode, hex_encode_lower, hex_encode_upper};
use chatlock::kdf::{create_encryption_key, salt};
use chatlock::keygen::{format_secret_key, generate_secret_key};

fn is_lower_hex(s: &str) -> bool {
    !s.is_empty() && s.chars().all(|c| c.is_ascii_hexdigit() && !c.is_ascii_uppercase())
}

const KEY_HEX: &str = "000102030405060708090a0b0c0d0e0f101112131415161718191a1b1c1d1e1f";

#[test]
fn it_works() {
    let result = greet("Robert");
    assert_eq!(result, String::from("Hello, Robert!"));
}

#[test]
fn hex_round_trip() {
    let bytes = vec![0x0fu8, 0xa0, 0x00, 0xff];
    assert_eq!(hex_encode_lower(&bytes), "0fa000ff");
    assert_eq!(hex_encode_upper(&bytes), "0FA000FF");
    assert_eq!(hex_decode("0fa000ff"), Some(bytes.clone()));
    assert_eq!(hex_decode("0FA000FF"), Some(bytes));
    assert_eq!(hex_decode("abc"), None);
    assert_eq!(hex_decode("0g"), None);
    assert_eq!(hex_decode(""), Some(Vec::new()));
}

#[test]
fn hex_encode_matches_reference() {
    let bytes: Vec<u8> = (0u8..=255).collect();
    assert_eq!(hex_encode_lower(&bytes), hex::encode(&bytes));
    assert_eq!(
        hex_decode(&hex::encode(&bytes)).expect("reference encoding decodes"),
        bytes
    );
}

#[test]
fn secret_key_formatting() {
    let bytes: Vec<u8> = (0u8..32).collect();
    let formatted = format_secret_key(&bytes);
    let expected = {
        let hex = hex_encode_upper(&bytes);
        let mut out = String::new();
        for (i, c) in hex.chars().enumerate() {
            if i != 0 && i % 5 == 0 {
                out.push('-');
            }
            out.push(c);
        }
        out
    };
    assert_eq!(formatted, expected);
}

#[test]
fn generated_secret_key_shape() {
    let key = generate_secret_key().expect("entropy available");
    assert_eq!(key.len(), 76);
    for (i, c) in key.chars().enumerate() {
        if i % 6 == 5 {
            assert_eq!(c, '-', "dash expected at position {i}");
        } else {
            assert!(c.is_ascii_hexdigit() && !c.is_ascii_lowercase(), "bad char at {i}: {c}");
        }
    }
}

#[test]
fn generated_secret_keys_differ() {
    let a = generate_secret_key().expect("entropy available");
    let b = generate_secret_key().expect("entropy available");
    assert_ne!(a, b);
}

#[test]
fn salt_is_secret_key_then_username() {
    let s = salt("user@example.com", "SECRET");
    let mut expected = b"SECRET".to_vec();
    expected.extend_from_slice(b"user@example.com");
    assert_eq!(s, expected);
}

#[test]
fn salt_is_order_sensitive() {
    assert_ne!(salt("abcdef", "uvwxyz"), salt("uvwxyz", "abcdef"));
}

#[test]
fn derive_is_deterministic() {
    let a = create_encryption_key(1_000, "a@b.c", "hunter2", "ABCDE-FGHIJ");
    let b = create_encryption_key(1_000, "a@b.c", "hunter2", "ABCDE-FGHIJ");
    assert_eq!(a, b);
    assert_eq!(a.len(), 64);
    assert!(is_lower_hex(&a));
}

#[test]
fn derive_depends_on_every_input() {
    let base = create_encryption_key(1_000, "a@b.c", "hunter2", "ABCDE-FGHIJ");
    assert_ne!(base, create_encryption_key(1_001, "a@b.c", "hunter2", "ABCDE-FGHIJ"));
    assert_ne!(base, create_encryption_key(1_000, "a@b.d", "hunter2", "ABCDE-FGHIJ"));
    assert_ne!(base, create_encryption_key(1_000, "a@b.c", "hunter3", "ABCDE-FGHIJ"));
    assert_ne!(base, create_encryption_key(1_000, "a@b.c", "hunter2", "ABCDE-FGHIK"));
}

#[test]
fn derive_matches_reference_pbkdf2() {
    // Salt is secret-key bytes then email bytes: "sa" ++ "lt" == "salt".
    let derived = create_encryption_key(1, "lt", "password", "sa");
    let mut expected = [0u8; 32];
    ring::pbkdf2::derive(
        ring::pbkdf2::PBKDF2_HMAC_SHA512,
        std::num::NonZeroU32::new(1).unwrap(),
        b"salt",
        b"password",
        &mut expected,
    );
    assert_eq!(derived, hex::encode(expected));
}

#[test]
fn context_decodes_key() {
    let ctx = encryption_context("00ff10", false).expect("valid hex");
    assert_eq!(ctx.key_id, 1);
    assert_eq!(ctx.key, vec![0x00u8, 0xff, 0x10]);
    assert!(ctx.vector_secret.is_none());
    let ctx = encryption_context(KEY_HEX, true).expect("valid hex");
    let vs = ctx.vector_secret.expect("vector secret requested");
    assert_eq!(vs.secret_path, "key");
    assert_eq!(vs.scaling_factor, 2);
}

#[test]
fn context_rejects_malformed_key() {
    assert_eq!(encryption_context("", false).unwrap_err(), CryptoError::ConfigurationError);
    assert_eq!(encryption_context("xyz", false).unwrap_err(), CryptoError::ConfigurationError);
    assert_eq!(encryption_context("abc", true).unwrap_err(), CryptoError::ConfigurationError);
}

#[test]
fn encrypt_text_shape() {
    let doc = encrypt_text("hello", KEY_HEX).expect("encryption succeeds");
    assert_eq!(doc.document.len(), 1);
    assert_eq!(doc.document[0].0, "message");
    assert!(is_lower_hex(&doc.edek));
    assert!(is_lower_hex(&doc.document[0].1));
}

#[test]
fn encrypt_text_is_randomized() {
    let a = encrypt_text("hello", KEY_HEX).expect("encryption succeeds");
    let b = encrypt_text("hello", KEY_HEX).expect("encryption succeeds");
    assert_ne!(a.document[0].1, b.document[0].1);
}

#[test]
fn encrypt_text_rejects_bad_keys() {
    assert_eq!(encrypt_text("hi", "").unwrap_err(), CryptoError::ConfigurationError);
    assert_eq!(encrypt_text("hi", "zz").unwrap_err(), CryptoError::ConfigurationError);
    assert_eq!(encrypt_text("hi", "abc").unwrap_err(), CryptoError::ConfigurationError);
    // Valid hex, but fewer than 32 bytes of key material.
    assert_eq!(encrypt_text("hi", "00ff").unwrap_err(), CryptoError::ConfigurationError);
}

fn bits(v: &[f32]) -> Vec<u32> {
    v.iter().map(|f| f.to_bits()).collect()
}

#[test]
fn encrypt_embeddings_preserves_count_and_dimension() {
    let v1 = bits(&[0.25f32, -0.5, 0.125]);
    let v2 = bits(&[1.0f32, 2.0, 3.0, 4.0]);
    let batch = vec![v1.clone(), v2.clone()];
    let out = encrypt_embeddings(&batch, KEY_HEX).expect("encryption succeeds");
    assert_eq!(out.len(), 2);
    assert_eq!(out[0].len(), 3);
    assert_eq!(out[1].len(), 4);
    assert_ne!(out[0], v1);
    assert_ne!(out[1], v2);
}

#[test]
fn encrypt_embeddings_empty_batch() {
    let out = encrypt_embeddings(&Vec::new(), KEY_HEX).expect("empty batch succeeds");
    assert!(out.is_empty());
}

#[test]
fn encrypt_embeddings_rejects_bad_keys() {
    let batch = vec![bits(&[0.5f32])];
    assert_eq!(encrypt_embeddings(&batch, "nothex!").unwrap_err(), CryptoError::ConfigurationError);
    assert_eq!(encrypt_embeddings(&batch, "00ff").unwrap_err(), CryptoError::ConfigurationError);
}

#[test]
fn keygen_config_requires_positive_iterations() {
    assert!(KeygenConfig::new(0).is_none());
    let cfg = KeygenConfig::new(100_000).expect("positive count accepted");
    assert_eq!(cfg.pbkdf2_iterations, 100_000);
}

#[test]
fn error_descriptions() {
    assert_eq!(CryptoError::EntropyFailure.describe(), "secure random source failed");
    assert_eq!(CryptoError::ConfigurationError.describe(), "malformed key material");
    assert_eq!(
        CryptoError::EncryptionFailure.describe(),
        "encryption provider rejected the operation"
    );
}
