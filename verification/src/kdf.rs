//! Salted, iterated password-based key derivation: credentials and the
//! account secret key go in, the hex-encoded symmetric encryption key comes
//! out.

use vstd::prelude::*;
use vstd::string::StrSliceExecFns;
use vstd::string::StringSliceAdditionalSpecFns;
use crate::hex::{hex_encode_lower, hex_lower_chars};
use std::num::NonZeroU32;
use ring::pbkdf2;

verus! {

/// The derived encryption key is one SHA-256 digest wide.
pub const ENCRYPTION_KEY_LEN: usize = 32;

/// What PBKDF2 with HMAC-SHA-512 as the pseudo-random function returns for a
/// given iteration count, salt, password and output width. A fixed function
/// of its arguments: the same inputs give the same key on every machine.
pub uninterp spec fn pbkdf2_hmac_sha512(
    iterations: u32,
    salt: Seq<u8>,
    password: Seq<u8>,
    out_len: usize,
) -> Seq<u8>;

/// The salt for key derivation: the secret-key bytes first, then the
/// username bytes. The order is part of the format; swapping it derives a
/// different key.
pub open spec fn salt_spec(username: Seq<char>, secret_key: Seq<char>) -> Seq<u8> {
    vstd::utf8::encode_utf8(secret_key) + vstd::utf8::encode_utf8(username)
}

/// The derived encryption key, as lowercase hexadecimal characters.
pub open spec fn derived_key_chars(
    iterations: u32,
    username: Seq<char>,
    password: Seq<char>,
    secret_key: Seq<char>,
) -> Seq<char> {
    hex_lower_chars(
        pbkdf2_hmac_sha512(
            iterations,
            salt_spec(username, secret_key),
            vstd::utf8::encode_utf8(password),
            ENCRYPTION_KEY_LEN,
        ),
    )
}

/// Builds the derivation salt: secret-key bytes followed by username bytes.
pub fn salt(username: &str, secret_key: &str) -> (r: Vec<u8>)
    ensures
        r@ == salt_spec(username@, secret_key@),
{
    let mut out = secret_key.as_bytes_vec();
    out.extend_from_slice(username.as_bytes());
    out
}

/// Relies on ring::pbkdf2::derive with the HMAC-SHA512 algorithm: it fills
/// the whole output buffer with the PBKDF2 key for (iterations, salt,
/// password), a deterministic function of those arguments. The call panics
/// only on a zero iteration count or on an output of more than 2^32 - 1
/// digest widths; the preconditions keep both out.
#[verifier::external_body]
fn pbkdf2_derive(iterations: u32, salt: &Vec<u8>, password: &Vec<u8>, out_len: usize) -> (r: Vec<
    u8,
>)
    requires
        1 <= iterations,
        1 <= out_len <= 64,
    ensures
        r@.len() == out_len,
        r@ == pbkdf2_hmac_sha512(iterations, salt@, password@, out_len),
{
    let mut key = vec![0u8; out_len];
    pbkdf2::derive(
        pbkdf2::PBKDF2_HMAC_SHA512,
        NonZeroU32::new(iterations).unwrap(),
        salt,
        password,
        &mut key,
    );
    key
}

/// Derives the account's encryption key from its credentials: PBKDF2 with
/// HMAC-SHA-512, the password as keying material, the salt built from the
/// secret key and the email, and a 32-byte output, rendered as lowercase
/// hexadecimal. Deterministic: the same inputs always give the same key.
pub fn create_encryption_key(
    pbkdf2_iterations: u32,
    email: &str,
    password: &str,
    secret_key: &str,
) -> (r: String)
    requires
        1 <= pbkdf2_iterations,
    ensures
        r@ == derived_key_chars(pbkdf2_iterations, email@, password@, secret_key@),
        r@.len() == 2 * ENCRYPTION_KEY_LEN,
{
    let s: Vec<u8> = salt(email, secret_key);
    let password_bytes = password.as_bytes_vec();
    let key = pbkdf2_derive(pbkdf2_iterations, &s, &password_bytes, ENCRYPTION_KEY_LEN);
    hex_encode_lower(&key)
}

/// Key derivation is deterministic: two results derived from the same
/// iteration count, email, password and secret key are the same key.
pub proof fn lemma_derive_deterministic(
    r1: Seq<char>,
    r2: Seq<char>,
    iterations: u32,
    email: Seq<char>,
    password: Seq<char>,
    secret_key: Seq<char>,
)
    requires
        r1 == derived_key_chars(iterations, email, password, secret_key),
        r2 == derived_key_chars(iterations, email, password, secret_key),
    ensures
        r1 == r2,
{
}

/// The salt is order-sensitive: as long as the two byte strings differ at
/// all and have the same length, putting the secret key first gives a
/// different salt than putting the username first.
pub proof fn lemma_salt_order_sensitive(a: Seq<u8>, b: Seq<u8>)
    requires
        a.len() == b.len(),
        a != b,
    ensures
        a + b != b + a,
{
    assert(exists|i: int| 0 <= i < a.len() && a[i] != b[i]) by {
        if forall|i: int| 0 <= i < a.len() ==> a[i] == b[i] {
            assert(a =~= b);
        }
    }
    let i = choose|i: int| 0 <= i < a.len() && a[i] != b[i];
    assert((a + b)[i] == a[i]);
    assert((b + a)[i] == b[i]);
}

} // verus!
