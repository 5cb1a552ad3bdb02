//! Secret-key generation: 32 random bytes, rendered uppercase-hex with a
//! dash ahead of every fifth character so the key can be transcribed by
//! hand.

use vstd::prelude::*;
use vstd::string::StrSliceExecFns;
use crate::error::CryptoError;
use crate::hex::{hex_encode_upper, hex_upper_chars, is_upper_hex_digit, push_char};
use ring::rand::SecureRandom;

verus! {

/// A raw secret key is 32 random bytes.
pub const SECRET_KEY_LEN: usize = 32;

/// How many dash separators stand ahead of `n` characters: one ahead of
/// every fifth character after the first group.
pub open spec fn dash_count(n: int) -> int {
    if n == 0 {
        0
    } else {
        (n - 1) / 5
    }
}

/// A character string with a dash inserted ahead of every fifth character
/// after the first group of five.
pub open spec fn dash_grouped(s: Seq<char>) -> Seq<char> {
    Seq::new(
        (s.len() + dash_count(s.len() as int)) as nat,
        |j: int|
            if j % 6 == 5 {
                '-'
            } else {
                s[j - j / 6]
            },
    )
}

/// A formatted secret key: the uppercase hexadecimal rendering of the raw
/// bytes, dash-grouped.
pub open spec fn formatted_secret_key(bytes: Seq<u8>) -> Seq<char> {
    dash_grouped(hex_upper_chars(bytes))
}

/// Relies on ring::rand::SystemRandom through SecureRandom::fill: on
/// success the buffer holds freshly drawn random bytes. Nothing is assumed
/// of their values; a failure of the random source is mapped to
/// EntropyFailure.
#[verifier::external_body]
fn random_bytes(n: usize) -> (r: Result<Vec<u8>, CryptoError>)
    ensures
        r is Ok ==> r->Ok_0@.len() == n,
        r is Err ==> r->Err_0 is EntropyFailure,
{
    let mut buf = vec![0u8; n];
    match ring::rand::SystemRandom::new().fill(&mut buf) {
        Ok(()) => Ok(buf),
        Err(_) => Err(CryptoError::EntropyFailure),
    }
}

fn insert_dashes(s: &str) -> (r: String)
    ensures
        r@ == dash_grouped(s@),
{
    let n = s.unicode_len();
    let mut out = String::new();
    let mut i: usize = 0;
    while i < n
        invariant
            n == s@.len(),
            i <= n,
            out@ == dash_grouped(s@.subrange(0, i as int)),
        decreases n - i,
    {
        if i != 0 && i % 5 == 0 {
            push_char(&mut out, '-');
        }
        push_char(&mut out, s.get_char(i));
        i += 1;
        proof {
            assert(out@ =~= dash_grouped(s@.subrange(0, i as int)));
        }
    }
    proof {
        assert(s@.subrange(0, s@.len() as int) =~= s@);
    }
    out
}

/// Renders raw secret-key bytes in their transcribable form.
pub fn format_secret_key(bytes: &Vec<u8>) -> (r: String)
    ensures
        r@ == formatted_secret_key(bytes@),
{
    let h = hex_encode_upper(bytes);
    insert_dashes(h.as_str())
}

/// Draws a fresh 32-byte secret key from the system's secure random source
/// and renders it in the transcribable form. A failure of the random source
/// is a hard error: no placeholder or low-entropy key is ever returned.
pub fn generate_secret_key() -> (r: Result<String, CryptoError>)
    ensures
        r is Ok ==> exists|bytes: Seq<u8>|
            bytes.len() == SECRET_KEY_LEN && r->Ok_0@ == #[trigger] formatted_secret_key(bytes),
        r is Err ==> r->Err_0 is EntropyFailure,
{
    let bytes = match random_bytes(SECRET_KEY_LEN) {
        Ok(b) => b,
        Err(e) => {
            return Err(e);
        },
    };
    let s = format_secret_key(&bytes);
    proof {
        assert(s@ == formatted_secret_key(bytes@));
    }
    Ok(s)
}

/// Shape of every formatted secret key built from 32 bytes: 76 characters,
/// a dash exactly at every sixth position, and an uppercase hexadecimal
/// digit everywhere else.
pub proof fn lemma_secret_key_format(bytes: Seq<u8>)
    requires
        bytes.len() == SECRET_KEY_LEN,
    ensures
        formatted_secret_key(bytes).len() == 76,
        forall|j: int|
            0 <= j < 76 ==> (#[trigger] formatted_secret_key(bytes)[j] == '-' <==> j % 6 == 5),
        forall|j: int|
            0 <= j < 76 && j % 6 != 5 ==> is_upper_hex_digit(#[trigger] formatted_secret_key(bytes)[j]),
{
    let h = hex_upper_chars(bytes);
    assert(h.len() == 64);
    assert(formatted_secret_key(bytes).len() == 76);
    assert forall|n: u8| n < 16 implies is_upper_hex_digit(crate::hex::hex_digit_upper(n)) by {
    }
    assert forall|j: int| 0 <= j < 64 implies is_upper_hex_digit(#[trigger] h[j]) by {
        if j % 2 == 0 {
            assert(h[j] == crate::hex::hex_digit_upper(bytes[j / 2] / 16));
        } else {
            assert(h[j] == crate::hex::hex_digit_upper(bytes[j / 2] % 16));
        }
    }
    assert forall|j: int| 0 <= j < 76 && j % 6 != 5 implies is_upper_hex_digit(
        #[trigger] formatted_secret_key(bytes)[j],
    ) by {
        assert(0 <= j - j / 6 < 64);
        assert(formatted_secret_key(bytes)[j] == h[j - j / 6]);
    }
}

} // verus!
