//! Hexadecimal rendering and parsing of byte strings, the transport form of
//! keys, edeks and ciphertext fields.

use vstd::prelude::*;
use vstd::string::StrSliceExecFns;

verus! {

/// The lowercase hexadecimal digit for a nibble.
pub open spec fn hex_digit_lower(n: u8) -> char
    recommends
        n < 16,
{
    if n == 0 {
        '0'
    } else if n == 1 {
        '1'
    } else if n == 2 {
        '2'
    } else if n == 3 {
        '3'
    } else if n == 4 {
        '4'
    } else if n == 5 {
        '5'
    } else if n == 6 {
        '6'
    } else if n == 7 {
        '7'
    } else if n == 8 {
        '8'
    } else if n == 9 {
        '9'
    } else if n == 10 {
        'a'
    } else if n == 11 {
        'b'
    } else if n == 12 {
        'c'
    } else if n == 13 {
        'd'
    } else if n == 14 {
        'e'
    } else {
        'f'
    }
}

/// The uppercase hexadecimal digit for a nibble.
pub open spec fn hex_digit_upper(n: u8) -> char
    recommends
        n < 16,
{
    if n == 10 {
        'A'
    } else if n == 11 {
        'B'
    } else if n == 12 {
        'C'
    } else if n == 13 {
        'D'
    } else if n == 14 {
        'E'
    } else if n == 15 {
        'F'
    } else {
        hex_digit_lower(n)
    }
}

/// Lowercase hexadecimal rendering of a byte string: two digits per byte,
/// high nibble first.
pub open spec fn hex_lower_chars(bytes: Seq<u8>) -> Seq<char> {
    Seq::new(
        bytes.len() * 2,
        |i: int|
            if i % 2 == 0 {
                hex_digit_lower(bytes[i / 2] / 16)
            } else {
                hex_digit_lower(bytes[i / 2] % 16)
            },
    )
}

/// Uppercase hexadecimal rendering of a byte string.
pub open spec fn hex_upper_chars(bytes: Seq<u8>) -> Seq<char> {
    Seq::new(
        bytes.len() * 2,
        |i: int|
            if i % 2 == 0 {
                hex_digit_upper(bytes[i / 2] / 16)
            } else {
                hex_digit_upper(bytes[i / 2] % 16)
            },
    )
}

/// A character that parses as a hexadecimal digit, in either case.
pub open spec fn is_hex_digit(c: char) -> bool {
    ('0' as u32 <= c as u32 && c as u32 <= '9' as u32) || ('a' as u32 <= c as u32 && c as u32
        <= 'f' as u32) || ('A' as u32 <= c as u32 && c as u32 <= 'F' as u32)
}

/// An uppercase hexadecimal digit.
pub open spec fn is_upper_hex_digit(c: char) -> bool {
    ('0' as u32 <= c as u32 && c as u32 <= '9' as u32) || ('A' as u32 <= c as u32 && c as u32
        <= 'F' as u32)
}

/// The nibble a hexadecimal digit stands for.
pub open spec fn hex_char_value(c: char) -> u8
    recommends
        is_hex_digit(c),
{
    if '0' as u32 <= c as u32 && c as u32 <= '9' as u32 {
        (c as u32 - '0' as u32) as u8
    } else if 'a' as u32 <= c as u32 && c as u32 <= 'f' as u32 {
        (c as u32 - 'a' as u32 + 10) as u8
    } else {
        (c as u32 - 'A' as u32 + 10) as u8
    }
}

/// A character string that decodes as hexadecimal: even length, every
/// character a digit.
pub open spec fn valid_hex_chars(s: Seq<char>) -> bool {
    s.len() % 2 == 0 && forall|i: int| 0 <= i < s.len() ==> is_hex_digit(#[trigger] s[i])
}

/// The bytes a hexadecimal character string decodes to.
pub open spec fn hex_decode_chars(s: Seq<char>) -> Seq<u8>
    recommends
        valid_hex_chars(s),
{
    Seq::new(
        s.len() / 2,
        |i: int| (hex_char_value(s[2 * i]) * 16 + hex_char_value(s[2 * i + 1])) as u8,
    )
}

/// Relies on String::push: appends exactly the one character, which vstd
/// leaves unspecified.
#[verifier::external_body]
pub(crate) fn push_char(s: &mut String, c: char)
    ensures
        final(s)@ == old(s)@ + seq![c],
{
    s.push(c);
}

fn hex_digit_lower_exec(n: u8) -> (c: char)
    requires
        n < 16,
    ensures
        c == hex_digit_lower(n),
{
    if n == 0 {
        '0'
    } else if n == 1 {
        '1'
    } else if n == 2 {
        '2'
    } else if n == 3 {
        '3'
    } else if n == 4 {
        '4'
    } else if n == 5 {
        '5'
    } else if n == 6 {
        '6'
    } else if n == 7 {
        '7'
    } else if n == 8 {
        '8'
    } else if n == 9 {
        '9'
    } else if n == 10 {
        'a'
    } else if n == 11 {
        'b'
    } else if n == 12 {
        'c'
    } else if n == 13 {
        'd'
    } else if n == 14 {
        'e'
    } else {
        'f'
    }
}

fn hex_digit_upper_exec(n: u8) -> (c: char)
    requires
        n < 16,
    ensures
        c == hex_digit_upper(n),
{
    if n == 10 {
        'A'
    } else if n == 11 {
        'B'
    } else if n == 12 {
        'C'
    } else if n == 13 {
        'D'
    } else if n == 14 {
        'E'
    } else if n == 15 {
        'F'
    } else {
        hex_digit_lower_exec(n)
    }
}

/// Renders bytes as lowercase hexadecimal.
pub fn hex_encode_lower(bytes: &Vec<u8>) -> (r: String)
    ensures
        r@ == hex_lower_chars(bytes@),
{
    let mut out = String::new();
    let mut i: usize = 0;
    while i < bytes.len()
        invariant
            i <= bytes@.len(),
            out@ == hex_lower_chars(bytes@.subrange(0, i as int)),
        decreases bytes@.len() - i,
    {
        let b = bytes[i];
        push_char(&mut out, hex_digit_lower_exec(b / 16));
        push_char(&mut out, hex_digit_lower_exec(b % 16));
        i += 1;
        proof {
            assert(out@ =~= hex_lower_chars(bytes@.subrange(0, i as int)));
        }
    }
    proof {
        assert(bytes@.subrange(0, bytes@.len() as int) =~= bytes@);
    }
    out
}

/// Renders bytes as uppercase hexadecimal.
pub fn hex_encode_upper(bytes: &Vec<u8>) -> (r: String)
    ensures
        r@ == hex_upper_chars(bytes@),
{
    let mut out = String::new();
    let mut i: usize = 0;
    while i < bytes.len()
        invariant
            i <= bytes@.len(),
            out@ == hex_upper_chars(bytes@.subrange(0, i as int)),
        decreases bytes@.len() - i,
    {
        let b = bytes[i];
        push_char(&mut out, hex_digit_upper_exec(b / 16));
        push_char(&mut out, hex_digit_upper_exec(b % 16));
        i += 1;
        proof {
            assert(out@ =~= hex_upper_chars(bytes@.subrange(0, i as int)));
        }
    }
    proof {
        assert(bytes@.subrange(0, bytes@.len() as int) =~= bytes@);
    }
    out
}

fn hex_value_exec(c: char) -> (r: Option<u8>)
    ensures
        r is Some <==> is_hex_digit(c),
        r is Some ==> r->0 == hex_char_value(c) && r->0 < 16,
{
    let u = c as u32;
    if 48 <= u && u <= 57 {
        Some((u - 48) as u8)
    } else if 97 <= u && u <= 102 {
        Some((u - 97 + 10) as u8)
    } else if 65 <= u && u <= 70 {
        Some((u - 65 + 10) as u8)
    } else {
        None
    }
}

/// Parses a hexadecimal string into bytes; `None` exactly on a string of odd
/// length or with a character that is no hexadecimal digit.
pub fn hex_decode(s: &str) -> (r: Option<Vec<u8>>)
    ensures
        r is Some <==> valid_hex_chars(s@),
        r is Some ==> r->0@ == hex_decode_chars(s@),
{
    let n = s.unicode_len();
    if n % 2 != 0 {
        return None;
    }
    let mut out: Vec<u8> = Vec::new();
    let mut i: usize = 0;
    while i < n
        invariant
            n == s@.len(),
            n % 2 == 0,
            i % 2 == 0,
            i <= n,
            forall|j: int| 0 <= j < i ==> is_hex_digit(#[trigger] s@[j]),
            out@ == hex_decode_chars(s@.subrange(0, i as int)),
        decreases n - i,
    {
        let c1 = s.get_char(i);
        let c2 = s.get_char(i + 1);
        let v1 = match hex_value_exec(c1) {
            Some(v) => v,
            None => {
                return None;
            },
        };
        let v2 = match hex_value_exec(c2) {
            Some(v) => v,
            None => {
                return None;
            },
        };
        out.push(v1 * 16 + v2);
        i += 2;
        proof {
            assert(out@ =~= hex_decode_chars(s@.subrange(0, i as int)));
        }
    }
    proof {
        assert(s@.subrange(0, s@.len() as int) =~= s@);
    }
    Some(out)
}

} // verus!
