//! A verified hexadecimal codec over bytes.
//!
//! Encoding always produces lowercase ASCII digits; decoding accepts both
//! cases and rejects anything else, so decoding then re-encoding a valid hex
//! string lowercases it and nothing more.

use vstd::prelude::*;
use crate::errors::Error;

verus! {

/// The value of an ASCII hex digit, or -1 for any other byte.
pub open spec fn hex_digit_value(b: u8) -> int {
    if 48 <= b && b <= 57 {
        b - 48
    } else if 97 <= b && b <= 102 {
        b - 97 + 10
    } else if 65 <= b && b <= 70 {
        b - 65 + 10
    } else {
        -1
    }
}

pub open spec fn is_hex_digit(b: u8) -> bool {
    hex_digit_value(b) >= 0
}

/// The lowercase ASCII digit of a nibble.
pub open spec fn nibble_digit(n: int) -> u8
    recommends
        0 <= n < 16,
{
    if n < 10 {
        (48 + n) as u8
    } else {
        (97 + (n - 10)) as u8
    }
}

/// The lowercase hex encoding of a byte sequence: two digits per byte,
/// high nibble first.
pub open spec fn hex_encoding(bytes: Seq<u8>) -> Seq<u8> {
    Seq::new(
        bytes.len() * 2,
        |i: int|
            if i % 2 == 0 {
                nibble_digit(bytes[i / 2] as int / 16)
            } else {
                nibble_digit(bytes[i / 2] as int % 16)
            },
    )
}

/// A byte sequence is a well-formed hex string: even length, hex digits only.
pub open spec fn valid_hex(s: Seq<u8>) -> bool {
    &&& s.len() % 2 == 0
    &&& forall|i: int| 0 <= i < s.len() ==> is_hex_digit(#[trigger] s[i])
}

/// The bytes a well-formed hex string denotes.
pub open spec fn hex_decoding(s: Seq<u8>) -> Seq<u8>
    recommends
        valid_hex(s),
{
    Seq::new(
        (s.len() / 2) as nat,
        |i: int| (hex_digit_value(s[2 * i]) * 16 + hex_digit_value(s[2 * i + 1])) as u8,
    )
}

/// An uppercase hex digit folded to lowercase; anything else unchanged.
pub open spec fn lower_hex_digit(b: u8) -> u8 {
    if 65 <= b && b <= 70 {
        (b + 32) as u8
    } else {
        b
    }
}

fn nibble_digit_exec(n: u8) -> (r: u8)
    requires
        n < 16,
    ensures
        r == nibble_digit(n as int),
{
    if n < 10 {
        48 + n
    } else {
        97 + (n - 10)
    }
}

/// Encode bytes as lowercase hex.
pub fn hex_encode(bytes: &[u8]) -> (r: Vec<u8>)
    ensures
        r@ == hex_encoding(bytes@),
{
    let mut out: Vec<u8> = Vec::new();
    let mut i: usize = 0;
    while i < bytes.len()
        invariant
            i <= bytes@.len(),
            out@.len() == 2 * i,
            forall|j: int| 0 <= j < 2 * i ==> out@[j] == #[trigger] hex_encoding(bytes@)[j],
        decreases bytes@.len() - i,
    {
        let b = bytes[i];
        out.push(nibble_digit_exec(b / 16));
        out.push(nibble_digit_exec(b % 16));
        i += 1;
    }
    proof {
        assert(out@ =~= hex_encoding(bytes@));
    }
    out
}

fn hex_digit_value_exec(b: u8) -> (r: Option<u8>)
    ensures
        r is Some <==> is_hex_digit(b),
        r matches Some(v) ==> v == hex_digit_value(b) && v < 16,
{
    if 48 <= b && b <= 57 {
        Some(b - 48)
    } else if 97 <= b && b <= 102 {
        Some(b - 97 + 10)
    } else if 65 <= b && b <= 70 {
        Some(b - 65 + 10)
    } else {
        None
    }
}

/// Decode a hex string; rejects odd lengths and non-digits.
pub fn hex_decode(s: &[u8]) -> (r: Result<Vec<u8>, Error>)
    ensures
        r is Ok <==> valid_hex(s@),
        r matches Ok(v) ==> v@ == hex_decoding(s@),
        r matches Err(e) ==> e == Error::InvalidInput,
{
    if s.len() % 2 != 0 {
        return Err(Error::InvalidInput);
    }
    let mut out: Vec<u8> = Vec::new();
    let mut i: usize = 0;
    while i < s.len()
        invariant
            s@.len() % 2 == 0,
            i % 2 == 0,
            i <= s@.len(),
            out@.len() == i / 2,
            forall|j: int| 0 <= j < i ==> is_hex_digit(#[trigger] s@[j]),
            forall|j: int| 0 <= j < i / 2 ==> out@[j] == #[trigger] hex_decoding(s@)[j],
        decreases s@.len() - i,
    {
        let hi = match hex_digit_value_exec(s[i]) {
            Some(v) => v,
            None => {
                return Err(Error::InvalidInput);
            },
        };
        let lo = match hex_digit_value_exec(s[i + 1]) {
            Some(v) => v,
            None => {
                return Err(Error::InvalidInput);
            },
        };
        out.push(hi * 16 + lo);
        i += 2;
    }
    proof {
        assert(out@ =~= hex_decoding(s@));
    }
    Ok(out)
}

/// The characters ASCII bytes stand for, code point for code point.
pub open spec fn ascii_chars(b: Seq<u8>) -> Seq<char> {
    b.map_values(|x: u8| x as char)
}

/// Relies on `String::from_utf8`: bytes below 128 decode to the string of
/// the characters with the same code points.
#[verifier::external_body]
fn ascii_string(b: Vec<u8>) -> (r: String)
    requires
        forall|i: int| 0 <= i < b@.len() ==> b@[i] < 128,
    ensures
        r@ == ascii_chars(b@),
{
    String::from_utf8(b).unwrap_or_default()
}

/// Encode bytes as a lowercase hex `String`.
pub fn hex_string(bytes: &[u8]) -> (r: String)
    ensures
        r@ == ascii_chars(hex_encoding(bytes@)),
{
    let enc = hex_encode(bytes);
    proof {
        assert forall|i: int| 0 <= i < enc@.len() implies enc@[i] < 128 by {
            let b = bytes@[i / 2] as int;
            assert(0 <= b / 16 < 16);
            assert(0 <= b % 16 < 16);
        }
    }
    ascii_string(enc)
}

/// Law: decoding inverts encoding, and an encoding is always well-formed hex.
pub proof fn lemma_hex_round_trip(bytes: Seq<u8>)
    ensures
        valid_hex(hex_encoding(bytes)),
        hex_decoding(hex_encoding(bytes)) == bytes,
{
    let enc = hex_encoding(bytes);
    assert forall|i: int| 0 <= i < enc.len() implies is_hex_digit(#[trigger] enc[i]) by {
        let b = bytes[i / 2] as int;
        assert(0 <= b / 16 < 16);
        assert(0 <= b % 16 < 16);
    }
    assert forall|i: int| 0 <= i < bytes.len() implies #[trigger] hex_decoding(enc)[i]
        == bytes[i] by {
        let b = bytes[i] as int;
        assert(enc[2 * i] == nibble_digit(b / 16));
        assert(enc[2 * i + 1] == nibble_digit(b % 16));
        assert(hex_digit_value(nibble_digit(b / 16)) == b / 16);
        assert(hex_digit_value(nibble_digit(b % 16)) == b % 16);
        assert((b / 16) * 16 + b % 16 == b) by {
            vstd::arithmetic::div_mod::lemma_fundamental_div_mod(b, 16);
        }
    }
    assert(hex_decoding(enc) =~= bytes);
}

/// Law: re-encoding a decoded hex string yields the same string, folded to
/// lowercase.
pub proof fn lemma_hex_reencode_lowercases(s: Seq<u8>)
    requires
        valid_hex(s),
    ensures
        hex_encoding(hex_decoding(s)) == s.map_values(|b: u8| lower_hex_digit(b)),
{
    let dec = hex_decoding(s);
    let folded = s.map_values(|b: u8| lower_hex_digit(b));
    assert forall|i: int| 0 <= i < s.len() implies #[trigger] hex_encoding(dec)[i]
        == folded[i] by {
        let j = i / 2;
        let hi = hex_digit_value(s[2 * j]);
        let lo = hex_digit_value(s[2 * j + 1]);
        assert(is_hex_digit(s[2 * j]) && is_hex_digit(s[2 * j + 1]));
        assert(dec[j] == (hi * 16 + lo) as u8);
        assert((hi * 16 + lo) / 16 == hi && (hi * 16 + lo) % 16 == lo) by {
            vstd::arithmetic::div_mod::lemma_fundamental_div_mod_converse(
                hi * 16 + lo,
                16,
                hi,
                lo,
            );
        }
        if i % 2 == 0 {
            assert(i == 2 * j);
            assert(hex_encoding(dec)[i] == nibble_digit(hi));
            assert(nibble_digit(hex_digit_value(s[i])) == lower_hex_digit(s[i]));
        } else {
            assert(i == 2 * j + 1);
            assert(hex_encoding(dec)[i] == nibble_digit(lo));
            assert(nibble_digit(hex_digit_value(s[i])) == lower_hex_digit(s[i]));
        }
    }
    assert(hex_encoding(dec) =~= folded);
}

} // verus!
