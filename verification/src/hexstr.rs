//! Hexadecimal encoding and decoding of byte strings, specified character
//! by character and verified against that specification.

use vstd::prelude::*;

verus! {

/// The lower-case hex character of a nibble.
pub open spec fn spec_hex_char_of(n: u8) -> char
    recommends
        n < 16,
{
    if n < 10 {
        ((48 + n) as u8) as char
    } else {
        ((87 + n) as u8) as char
    }
}

/// The lower-case hex encoding of a byte string: two characters per byte,
/// high nibble first.
pub open spec fn spec_hex_of(bytes: Seq<u8>) -> Seq<char> {
    Seq::new(bytes.len() * 2, |i: int|
        if i % 2 == 0 {
            spec_hex_char_of(bytes[i / 2] >> 4)
        } else {
            spec_hex_char_of(bytes[i / 2] & 0x0f)
        })
}

/// The numeric value of a hex digit, upper or lower case, if it is one.
pub open spec fn spec_hex_digit_val(c: char) -> Option<u8> {
    let u = c as u32;
    if 48 <= u <= 57 {
        Some((u - 48) as u8)
    } else if 97 <= u <= 102 {
        Some((u - 97 + 10) as u8)
    } else if 65 <= u <= 70 {
        Some((u - 65 + 10) as u8)
    } else {
        None
    }
}

/// Whether every character is a hex digit.
pub open spec fn spec_all_hex(s: Seq<char>) -> bool {
    forall|i: int| 0 <= i < s.len() ==> (#[trigger] spec_hex_digit_val(s[i])) is Some
}

/// The bytes a hex string stands for, or nothing if the string has odd
/// length or holds a character that is no hex digit.
pub open spec fn spec_hex_decoded(s: Seq<char>) -> Option<Seq<u8>> {
    if s.len() % 2 == 0 && spec_all_hex(s) {
        Some(Seq::new(s.len() / 2, |i: int|
            (16 * spec_hex_digit_val(s[2 * i]).unwrap() + spec_hex_digit_val(s[2 * i + 1]).unwrap()) as u8))
    } else {
        None
    }
}

/// Relies on String::from_utf8: ASCII bytes become the string of exactly
/// those characters.
#[verifier::external_body]
fn ascii_to_string(bytes: Vec<u8>) -> (r: String)
    requires
        forall|i: int| 0 <= i < bytes@.len() ==> bytes@[i] < 128,
    ensures
        r@ == bytes@.map_values(|b: u8| b as char),
{
    String::from_utf8(bytes).unwrap_or_default()
}

/// The lower-case hex encoding of a byte string.
pub fn hex_encode(bytes: &[u8]) -> (r: String)
    ensures
        r@ == spec_hex_of(bytes@),
{
    let n = bytes.len();
    let mut out: Vec<u8> = Vec::new();
    let mut i: usize = 0;
    while i < n
        invariant
            n == bytes@.len(),
            i <= n,
            out@.len() == 2 * i,
            forall|j: int| 0 <= j < out@.len() ==> out@[j] < 128,
            forall|j: int| 0 <= j < out@.len() ==> (#[trigger] out@[j]) as char == spec_hex_of(bytes@)[j],
        decreases n - i,
    {
        let b = bytes[i];
        let hi = b >> 4;
        let lo = b & 0x0f;
        assert(hi < 16 && lo < 16) by (bit_vector)
            requires
                hi == b >> 4,
                lo == b & 0x0f,
        ;
        let hi_ch: u8 = if hi < 10 { 48 + hi } else { 87 + hi };
        let lo_ch: u8 = if lo < 10 { 48 + lo } else { 87 + lo };
        out.push(hi_ch);
        out.push(lo_ch);
        i = i + 1;
    }
    let r = ascii_to_string(out);
    assert(r@ =~= spec_hex_of(bytes@));
    r
}

/// The numeric value of a hex digit character, if it is one.
pub fn hex_digit_val(c: char) -> (r: Option<u8>)
    ensures
        r == spec_hex_digit_val(c),
{
    let u = c as u32;
    if 48 <= u && u <= 57 {
        Some((u - 48) as u8)
    } else if 97 <= u && u <= 102 {
        Some((u - 97 + 10) as u8)
    } else if 65 <= u && u <= 70 {
        Some((u - 65 + 10) as u8)
    } else {
        None
    }
}

/// Decodes a hex string, upper or lower case; fails on odd length and on
/// any character that is no hex digit.
pub fn hex_decode(s: &str) -> (r: Option<Vec<u8>>)
    ensures
        match spec_hex_decoded(s@) {
            None => r is None,
            Some(bytes) => r matches Some(v) && v@ == bytes,
        },
{
    let n = s.unicode_len();
    if n % 2 != 0 {
        return None;
    }
    let mut out: Vec<u8> = Vec::new();
    let mut i: usize = 0;
    while i < n
        invariant
            n == s@.len(),
            n % 2 == 0,
            i <= n,
            i % 2 == 0,
            out@.len() == i / 2,
            forall|j: int| 0 <= j < i ==> (#[trigger] spec_hex_digit_val(s@[j])) is Some,
            forall|j: int| 0 <= j < out@.len() ==> out@[j] ==
                (16 * spec_hex_digit_val(s@[2 * j]).unwrap()
                    + spec_hex_digit_val(s@[2 * j + 1]).unwrap()) as u8,
        decreases n - i,
    {
        let hi = match hex_digit_val(s.get_char(i)) {
            Some(v) => v,
            None => {
                return None;
            },
        };
        let lo = match hex_digit_val(s.get_char(i + 1)) {
            Some(v) => v,
            None => {
                return None;
            },
        };
        out.push(16 * hi + lo);
        i = i + 2;
    }
    assert(spec_all_hex(s@));
    assert(out@ =~= spec_hex_decoded(s@).unwrap());
    Some(out)
}

/// Decoding is inverse to encoding: the hex string of any byte string
/// decodes back to exactly those bytes.
pub proof fn lemma_hex_round_trip(bytes: Seq<u8>)
    ensures
        spec_hex_decoded(spec_hex_of(bytes)) == Some(bytes),
{
    let s = spec_hex_of(bytes);
    assert forall|i: int| 0 <= i < s.len() implies (#[trigger] spec_hex_digit_val(s[i])) is Some by {
        let b = bytes[i / 2];
        assert(b >> 4 < 16 && b & 0x0f < 16) by (bit_vector);
    }
    let decoded = spec_hex_decoded(s).unwrap();
    assert forall|i: int| 0 <= i < bytes.len() implies decoded[i] == bytes[i] by {
        let b = bytes[i];
        assert(s[2 * i] == spec_hex_char_of(b >> 4));
        assert(s[2 * i + 1] == spec_hex_char_of(b & 0x0f));
        assert(b >> 4 < 16 && b & 0x0f < 16 && 16 * (b >> 4) + (b & 0x0f) == b) by (bit_vector);
        assert(spec_hex_digit_val(spec_hex_char_of(b >> 4)) == Some(b >> 4));
        assert(spec_hex_digit_val(spec_hex_char_of(b & 0x0f)) == Some(b & 0x0f));
    }
    assert(decoded =~= bytes);
}

} // verus!
