//! Hex encoding and decoding: spec-level definitions, the proof that they
//! invert each other, and trusted wrappers over the hex crate.

use vstd::prelude::*;

verus! {

/// The lowercase hex digit for a value below sixteen.
pub open spec fn hex_digit(n: u8) -> char {
    if n == 0 {
        '0'
    } else if n == 1 {
        '1'
    } else if n == 2 {
        '2'
    } else if n == 3 {
        '3'
    } else if n == 4 {
        '4'
    } else if n == 5 {
        '5'
    } else if n == 6 {
        '6'
    } else if n == 7 {
        '7'
    } else if n == 8 {
        '8'
    } else if n == 9 {
        '9'
    } else if n == 10 {
        'a'
    } else if n == 11 {
        'b'
    } else if n == 12 {
        'c'
    } else if n == 13 {
        'd'
    } else if n == 14 {
        'e'
    } else {
        'f'
    }
}

/// Whether a character is a hex digit, in either case.
pub open spec fn is_hex_digit(c: char) -> bool {
    (48 <= c as u32 && c as u32 <= 57) || (97 <= c as u32 && c as u32 <= 102) || (65 <= c as u32
        && c as u32 <= 70)
}

/// The value a hex digit denotes, in either case.
pub open spec fn hex_val(c: char) -> u8 {
    if 48 <= c as u32 && c as u32 <= 57 {
        (c as u32 - 48) as u8
    } else if 97 <= c as u32 && c as u32 <= 102 {
        (c as u32 - 87) as u8
    } else {
        (c as u32 - 55) as u8
    }
}

/// Lowercase hex encoding: two digits for each byte, high nibble first.
pub open spec fn hex_of(b: Seq<u8>) -> Seq<char>
    decreases b.len(),
{
    if b.len() == 0 {
        Seq::empty()
    } else {
        seq![hex_digit(b[0] / 16), hex_digit(b[0] % 16)] + hex_of(b.skip(1))
    }
}

/// Whether a sequence of characters is a well-formed hex string:
/// even length, hex digits throughout.
pub open spec fn is_hex_str(s: Seq<char>) -> bool {
    s.len() % 2 == 0 && (forall|i: int| 0 <= i < s.len() ==> is_hex_digit(#[trigger] s[i]))
}

/// The bytes a well-formed hex string denotes, case-insensitively.
pub open spec fn hex_decoded(s: Seq<char>) -> Seq<u8>
    decreases s.len(),
{
    if s.len() < 2 {
        Seq::empty()
    } else {
        seq![(hex_val(s[0]) * 16 + hex_val(s[1])) as u8] + hex_decoded(s.skip(2))
    }
}

/// A hex encoding is twice as long as the bytes it encodes.
pub proof fn lemma_hex_of_len(b: Seq<u8>)
    ensures
        hex_of(b).len() == 2 * b.len(),
    decreases b.len(),
{
    if b.len() > 0 {
        lemma_hex_of_len(b.skip(1));
    }
}

proof fn lemma_hex_digit_val(n: u8)
    requires
        n < 16,
    ensures
        is_hex_digit(hex_digit(n)),
        hex_val(hex_digit(n)) == n,
{
}

/// Encoding then decoding is the identity: the hex encoding of any byte
/// sequence is a well-formed hex string that denotes exactly those bytes.
pub proof fn lemma_hex_round_trip(b: Seq<u8>)
    ensures
        is_hex_str(hex_of(b)),
        hex_decoded(hex_of(b)) == b,
    decreases b.len(),
{
    if b.len() == 0 {
        assert(hex_decoded(hex_of(b)) =~= b);
    } else {
        let hi = b[0] / 16;
        let lo = b[0] % 16;
        lemma_hex_digit_val(hi);
        lemma_hex_digit_val(lo);
        lemma_hex_round_trip(b.skip(1));
        lemma_hex_of_len(b.skip(1));
        let s = hex_of(b);
        assert(s[0] == hex_digit(hi));
        assert(s[1] == hex_digit(lo));
        assert(s.skip(2) =~= hex_of(b.skip(1)));
        assert(hex_val(s[0]) * 16 + hex_val(s[1]) == b[0]);
        assert(hex_decoded(s) =~= b);
        assert forall|i: int| 0 <= i < s.len() implies is_hex_digit(s[i]) by {
            if i >= 2 {
                assert(s[i] == hex_of(b.skip(1))[i - 2]);
            }
        }
    }
}

/// Relies on hex::encode: lowercase hex, two digits for each byte, high
/// nibble first.
#[verifier::external_body]
pub(crate) fn encode_hex(data: &[u8]) -> (r: String)
    ensures
        r@ == hex_of(data@),
{
    hex::encode(data)
}

#[verifier::external_type_specification]
#[verifier::external_body]
pub struct ExFromHexError(hex::FromHexError);

/// Relies on hex::decode: succeeds exactly on even-length strings of hex
/// digits (either case accepted) and returns the bytes they denote.
#[verifier::external_body]
pub(crate) fn decode_hex(s: &str) -> (r: Result<Vec<u8>, hex::FromHexError>)
    ensures
        r is Ok <==> is_hex_str(s@),
        r is Ok ==> (r->Ok_0)@ == hex_decoded(s@),
{
    hex::decode(s)
}

} // verus!
