//! Hexadecimal encoding and decoding, as used by the signature header.
//!
//! The executable decoding is done by the `hex` crate; this module pins its
//! behaviour down with exact specification functions and proves that
//! encoding and decoding round-trip.

use vstd::prelude::*;

verus! {

/// Whether `c` is a hexadecimal digit, in either letter case.
pub open spec fn is_hex_digit(c: char) -> bool {
    ('0' <= c && c <= '9') || ('a' <= c && c <= 'f') || ('A' <= c && c <= 'F')
}

/// The numeric value of the hexadecimal digit `c`.
pub open spec fn hex_digit_value(c: char) -> nat
    recommends
        is_hex_digit(c),
{
    if '0' <= c && c <= '9' {
        (c as nat - '0' as nat) as nat
    } else if 'a' <= c && c <= 'f' {
        (c as nat - 'a' as nat + 10) as nat
    } else {
        (c as nat - 'A' as nat + 10) as nat
    }
}

/// Whether `s` is a well-formed hexadecimal string: an even number of
/// characters, every one of them a hexadecimal digit.
pub open spec fn hex_ok(s: Seq<char>) -> bool {
    s.len() % 2 == 0 && (forall|i: int| 0 <= i < s.len() ==> is_hex_digit(s[i]))
}

/// The bytes denoted by the hexadecimal string `s`, two digits per byte,
/// the first digit of each pair carrying the high four bits.
pub open spec fn hex_decode_spec(s: Seq<char>) -> Seq<u8>
    decreases s.len(),
{
    if s.len() < 2 {
        Seq::empty()
    } else {
        seq![((hex_digit_value(s[0]) * 16 + hex_digit_value(s[1])) % 256) as u8] + hex_decode_spec(
            s.skip(2),
        )
    }
}

/// The lower-case hexadecimal digit for the value `v`.
pub open spec fn hex_digit_char(v: nat) -> char
    recommends
        v < 16,
{
    if v == 0 {
        '0'
    } else if v == 1 {
        '1'
    } else if v == 2 {
        '2'
    } else if v == 3 {
        '3'
    } else if v == 4 {
        '4'
    } else if v == 5 {
        '5'
    } else if v == 6 {
        '6'
    } else if v == 7 {
        '7'
    } else if v == 8 {
        '8'
    } else if v == 9 {
        '9'
    } else if v == 10 {
        'a'
    } else if v == 11 {
        'b'
    } else if v == 12 {
        'c'
    } else if v == 13 {
        'd'
    } else if v == 14 {
        'e'
    } else {
        'f'
    }
}

/// The lower-case hexadecimal rendering of the bytes `b`, two digits each.
pub open spec fn hex_encode_spec(b: Seq<u8>) -> Seq<char>
    decreases b.len(),
{
    if b.len() == 0 {
        Seq::empty()
    } else {
        seq![hex_digit_char((b[0] / 16) as nat), hex_digit_char((b[0] % 16) as nat)]
            + hex_encode_spec(b.skip(1))
    }
}

/// Each digit character the encoding emits is a hexadecimal digit and
/// carries the value it was made from.
proof fn lemma_hex_digit_char_value(v: nat)
    requires
        v < 16,
    ensures
        is_hex_digit(hex_digit_char(v)),
        hex_digit_value(hex_digit_char(v)) == v,
{
}

/// Encoding then decoding gives the original bytes back, and the encoding
/// is always a well-formed hexadecimal string.
pub proof fn lemma_hex_round_trip(b: Seq<u8>)
    ensures
        hex_ok(hex_encode_spec(b)),
        hex_decode_spec(hex_encode_spec(b)) == b,
    decreases b.len(),
{
    if b.len() == 0 {
        assert(hex_decode_spec(hex_encode_spec(b)) =~= b);
    } else {
        let hi = (b[0] / 16) as nat;
        let lo = (b[0] % 16) as nat;
        lemma_hex_digit_char_value(hi);
        lemma_hex_digit_char_value(lo);
        lemma_hex_round_trip(b.skip(1));
        let enc = hex_encode_spec(b);
        assert(enc.skip(2) =~= hex_encode_spec(b.skip(1)));
        assert(enc.len() % 2 == 0) by {
            assert(enc.len() == 2 + hex_encode_spec(b.skip(1)).len());
        }
        assert(forall|i: int| 0 <= i < enc.len() ==> is_hex_digit(enc[i])) by {
            assert(forall|i: int|
                2 <= i < enc.len() ==> enc[i] == hex_encode_spec(b.skip(1))[i - 2]);
        }
        assert((hex_digit_value(enc[0]) * 16 + hex_digit_value(enc[1])) % 256 == b[0]);
        assert(hex_decode_spec(hex_encode_spec(b)) =~= b);
    }
}

/// Relies on `hex::decode`: it accepts digits of both letter cases, fails
/// exactly on input of odd length or with a character that is not a
/// hexadecimal digit, and otherwise yields one byte per digit pair. Hex
/// digits are one byte each in UTF-8 and the bytes of any other character
/// are never in the digits' range, so the byte-level behaviour of the crate
/// coincides with this character-level statement.
#[verifier::external_body]
fn hex_decode_str(s: &str) -> (r: Option<Vec<u8>>)
    ensures
        match r {
            Some(b) => hex_ok(s@) && b@ == hex_decode_spec(s@),
            None => !hex_ok(s@),
        },
{
    hex::decode(s).ok()
}

/// Decodes a hexadecimal string: `Some` exactly on an even number of
/// hexadecimal digits, yielding one byte per digit pair.
pub fn hex_decode(s: &str) -> (r: Option<Vec<u8>>)
    ensures
        match r {
            Some(b) => hex_ok(s@) && b@ == hex_decode_spec(s@),
            None => !hex_ok(s@),
        },
{
    hex_decode_str(s)
}

} // verus!
