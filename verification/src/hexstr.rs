//! Hex framing for gateway wire values: bitcoin transactions and
//! addresses travel as consensus-encoded hex in human-readable form.
//! The byte-to-digit correspondence is stated exactly and the decode of
//! an encode is proved to give the bytes back.

use vstd::prelude::*;

verus! {

/// Errors of hex decoding.
#[derive(Debug, Clone, Copy, PartialEq, Eq)]
pub enum HexError {
    /// The input length was odd: two digits make one byte.
    OddLength,
    /// A character was not a hex digit.
    InvalidHexCharacter {
        /// The offending character.
        c: char,
        /// Its position in the input.
        index: usize,
    },
    /// The input did not fit a fixed-size target.
    InvalidStringLength,
}

/// Whether `c` is a hex digit, upper or lower case.
pub open spec fn spec_is_hex_digit(c: char) -> bool {
    (48 <= c as u32 && c as u32 <= 57) || (97 <= c as u32 && c as u32 <= 102) || (65 <= c as u32
        && c as u32 <= 70)
}

/// The value of a hex digit.
pub open spec fn spec_hex_val(c: char) -> int {
    if 48 <= c as u32 && c as u32 <= 57 {
        c as u32 - 48
    } else if 97 <= c as u32 && c as u32 <= 102 {
        c as u32 - 87
    } else if 65 <= c as u32 && c as u32 <= 70 {
        c as u32 - 55
    } else {
        0
    }
}

/// The lowercase digit for a value below sixteen.
pub open spec fn spec_hex_digit_lower(n: u8) -> char {
    if n == 0 {
        '0'
    } else if n == 1 {
        '1'
    } else if n == 2 {
        '2'
    } else if n == 3 {
        '3'
    } else if n == 4 {
        '4'
    } else if n == 5 {
        '5'
    } else if n == 6 {
        '6'
    } else if n == 7 {
        '7'
    } else if n == 8 {
        '8'
    } else if n == 9 {
        '9'
    } else if n == 10 {
        'a'
    } else if n == 11 {
        'b'
    } else if n == 12 {
        'c'
    } else if n == 13 {
        'd'
    } else if n == 14 {
        'e'
    } else {
        'f'
    }
}

/// The lowercase hex encoding of a byte string: high nibble first.
pub open spec fn spec_hex_of(b: Seq<u8>) -> Seq<char> {
    Seq::new(
        2 * b.len(),
        |i: int|
            if i % 2 == 0 {
                spec_hex_digit_lower(b[i / 2] >> 4)
            } else {
                spec_hex_digit_lower(b[i / 2] & 0x0f)
            },
    )
}

/// Whether a character string is decodable hex: even length, digits
/// only.
pub open spec fn spec_is_hex_string(s: Seq<char>) -> bool {
    s.len() % 2 == 0 && forall|i: int| 0 <= i < s.len() ==> spec_is_hex_digit(#[trigger] s[i])
}

/// The bytes a hex string decodes to.
pub open spec fn spec_hex_bytes(s: Seq<char>) -> Seq<u8> {
    Seq::new(
        s.len() / 2,
        |i: int| ((spec_hex_val(s[2 * i]) * 16 + spec_hex_val(s[2 * i + 1])) as u8),
    )
}

/// Relies on hex::encode: every input byte becomes exactly its two
/// lowercase hex digits, high nibble first.
#[verifier::external_body]
fn hex_encode_raw(b: &Vec<u8>) -> (r: String)
    ensures
        r@ == spec_hex_of(b@),
{
    hex::encode(b)
}

/// Whether a character is ASCII.
pub open spec fn spec_ascii_char(c: char) -> bool {
    (c as u32) < 128
}

/// Whether every character of `s` is ASCII, so that its character
/// count equals its UTF-8 byte count.
pub open spec fn spec_all_ascii(s: Seq<char>) -> bool {
    forall|i: int| 0 <= i < s.len() ==> spec_ascii_char(#[trigger] s[i])
}

/// Relies on hex::decode: even-length strings of hex digits (upper or
/// lower case) decode to their bytes. The crate measures length in
/// UTF-8 bytes, so the odd-length discrimination is stated only for
/// all-ASCII inputs, where characters and bytes coincide; a non-ASCII
/// character is never a hex digit, so the first two clauses hold for
/// every input.
#[verifier::external_body]
fn hex_decode_raw(s: &str) -> (r: Result<Vec<u8>, HexError>)
    ensures
        r is Ok <==> spec_is_hex_string(s@),
        r matches Ok(b) ==> b@ == spec_hex_bytes(s@),
        spec_all_ascii(s@) ==> (r matches Err(e) ==> (e is OddLength <==> s@.len() % 2 != 0)),
{
    match hex::decode(s) {
        Ok(v) => Ok(v),
        Err(hex::FromHexError::OddLength) => Err(HexError::OddLength),
        Err(hex::FromHexError::InvalidHexCharacter { c, index }) => Err(
            HexError::InvalidHexCharacter { c, index },
        ),
        Err(hex::FromHexError::InvalidStringLength) => Err(HexError::InvalidStringLength),
    }
}

/// Encodes bytes as lowercase hex for the human-readable wire form.
pub fn encode_hex(b: &Vec<u8>) -> (r: String)
    ensures
        r@ == spec_hex_of(b@),
{
    hex_encode_raw(b)
}

/// Decodes a hex wire string back into bytes.
pub fn decode_hex(s: &str) -> (r: Result<Vec<u8>, HexError>)
    ensures
        r is Ok <==> spec_is_hex_string(s@),
        r matches Ok(b) ==> b@ == spec_hex_bytes(s@),
        spec_all_ascii(s@) ==> (r matches Err(e) ==> (e is OddLength <==> s@.len() % 2 != 0)),
{
    hex_decode_raw(s)
}

/// Round trip: the hex encoding of any byte string is decodable hex,
/// and decoding it yields the bytes back.
pub proof fn lemma_hex_round_trip(b: Seq<u8>)
    ensures
        spec_is_hex_string(spec_hex_of(b)),
        spec_hex_bytes(spec_hex_of(b)) =~= b,
{
    let s = spec_hex_of(b);
    assert forall|n: u8| (n >> 4) < 16 && (n & 0x0f) < 16 by {
        assert((n >> 4) < 16 && (n & 0x0f) < 16) by (bit_vector);
    }
    assert forall|m: u8| m < 16 implies spec_is_hex_digit(spec_hex_digit_lower(m)) by {
    }
    assert forall|i: int| 0 <= i < s.len() implies spec_is_hex_digit(#[trigger] s[i]) by {
        if i % 2 == 0 {
            assert(s[i] == spec_hex_digit_lower(b[i / 2] >> 4));
        } else {
            assert(s[i] == spec_hex_digit_lower(b[i / 2] & 0x0f));
        }
    }
    assert forall|m: u8| m < 16 implies spec_hex_val(spec_hex_digit_lower(m)) == m as int by {
    }
    assert forall|i: int|
        0 <= i < b.len() implies #[trigger] spec_hex_bytes(s)[i] == b[i] by {
        assert(s[2 * i] == spec_hex_digit_lower(b[i] >> 4));
        assert(s[2 * i + 1] == spec_hex_digit_lower(b[i] & 0x0f));
        assert(spec_hex_val(s[2 * i]) == (b[i] >> 4) as int);
        assert(spec_hex_val(s[2 * i + 1]) == (b[i] & 0x0f) as int);
        assert(((b[i] >> 4) as int * 16 + (b[i] & 0x0f) as int) as u8 == b[i]) by {
            let n = b[i];
            assert(((n >> 4) as int * 16 + (n & 0x0f) as int) == ((n >> 4) * 16 + (n
                & 0x0f)) as int) by {
                assert((n >> 4) < 16 && (n & 0x0f) < 16) by (bit_vector);
            }
            assert((n >> 4) * 16 + (n & 0x0f) == n) by (bit_vector);
        }
    }
}

} // verus!
