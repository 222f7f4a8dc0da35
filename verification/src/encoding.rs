//! Trusted wrappers around the text encodings the service relies on:
//! lower-case hex, standard base64 with padding, and the UTF-8/UTF-16 string
//! conversions.

use vstd::prelude::*;
use vstd::utf8::{decode_utf8, valid_utf8};
use base64::Engine;

verus! {

/// The lower-case hex digit for a value below 16.
pub open spec fn hex_digit(n: int) -> char
    recommends
        0 <= n < 16,
{
    seq!['0', '1', '2', '3', '4', '5', '6', '7', '8', '9', 'a', 'b', 'c', 'd', 'e', 'f'][n]
}

/// The lower-case hex encoding of a byte sequence: two digits per byte, high
/// nibble first.
pub open spec fn hex_of(bytes: Seq<u8>) -> Seq<char>
    decreases bytes.len(),
{
    if bytes.len() == 0 {
        Seq::empty()
    } else {
        seq![
            hex_digit((bytes.first() >> 4) as int),
            hex_digit((bytes.first() & 0x0f) as int),
        ] + hex_of(bytes.drop_first())
    }
}

/// The value of one hex digit, upper or lower case.
pub open spec fn hex_val(c: char) -> Option<u8> {
    let n = c as u32;
    if 48 <= n <= 57 {
        Some((n - 48) as u8)
    } else if 97 <= n <= 102 {
        Some((n - 87) as u8)
    } else if 65 <= n <= 70 {
        Some((n - 55) as u8)
    } else {
        None
    }
}

/// The bytes denoted by a hex string: defined exactly on even-length strings
/// of hex digits, case-insensitive.
pub open spec fn hex_decode_spec(s: Seq<char>) -> Option<Seq<u8>>
    decreases s.len(),
{
    if s.len() == 0 {
        Some(Seq::empty())
    } else if s.len() == 1 {
        None
    } else {
        match (hex_val(s[0]), hex_val(s[1])) {
            (Some(h), Some(l)) => match hex_decode_spec(s.skip(2)) {
                Some(rest) => Some(seq![(h * 16 + l) as u8] + rest),
                None => None,
            },
            _ => None,
        }
    }
}

/// Relies on hex::encode: two lower-case digits per input byte, high nibble
/// first.
#[verifier::external_body]
pub fn hex_encode(data: &[u8]) -> (r: String)
    ensures
        r@ == hex_of(data@),
{
    hex::encode(data)
}

/// Relies on hex::decode: accepts exactly the even-length strings of hex
/// digits (either case), two digits per byte, high nibble first.
#[verifier::external_body]
pub fn hex_decode(s: &str) -> (r: Option<Vec<u8>>)
    ensures
        r matches Some(v) ==> hex_decode_spec(s@) == Some(v@),
        r is None ==> hex_decode_spec(s@) is None,
{
    hex::decode(s).ok()
}

/// Decoding the lower-case hex encoding of any byte sequence gives back that
/// sequence.
pub proof fn lemma_hex_of_decodes(bytes: Seq<u8>)
    ensures
        hex_decode_spec(hex_of(bytes)) == Some(bytes),
    decreases bytes.len(),
{
    if bytes.len() == 0 {
        assert(hex_of(bytes) =~= Seq::empty());
    } else {
        let b = bytes.first();
        let s = hex_of(bytes);
        lemma_hex_of_decodes(bytes.drop_first());
        assert(b >> 4 < 16 && b & 0x0f < 16) by (bit_vector);
        assert(((b >> 4) * 16 + (b & 0x0f)) as u8 == b) by (bit_vector);
        assert(s.skip(2) =~= hex_of(bytes.drop_first()));
        assert(hex_decode_spec(s) == Some(seq![b] + bytes.drop_first()));
        assert(seq![b] + bytes.drop_first() =~= bytes);
    }
}

/// The standard base64 encoding (with padding) of a byte sequence.
pub uninterp spec fn base64_of(bytes: Seq<u8>) -> Seq<char>;

/// Relies on base64's BASE64_STANDARD engine (Engine::encode): standard
/// alphabet, padded — four output characters for every started group of
/// three input bytes; a function of the input bytes alone.
#[verifier::external_body]
pub fn base64_encode(data: &[u8]) -> (r: String)
    ensures
        r@ == base64_of(data@),
        r@.len() == 4 * ((data@.len() + 2) / 3),
{
    base64::prelude::BASE64_STANDARD.encode(data)
}

/// Relies on base64's BASE64_STANDARD engine (Engine::decode): the default
/// config requires canonical padding and rejects set trailing bits, so a
/// string decodes successfully exactly when it is the canonical encoding of
/// some byte sequence, and decoding inverts encoding.
#[verifier::external_body]
pub fn base64_decode(s: &str) -> (r: Option<Vec<u8>>)
    ensures
        r matches Some(v) ==> s@ == base64_of(v@),
        (exists|b: Seq<u8>| s@ == base64_of(b)) ==> r is Some,
        r matches Some(v) ==> forall|b: Seq<u8>| s@ == base64_of(b) ==> v@ == b,
{
    base64::prelude::BASE64_STANDARD.decode(s).ok()
}

/// Relies on String::from_utf8: succeeds exactly on valid UTF-8, and returns
/// the string whose characters are the decoding of the bytes. vstd's
/// `valid_utf8` and `decode_utf8` state UTF-8 as the standard defines it.
#[verifier::external_body]
pub fn string_from_utf8(v: Vec<u8>) -> (r: Option<String>)
    ensures
        r is Some <==> valid_utf8(v@),
        r matches Some(s) ==> s@ == decode_utf8(v@),
{
    String::from_utf8(v).ok()
}

/// The characters denoted by a sequence of UTF-16 code units, where the
/// sequence is well-formed UTF-16.
pub uninterp spec fn utf16_chars_of(units: Seq<u16>) -> Option<Seq<char>>;

/// Relies on String::from_utf16: succeeds exactly on well-formed UTF-16, a
/// function of the code units alone.
#[verifier::external_body]
pub fn string_from_utf16(units: &[u16]) -> (r: Option<String>)
    ensures
        r matches Some(s) ==> utf16_chars_of(units@) == Some(s@),
        r is None ==> utf16_chars_of(units@) is None,
{
    String::from_utf16(units).ok()
}

} // verus!
