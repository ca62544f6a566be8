//! Lowercase hexadecimal text, as produced and accepted by the `hex` crate.

use vstd::prelude::*;

verus! {

/// The lowercase hex digit for a nibble `n < 16`.
pub open spec fn hex_char(n: u8) -> char {
    if n == 0 { '0' }
    else if n == 1 { '1' }
    else if n == 2 { '2' }
    else if n == 3 { '3' }
    else if n == 4 { '4' }
    else if n == 5 { '5' }
    else if n == 6 { '6' }
    else if n == 7 { '7' }
    else if n == 8 { '8' }
    else if n == 9 { '9' }
    else if n == 10 { 'a' }
    else if n == 11 { 'b' }
    else if n == 12 { 'c' }
    else if n == 13 { 'd' }
    else if n == 14 { 'e' }
    else { 'f' }
}

/// The value of a hex digit of either case; `None` for any other character.
pub open spec fn hex_value(c: char) -> Option<u8> {
    if '0' <= c && c <= '9' {
        Some((c as u32 - '0' as u32) as u8)
    } else if 'a' <= c && c <= 'f' {
        Some((c as u32 - 'a' as u32 + 10) as u8)
    } else if 'A' <= c && c <= 'F' {
        Some((c as u32 - 'A' as u32 + 10) as u8)
    } else {
        None
    }
}

/// Two lowercase hex digits per byte, high nibble first.
pub open spec fn hex_encode_spec(bytes: Seq<u8>) -> Seq<char> {
    Seq::new(
        2 * bytes.len(),
        |i: int|
            if i % 2 == 0 {
                hex_char(bytes[i / 2] / 16)
            } else {
                hex_char(bytes[i / 2] % 16)
            },
    )
}

/// A text decodes when it has an even number of characters, all hex digits
/// (of either case); each pair of digits gives one byte.
pub open spec fn hex_decodable(s: Seq<char>) -> bool {
    &&& s.len() % 2 == 0
    &&& forall|i: int| 0 <= i < s.len() ==> (#[trigger] hex_value(s[i])) is Some
}

pub open spec fn hex_decode_spec(s: Seq<char>) -> Option<Seq<u8>> {
    if hex_decodable(s) {
        Some(
            Seq::new(
                s.len() / 2,
                |i: int|
                    (hex_value(s[2 * i])->0 * 16 + hex_value(s[2 * i + 1])->0) as u8,
            ),
        )
    } else {
        None
    }
}

/// The error type of the `hex` crate.
#[verifier::external_type_specification]
#[verifier::external_body]
pub struct ExFromHexError(::hex::FromHexError);

/// Calls `hex::encode`, which writes each byte as two lowercase hex digits,
/// high nibble first.
#[verifier::external_body]
pub(crate) fn hex_encode(bytes: &[u8]) -> (r: String)
    ensures
        r@ == hex_encode_spec(bytes@),
{
    ::hex::encode(bytes)
}

/// Calls `hex::decode`. It fails when the byte length of the text is odd or
/// when a byte is not an ASCII hex digit of either case; otherwise each pair of
/// digits becomes one byte. A text with a non-ASCII character always fails, so
/// success is exactly `hex_decodable` of the characters.
#[verifier::external_body]
pub(crate) fn hex_decode(s: &str) -> (r: Result<Vec<u8>, ::hex::FromHexError>)
    ensures
        r is Ok <==> hex_decodable(s@),
        r matches Ok(v) ==> Some(v@) == hex_decode_spec(s@),
{
    ::hex::decode(s)
}

/// The lowercase hex text of bytes: two digits per byte, high nibble first.
pub fn encode_hex(bytes: &[u8]) -> (r: String)
    ensures
        r@ == hex_encode_spec(bytes@),
{
    hex_encode(bytes)
}

proof fn lemma_hex_char_value(n: u8)
    requires
        n < 16,
    ensures
        hex_value(hex_char(n)) == Some(n),
{
}

/// Decoding the hex encoding of any bytes gives the bytes back.
pub proof fn lemma_hex_roundtrip(bytes: Seq<u8>)
    ensures
        hex_decodable(hex_encode_spec(bytes)),
        hex_decode_spec(hex_encode_spec(bytes)) == Some(bytes),
{
    let s = hex_encode_spec(bytes);
    assert forall|i: int| 0 <= i < s.len() implies (#[trigger] hex_value(s[i])) is Some by {
        if i % 2 == 0 {
            lemma_hex_char_value(bytes[i / 2] / 16);
        } else {
            lemma_hex_char_value(bytes[i / 2] % 16);
        }
    }
    let d = hex_decode_spec(s)->0;
    assert forall|i: int| 0 <= i < bytes.len() implies d[i] == bytes[i] by {
        assert((2 * i) / 2 == i);
        assert((2 * i + 1) / 2 == i);
        assert((2 * i) % 2 == 0);
        assert((2 * i + 1) % 2 == 1);
        lemma_hex_char_value(bytes[i] / 16);
        lemma_hex_char_value(bytes[i] % 16);
    }
    assert(d =~= bytes);
}

} // verus!
