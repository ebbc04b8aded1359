//! Hexadecimal text as the `hex` crate reads and writes it.

use vstd::prelude::*;

verus! {

/// Why a hex text could not be decoded.
#[derive(Debug, Clone, Copy, PartialEq, Eq)]
pub enum HexDecodeError {
    /// The byte at `index` is not one of `0-9`, `a-f`, `A-F`; `c` is that byte read as a char.
    InvalidHexCharacter { c: char, index: usize },
    /// The text has an odd number of bytes.
    OddLength,
    /// The text does not fit the fixed-size target it was decoded into.
    InvalidStringLength,
}

/// The lowercase hex digit for a value below 16.
pub open spec fn hex_digit_char(v: u8) -> char {
    if v < 10 {
        (48 + v) as char
    } else {
        (87 + v) as char
    }
}

/// The lowercase hex text of `data`: two digits per byte, high nibble first.
pub open spec fn hex_encode_spec(data: Seq<u8>) -> Seq<char> {
    Seq::new(
        2 * data.len(),
        |i: int|
            if i % 2 == 0 {
                hex_digit_char(data[i / 2] >> 4)
            } else {
                hex_digit_char(data[i / 2] & 15)
            },
    )
}

/// Whether `b` is an ASCII hex digit of either case.
pub open spec fn is_hex_byte(b: u8) -> bool {
    (48 <= b <= 57) || (65 <= b <= 70) || (97 <= b <= 102)
}

/// The value of an ASCII hex digit.
pub open spec fn hex_byte_value(b: u8) -> u8 {
    if 48 <= b <= 57 {
        (b - 48) as u8
    } else if 65 <= b <= 70 {
        (b - 55) as u8
    } else {
        (b - 87) as u8
    }
}

/// Whether `text` decodes: an even number of bytes, every one a hex digit.
pub open spec fn hex_decodable(text: Seq<u8>) -> bool {
    &&& text.len() % 2 == 0
    &&& forall|i: int| 0 <= i < text.len() ==> is_hex_byte(#[trigger] text[i])
}

/// The bytes that a decodable `text` stands for.
pub open spec fn hex_decode_spec(text: Seq<u8>) -> Seq<u8> {
    Seq::new(
        text.len() / 2,
        |i: int| (hex_byte_value(text[2 * i]) * 16 + hex_byte_value(text[2 * i + 1])) as u8,
    )
}

/// The error that decoding `text` reports: odd length first, otherwise the first byte that is
/// not a hex digit.
pub open spec fn hex_decode_error_is(text: Seq<u8>, e: HexDecodeError) -> bool {
    if text.len() % 2 != 0 {
        e == HexDecodeError::OddLength
    } else {
        match e {
            HexDecodeError::InvalidHexCharacter { c, index } => {
                &&& index < text.len()
                &&& !is_hex_byte(text[index as int])
                &&& c == (text[index as int] as char)
                &&& forall|j: int| 0 <= j < index ==> is_hex_byte(#[trigger] text[j])
            },
            _ => false,
        }
    }
}

/// `hex::encode`: the lowercase hex text of `data`.
#[verifier::external_body]
pub(crate) fn hex_encode(data: &[u8]) -> (text: String)
    ensures
        text@ == hex_encode_spec(data@),
{
    hex::encode(data)
}

/// `hex::decode`: the bytes of a hex text given as bytes; both cases are accepted.
/// The error says why decoding failed, converted variant by variant from `hex::FromHexError`.
#[verifier::external_body]
pub(crate) fn hex_decode(text: &[u8]) -> (res: Result<Vec<u8>, HexDecodeError>)
    ensures
        match res {
            Ok(bytes) => hex_decodable(text@) && bytes@ == hex_decode_spec(text@),
            Err(e) => !hex_decodable(text@) && hex_decode_error_is(text@, e),
        },
{
    match hex::decode(text) {
        Ok(bytes) => Ok(bytes),
        Err(hex::FromHexError::InvalidHexCharacter { c, index }) => Err(
            HexDecodeError::InvalidHexCharacter { c, index },
        ),
        Err(hex::FromHexError::OddLength) => Err(HexDecodeError::OddLength),
        Err(hex::FromHexError::InvalidStringLength) => Err(HexDecodeError::InvalidStringLength),
    }
}

/// The text of a hex string as the bytes the `hex` crate reads: its UTF-8 encoding.
pub open spec fn text_bytes(text: Seq<char>) -> Seq<u8> {
    vstd::utf8::encode_utf8(text)
}

proof fn lemma_digit_round_trip(v: u8)
    requires
        v < 16,
    ensures
        (hex_digit_char(v) as u8) as int == hex_digit_char(v) as int,
        is_hex_byte(hex_digit_char(v) as u8),
        hex_byte_value(hex_digit_char(v) as u8) == v,
        hex_digit_char(v) <= '\u{7f}',
{
}

proof fn lemma_nibbles(b: u8)
    ensures
        b >> 4 < 16,
        b & 15 < 16,
        (((b >> 4) * 16 + (b & 15)) as u8) == b,
{
    assert(b >> 4 < 16 && b & 15 < 16 && (((b >> 4) * 16 + (b & 15)) as u8) == b) by (bit_vector);
}

/// Hex text written by the library is plain ASCII, so its bytes are its characters.
pub proof fn lemma_hex_text_bytes(data: Seq<u8>)
    ensures
        vstd::utf8::is_ascii_chars(hex_encode_spec(data)),
        text_bytes(hex_encode_spec(data)).len() == 2 * data.len(),
        forall|i: int|
            0 <= i < 2 * data.len() ==> #[trigger] text_bytes(hex_encode_spec(data))[i]
                == hex_encode_spec(data)[i] as u8,
{
    let chars = hex_encode_spec(data);
    assert forall|i: int| 0 <= i < chars.len() implies '\0' <= #[trigger] chars[i] <= '\u{7f}' by {
        lemma_nibbles(data[i / 2]);
        lemma_digit_round_trip(data[i / 2] >> 4);
        lemma_digit_round_trip(data[i / 2] & 15);
    }
    vstd::utf8::is_ascii_chars_encode_utf8(chars);
}

/// Decoding what the hex encoder wrote gives back the encoded bytes: every hex text the
/// library produces is decodable.
pub proof fn lemma_hex_round_trip(data: Seq<u8>)
    ensures
        hex_decodable(text_bytes(hex_encode_spec(data))),
        hex_decode_spec(text_bytes(hex_encode_spec(data))) == data,
{
    let chars = hex_encode_spec(data);
    let t = text_bytes(chars);
    lemma_hex_text_bytes(data);
    assert forall|i: int| 0 <= i < t.len() implies is_hex_byte(#[trigger] t[i]) by {
        lemma_nibbles(data[i / 2]);
        lemma_digit_round_trip(data[i / 2] >> 4);
        lemma_digit_round_trip(data[i / 2] & 15);
    }
    let d = hex_decode_spec(t);
    assert forall|i: int| 0 <= i < data.len() implies #[trigger] d[i] == data[i] by {
        assert(t[2 * i] == chars[2 * i] as u8);
        assert(t[2 * i + 1] == chars[2 * i + 1] as u8);
        assert((2 * i) / 2 == i);
        assert((2 * i + 1) / 2 == i);
        assert((2 * i) % 2 == 0);
        assert((2 * i + 1) % 2 == 1);
        lemma_nibbles(data[i]);
        lemma_digit_round_trip(data[i] >> 4);
        lemma_digit_round_trip(data[i] & 15);
    }
    assert(d =~= data);
}

/// Hex texts written by the library are equal exactly when the bytes they encode are: comparing
/// two content-hash texts compares the digests.
pub proof fn law_hex_text_identifies_bytes(a: Seq<u8>, b: Seq<u8>)
    ensures
        hex_encode_spec(a) == hex_encode_spec(b) <==> a == b,
{
    lemma_hex_round_trip(a);
    lemma_hex_round_trip(b);
}

} // verus!
