//! Lower-case hexadecimal: two digits for each byte, the upper half of the byte first.

use vstd::prelude::*;
use vstd::utf8::{
    is_leading_byte_width_1, partial_valid_utf8, partial_valid_utf8_extend_ascii_block, valid_utf8,
};

verus! {

/// The error of `subtle_encoding`, which nothing here looks into.
#[verifier::external_type_specification]
#[verifier::external_body]
pub struct ExEncodingError(subtle_encoding::Error);

/// The digit that writes `nibble`, for `nibble` below sixteen: `0` to `9`, then `a` to `f`.
pub open spec fn hex_digit(nibble: int) -> u8 {
    if nibble < 10 {
        (0x30 + nibble) as u8
    } else {
        (0x57 + nibble) as u8
    }
}

/// Whether `c` is one of the sixteen digits.
pub open spec fn is_hex_digit(c: u8) -> bool {
    (0x30 <= c && c <= 0x39) || (0x61 <= c && c <= 0x66)
}

/// The value of the digit `c`.
pub open spec fn hex_digit_value(c: u8) -> int {
    if c <= 0x39 {
        c - 0x30
    } else {
        c - 0x57
    }
}

/// The hexadecimal text of `bytes`.
pub open spec fn hex_text(bytes: Seq<u8>) -> Seq<u8> {
    Seq::new(
        2 * bytes.len(),
        |i: int|
            if i % 2 == 0 {
                hex_digit(bytes[i / 2] as int / 16)
            } else {
                hex_digit(bytes[i / 2] as int % 16)
            },
    )
}

/// Whether `text` is hexadecimal: digits only, and an even number of them.
pub open spec fn is_hex_text(text: Seq<u8>) -> bool {
    &&& text.len() % 2 == 0
    &&& forall|i: int| 0 <= i < text.len() ==> is_hex_digit(#[trigger] text[i])
}

/// The bytes that the hexadecimal `text` stands for.
pub open spec fn hex_bytes(text: Seq<u8>) -> Seq<u8> {
    Seq::new(
        text.len() / 2,
        |i: int| (16 * hex_digit_value(text[2 * i]) + hex_digit_value(text[2 * i + 1])) as u8,
    )
}

/// What reading `text` as hexadecimal gives.
pub open spec fn hex_decoded(text: Seq<u8>) -> Option<Seq<u8>> {
    if is_hex_text(text) {
        Some(hex_bytes(text))
    } else {
        None
    }
}

/// The hexadecimal text of any bytes reads back as those bytes.
pub proof fn lemma_hex_round_trip(bytes: Seq<u8>)
    ensures
        hex_decoded(hex_text(bytes)) == Some(bytes),
{
    let text = hex_text(bytes);
    assert(is_hex_text(text));
    assert(hex_bytes(text) =~= bytes);
}

/// A hexadecimal text is the hexadecimal text of the bytes that it stands for, so no two
/// hexadecimal texts stand for the same bytes.
pub proof fn lemma_hex_text_of_hex_bytes(text: Seq<u8>)
    requires
        is_hex_text(text),
    ensures
        hex_text(hex_bytes(text)) == text,
{
    let again = hex_text(hex_bytes(text));
    assert forall|i: int| 0 <= i < text.len() implies again[i] == text[i] by {
        let k = i / 2;
        assert(is_hex_digit(text[2 * k]) && is_hex_digit(text[2 * k + 1]));
        let upper = hex_digit_value(text[2 * k]);
        let lower = hex_digit_value(text[2 * k + 1]);
        assert(hex_bytes(text)[k] == 16 * upper + lower);
        assert((16 * upper + lower) / 16 == upper && (16 * upper + lower) % 16 == lower);
    }
    assert(again =~= text);
}

/// What is hexadecimal is text: its bytes are ASCII, so they are well-formed UTF-8.
pub proof fn lemma_hex_is_text(text: Seq<u8>)
    requires
        is_hex_text(text),
    ensures
        valid_utf8(text),
{
    assert forall|i: int| 0 <= i < text.len() implies is_leading_byte_width_1(
        #[trigger] text[i],
    ) by {
        assert(is_hex_digit(text[i]));
    }
    assert(partial_valid_utf8(text, 0)) by {
        assert(text.subrange(0, 0) =~= Seq::<u8>::empty());
    }
    partial_valid_utf8_extend_ascii_block(text, 0, text.len() as int);
    assert(text.subrange(0, text.len() as int) =~= text);
}

/// The hexadecimal text of any bytes is text.
pub proof fn lemma_hex_text_is_text(bytes: Seq<u8>)
    ensures
        valid_utf8(hex_text(bytes)),
{
    lemma_hex_round_trip(bytes);
    lemma_hex_is_text(hex_text(bytes));
}

/// `hex::encode` of `subtle_encoding`: for each byte the digit of its upper half, then
/// the digit of its lower half, in lower case. The source doubles the length, which
/// cannot overflow for a slice, and allocates the result.
#[verifier::external_body]
pub(crate) fn hex_encode(bytes: &[u8]) -> (text: Vec<u8>)
    ensures
        text@ == hex_text(bytes@),
{
    subtle_encoding::hex::encode(bytes)
}

/// `hex::decode` of `subtle_encoding`: it refuses a text of odd length and one that holds
/// anything but the digits `0` to `9` and `a` to `f`, and gives one byte for each two
/// digits of any other.
#[verifier::external_body]
pub(crate) fn hex_decode(text: &[u8]) -> (r: Result<Vec<u8>, subtle_encoding::Error>)
    ensures
        r is Ok <==> is_hex_text(text@),
        r matches Ok(bytes) ==> bytes@ == hex_bytes(text@),
{
    subtle_encoding::hex::decode(text)
}

} // verus!
