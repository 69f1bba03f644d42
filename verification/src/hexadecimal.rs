//! Hexadecimal notation.

use vstd::prelude::*;
use vstd::slice::slice_subrange;
use vstd::utf8::*;

use crate::error::FromHexError;

verus! {

/// The byte is a hexadecimal digit, in either case.
pub open spec fn is_hex(b: u8) -> bool {
    0x30 <= b <= 0x39 || 0x41 <= b <= 0x46 || 0x61 <= b <= 0x66
}

/// The value of a hexadecimal digit.
pub open spec fn hex_value(b: u8) -> int {
    if b <= 0x39 {
        b - 0x30
    } else if b <= 0x46 {
        b - 0x41 + 10
    } else {
        b - 0x61 + 10
    }
}

/// Every byte is a hexadecimal digit.
pub open spec fn all_hex(text: Seq<u8>) -> bool {
    forall|i: int| 0 <= i < text.len() ==> is_hex(#[trigger] text[i])
}

/// The place is that of the first byte that is no hexadecimal digit.
pub open spec fn is_first_stray(text: Seq<u8>, i: int) -> bool {
    &&& 0 <= i < text.len()
    &&& !is_hex(text[i])
    &&& forall|j: int| 0 <= j < i ==> is_hex(#[trigger] text[j])
}

/// The bytes that a text of hexadecimal digits stands for, two digits for each, the higher one
/// first.
pub open spec fn paired(text: Seq<u8>) -> Seq<u8> {
    Seq::new(
        text.len() / 2,
        |i: int| (16 * hex_value(text[2 * i]) + hex_value(text[2 * i + 1])) as u8,
    )
}

/// What a text in hexadecimal notation stands for, or why it is none: an odd length is noticed
/// first, then the first byte that is no digit.
pub open spec fn hex_decoded(text: Seq<u8>) -> Result<Seq<u8>, FromHexError> {
    if text.len() % 2 != 0 {
        Err(FromHexError::OddLength)
    } else if all_hex(text) {
        Ok(paired(text))
    } else {
        let i = choose|i: int| is_first_stray(text, i);
        Err(FromHexError::InvalidHexCharacter { c: text[i] as char, index: i as usize })
    }
}

/// `hex::decode`: reads pairs of hexadecimal digits of either case as bytes. The error is one
/// for an odd length, else one for the first byte that is no digit.
#[verifier::external_body]
pub(crate) fn decode(text: &[u8]) -> (res: Result<Vec<u8>, FromHexError>)
    ensures
        hex_decoded(text@) == (match res {
            Ok(bytes) => Ok(bytes@),
            Err(error) => Err(error),
        }),
{
    match hex::decode(text) {
        Ok(bytes) => Ok(bytes),
        Err(hex::FromHexError::InvalidHexCharacter { c, index }) =>
            Err(FromHexError::InvalidHexCharacter { c, index }),
        Err(hex::FromHexError::OddLength) => Err(FromHexError::OddLength),
        Err(hex::FromHexError::InvalidStringLength) => Err(FromHexError::InvalidStringLength),
    }
}

/// The text without the prefixes `0x` that it starts with, however many.
pub open spec fn without_prefixes(text: Seq<char>) -> Seq<char>
    decreases text.len(),
{
    if text.len() >= 2 && text[0] == '0' && text[1] == 'x' {
        without_prefixes(text.skip(2))
    } else {
        text
    }
}

/// A text starts with an ASCII character exactly where its bytes start with an ASCII byte, which
/// is then that character; the bytes behind it are those of the rest.
proof fn lemma_first_byte(text: Seq<char>)
    requires
        text.len() > 0,
    ensures
        encode_utf8(text).len() > 0,
        (encode_utf8(text)[0] < 0x80) <==> (text[0] as u32) < 0x80,
        (text[0] as u32) < 0x80 ==> {
            &&& encode_utf8(text)[0] == text[0] as u32
            &&& encode_utf8(text).skip(1) == encode_utf8(text.drop_first())
        },
{
    let c = text[0] as u32;
    char_is_scalar(text[0]);
    assert(has_width_1_encoding(c) ==> leading_byte_width_1(c) == c) by (bit_vector);
    assert(leading_byte_width_2(c) >= 0x80) by (bit_vector);
    assert(leading_byte_width_3(c) >= 0x80) by (bit_vector);
    assert(leading_byte_width_4(c) >= 0x80) by (bit_vector);
    if c < 0x80 {
        assert(encode_utf8(text).skip(1) =~= encode_utf8(text.drop_first()));
    }
}

/// A text starts with `0x` exactly where its bytes do.
proof fn lemma_prefix_bytes(text: Seq<char>)
    ensures
        ({
            let bytes = encode_utf8(text);
            bytes.len() >= 2 && bytes[0] == 0x30 && bytes[1] == 0x78
        }) <==> text.len() >= 2 && text[0] == '0' && text[1] == 'x',
        text.len() >= 2 && text[0] == '0' && text[1] == 'x' ==> encode_utf8(text.skip(2))
            == encode_utf8(text).skip(2),
{
    let bytes = encode_utf8(text);
    if text.len() > 0 {
        lemma_first_byte(text);
        let rest = text.drop_first();
        if (text[0] as u32) < 0x80 {
            assert(bytes.skip(1).len() == bytes.len() - 1);
            assert(bytes.len() >= 2 ==> bytes[1] == bytes.skip(1)[0]);
            if rest.len() == 0 {
                assert(encode_utf8(rest).len() == 0);
            } else {
                lemma_first_byte(rest);
                assert(rest[0] == text[1]);
                assert(text.skip(2) == rest.drop_first());
                assert(bytes.skip(2) == bytes.skip(1).skip(1));
                char_u32_cast(text[0], text[0] as u32);
                char_u32_cast(text[1], text[1] as u32);
                assert(0x30u32 as char == '0' && 0x78u32 as char == 'x');
            }
        }
    }
}

/// Cuts the prefixes `0x` off a text and gives the bytes of what is left.
pub fn strip_prefixes(text: &str) -> (bytes: &[u8])
    ensures
        bytes@ == encode_utf8(without_prefixes(text@)),
{
    let bytes = text.as_bytes();
    let mut start: usize = 0;
    let ghost mut rest = text@;
    assert(bytes@.skip(0) == bytes@);
    while bytes.len() - start >= 2 && bytes[start] == 0x30 && bytes[start + 1] == 0x78
        invariant
            start <= bytes@.len(),
            bytes@.skip(start as int) == encode_utf8(rest),
            without_prefixes(rest) == without_prefixes(text@),
        decreases bytes@.len() - start,
    {
        proof {
            lemma_prefix_bytes(rest);
            assert(bytes@.skip(start as int)[0] == 0x30);
            assert(bytes@.skip(start as int)[1] == 0x78);
            assert(bytes@.skip(start as int).skip(2) == bytes@.skip(start as int + 2));
            rest = rest.skip(2);
        }
        start = start + 2;
    }
    proof {
        lemma_prefix_bytes(rest);
        let left = bytes@.skip(start as int);
        assert(left.len() >= 1 ==> left[0] == bytes@[start as int]);
        assert(left.len() >= 2 ==> left[1] == bytes@[start as int + 1]);
        assert(left == bytes@.subrange(start as int, bytes@.len() as int));
    }
    slice_subrange(bytes, start, bytes.len())
}

} // verus!
