//! Signatures, and how they are read off the wire.

use vstd::prelude::*;
use vstd::string::*;
use vstd::utf8::*;

use crate::error::{
    RemoteSignerError, RemoteSignerErrorModel, SignatureError, SignatureErrorModel,
};
use crate::hexadecimal::{
    all_hex, decode, hex_decoded, hex_value, is_hex, paired, strip_prefixes, without_prefixes,
};

verus! {

/// An ECDSA signature with the parity of its point, its numbers in big-endian notation.
#[derive(Debug, Clone, Copy, PartialEq, Eq)]
pub struct Signature {
    pub r: [u8; 32],
    pub s: [u8; 32],
    pub y_parity: bool,
}

/// The model of a [`Signature`].
pub struct SignatureModel {
    pub r: Seq<u8>,
    pub s: Seq<u8>,
    pub y_parity: bool,
}

impl View for Signature {
    type V = SignatureModel;

    open spec fn view(&self) -> SignatureModel {
        SignatureModel { r: self.r@, s: self.s@, y_parity: self.y_parity }
    }
}

/// The parity that the last byte of a raw signature stands for: bare, in Electrum's notation, or
/// with a chain folded in. The bytes between these stand for none.
pub open spec fn parity_of(v: u8) -> Option<bool> {
    if v == 0 || v == 27 {
        Some(false)
    } else if v == 1 || v == 28 {
        Some(true)
    } else if v >= 35 {
        Some((v - 35) % 2 == 1)
    } else {
        None
    }
}

/// What a raw signature stands for, or why it is none.
pub open spec fn signature_from(bytes: Seq<u8>) -> Result<SignatureModel, SignatureErrorModel> {
    if bytes.len() != 65 {
        Err(SignatureErrorModel::FromBytes("expected exactly 65 bytes"@))
    } else {
        match parity_of(bytes[64]) {
            None => Err(SignatureErrorModel::InvalidParity(bytes[64] as u64)),
            Some(y_parity) => Ok(
                SignatureModel {
                    r: bytes.subrange(0, 32),
                    s: bytes.subrange(32, 64),
                    y_parity,
                },
            ),
        }
    }
}

/// `alloy_primitives::Signature::from_raw`: 32 bytes each for `r` and `s`, then one for the
/// parity. It returns no errors but for the length and for the parity.
#[verifier::external_body]
fn from_raw(bytes: &[u8]) -> (res: Result<Signature, SignatureError>)
    ensures
        signature_from(bytes@) == (match res {
            Ok(signature) => Ok(signature@),
            Err(error) => Err(error@),
        }),
{
    match alloy_primitives::Signature::from_raw(bytes) {
        Ok(sig) => Ok(
            Signature {
                r: sig.r().to_be_bytes::<32>(),
                s: sig.s().to_be_bytes::<32>(),
                y_parity: sig.v(),
            },
        ),
        Err(alloy_primitives::SignatureError::InvalidParity(v)) => Err(
            SignatureError::InvalidParity(v),
        ),
        Err(error) => Err(SignatureError::FromBytes(error.to_string())),
    }
}

/// What the text that a signing service answers with stands for: hexadecimal notation, with or
/// without the prefix `0x`, of exactly 65 bytes.
pub open spec fn signature_outcome(text: Seq<char>) -> Result<
    SignatureModel,
    RemoteSignerErrorModel,
> {
    match hex_decoded(encode_utf8(without_prefixes(text))) {
        Err(e) => Err(RemoteSignerErrorModel::InvalidSignatureHex(e)),
        Ok(bytes) => if bytes.len() != 65 {
            Err(RemoteSignerErrorModel::InvalidSignatureLength(bytes.len() as usize))
        } else {
            match signature_from(bytes) {
                Err(e) => Err(RemoteSignerErrorModel::SignatureError(e)),
                Ok(signature) => Ok(signature),
            }
        },
    }
}

/// Reads a signature out of the text that a signing service answers with.
pub fn parse_signature(text: &str) -> (res: Result<Signature, RemoteSignerError>)
    ensures
        signature_outcome(text@) == (match res {
            Ok(signature) => Ok(signature@),
            Err(error) => Err(error@),
        }),
{
    let bytes = match decode(strip_prefixes(text)) {
        Err(e) => return Err(RemoteSignerError::InvalidSignatureHex(e)),
        Ok(bytes) => bytes,
    };
    if bytes.len() != 65 {
        return Err(RemoteSignerError::InvalidSignatureLength(bytes.len()));
    }
    match from_raw(bytes.as_slice()) {
        Err(e) => Err(RemoteSignerError::from(e)),
        Ok(signature) => Ok(signature),
    }
}

/// The text is the hexadecimal notation of the bytes, in whatever mixture of cases.
pub open spec fn notates(text: Seq<char>, bytes: Seq<u8>) -> bool {
    &&& text.len() == 2 * bytes.len()
    &&& forall|i: int|
        0 <= i < text.len() ==> '\0' <= #[trigger] text[i] <= '\u{7f}' && is_hex(text[i] as u8)
    &&& forall|i: int|
        0 <= i < bytes.len() ==> #[trigger] bytes[i] == 16 * hex_value(text[2 * i] as u8)
            + hex_value(text[2 * i + 1] as u8)
}

/// A signature that is written in hexadecimal notation is read back as it was written, in either
/// case, wherever its last byte stands for a parity.
pub proof fn law_signature_read_back(text: Seq<char>, bytes: Seq<u8>)
    requires
        bytes.len() == 65,
        notates(text, bytes),
    ensures
        match parity_of(bytes[64]) {
            Some(y_parity) => signature_outcome(text) == Ok::<_, RemoteSignerErrorModel>(
                SignatureModel {
                    r: bytes.subrange(0, 32),
                    s: bytes.subrange(32, 64),
                    y_parity,
                },
            ),
            None => signature_outcome(text) == Err::<SignatureModel, RemoteSignerErrorModel>(
                RemoteSignerErrorModel::SignatureError(
                    SignatureErrorModel::InvalidParity(bytes[64] as u64),
                ),
            ),
        },
{
    assert(is_ascii_chars(text));
    is_ascii_chars_encode_utf8(text);
    let utf8 = encode_utf8(text);
    assert(text[1] != 'x') by {
        assert(is_hex(text[1] as u8));
    }
    assert(without_prefixes(text) == text);
    assert forall|i: int| 0 <= i < utf8.len() implies is_hex(#[trigger] utf8[i]) by {
        assert(text[i] as u8 == utf8[i]);
    }
    assert(all_hex(utf8));
    assert forall|i: int| 0 <= i < bytes.len() implies #[trigger] paired(utf8)[i] == bytes[i] by {
        assert(text[2 * i] as u8 == utf8[2 * i]);
        assert(text[2 * i + 1] as u8 == utf8[2 * i + 1]);
        assert(bytes[i] == 16 * hex_value(utf8[2 * i]) + hex_value(utf8[2 * i + 1]));
    }
    assert(paired(utf8) == bytes);
}

/// A prefix `0x` makes no difference to what is read.
pub proof fn law_prefix_makes_no_difference(text: Seq<char>)
    ensures
        signature_outcome(seq!['0', 'x'] + text) == signature_outcome(text),
{
    assert((seq!['0', 'x'] + text).skip(2) == text);
}

/// A text is accepted only where, behind its prefixes, it is 130 hexadecimal digits.
pub proof fn law_accepted_text_has_130_digits(text: Seq<char>)
    requires
        signature_outcome(text) is Ok,
    ensures
        encode_utf8(without_prefixes(text)).len() == 130,
        all_hex(encode_utf8(without_prefixes(text))),
{
}

} // verus!
