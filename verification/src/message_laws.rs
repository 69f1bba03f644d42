//! What the errors say, and what their models stand for: laws over every error and every text.

use vstd::prelude::*;

use crate::error::{
    quoted, CertificateError, CertificateErrorModel, FromHexError, RemoteSignerError,
    RemoteSignerErrorModel, SignatureError, SignatureErrorModel,
};
use crate::signature::Signature;
use crate::text::{decimal, decimal_text, starts_with};

verus! {

/// The text is the decimal notation of the number: no leading zero but for zero itself, and the
/// digits, from the last on, are what is left on division by ten.
pub open spec fn is_decimal(text: Seq<char>, n: nat) -> bool
    decreases n,
{
    &&& text.len() > 0
    &&& text.last() as int == 0x30 + n % 10
    &&& if n < 10 {
        text.len() == 1
    } else {
        is_decimal(text.drop_last(), n / 10)
    }
}

proof fn lemma_decimal(n: nat)
    ensures
        is_decimal(decimal(n), n),
    decreases n,
{
    if n >= 10 {
        lemma_decimal(n / 10);
        assert(decimal(n).drop_last() == decimal(n / 10));
    }
}

proof fn lemma_decimal_is_one(text: Seq<char>, n: nat)
    requires
        is_decimal(text, n),
    ensures
        text == decimal(n),
    decreases n,
{
    lemma_decimal(n);
    assert(text.last() == decimal(n).last());
    if n < 10 {
        assert(text =~= decimal(n));
    } else {
        lemma_decimal_is_one(text.drop_last(), n / 10);
        assert(text =~= text.drop_last().push(text.last()));
    }
}

/// A number is written in decimal notation.
pub proof fn law_number_is_written_in_decimal(n: u64, text: String)
    requires
        call_ensures(decimal_text, (n,), text),
    ensures
        is_decimal(text@, n as nat),
{
    lemma_decimal(n as nat);
}

/// A text starts with another exactly where it is that other and then something.
pub proof fn law_start_of_a_text(text: &str, head: &str, starts: bool)
    requires
        call_ensures(starts_with, (text, head), starts),
    ensures
        starts <==> exists|tail: Seq<char>| text@ == #[trigger] (head@ + tail),
{
    if starts {
        assert(text@ =~= head@ + text@.skip(head@.len() as int));
    }
    assert forall|tail: Seq<char>| text@ == #[trigger] (head@ + tail) implies starts by {
        assert(head@ =~= text@.subrange(0, head@.len() as int));
    }
}

/// The model of an error about a certificate is of the same kind and has the same text.
pub proof fn law_certificate_error_models(e: String)
    ensures
        CertificateError::InvalidCACertificatePath(e)@
            == CertificateErrorModel::InvalidCACertificatePath(e@),
        CertificateError::InvalidCACertificate(e)@ == CertificateErrorModel::InvalidCACertificate(
            e@,
        ),
        CertificateError::AddCACertificate(e)@ == CertificateErrorModel::AddCACertificate(e@),
        CertificateError::ConfigureClientAuth(e)@ == CertificateErrorModel::ConfigureClientAuth(e@),
        CertificateError::InvalidClientCertificatePath(e)@
            == CertificateErrorModel::InvalidClientCertificatePath(e@),
        CertificateError::InvalidClientCertificate(e)@
            == CertificateErrorModel::InvalidClientCertificate(e@),
        CertificateError::InvalidPrivateKeyPath(e)@ == CertificateErrorModel::InvalidPrivateKeyPath(
            e@,
        ),
        CertificateError::InvalidPrivateKey(e)@ == CertificateErrorModel::InvalidPrivateKey(e@),
        CertificateError::NoPrivateKey@ == CertificateErrorModel::NoPrivateKey,
{
}

/// The model of an error of a remote signer is of the same kind and has the same contents.
pub proof fn law_remote_signer_error_models(
    e: String,
    certificate: CertificateError,
    hex: FromHexError,
    n: usize,
    signature: SignatureError,
    parity: u64,
)
    ensures
        RemoteSignerError::SigningRPCError(e)@ == RemoteSignerErrorModel::SigningRPCError(e@),
        RemoteSignerError::JsonError(e)@ == RemoteSignerErrorModel::JsonError(e@),
        RemoteSignerError::BuildError(e)@ == RemoteSignerErrorModel::BuildError(e@),
        RemoteSignerError::PingError(e)@ == RemoteSignerErrorModel::PingError(e@),
        RemoteSignerError::CertificateError(certificate)@
            == RemoteSignerErrorModel::CertificateError(certificate@),
        RemoteSignerError::CertificateWatcherError(e)@
            == RemoteSignerErrorModel::CertificateWatcherError(e@),
        RemoteSignerError::InvalidSignatureHex(hex)@ == RemoteSignerErrorModel::InvalidSignatureHex(
            hex,
        ),
        RemoteSignerError::InvalidSignatureLength(n)@
            == RemoteSignerErrorModel::InvalidSignatureLength(n),
        RemoteSignerError::SignatureError(signature)@ == RemoteSignerErrorModel::SignatureError(
            signature@,
        ),
        SignatureError::FromBytes(e)@ == SignatureErrorModel::FromBytes(e@),
        SignatureError::InvalidParity(parity)@ == SignatureErrorModel::InvalidParity(parity),
{
}

/// The model of a signature has its numbers, byte for byte, and its parity.
pub proof fn law_signature_model(signature: Signature)
    ensures
        signature@.r == signature.r@,
        signature@.s == signature.s@,
        signature@.y_parity == signature.y_parity,
{
}

/// What an error about a certificate says: a fixed beginning, then the text that it has.
pub open spec fn says_of_certificate(error: CertificateError, text: Seq<char>) -> bool {
    match error {
        CertificateError::InvalidCACertificatePath(e) => text == "Invalid CA certificate path: "@
            + e@,
        CertificateError::InvalidCACertificate(e) => text == "Invalid CA certificate: "@ + e@,
        CertificateError::AddCACertificate(e) => text == "Failed to add CA certificate: "@ + e@,
        CertificateError::ConfigureClientAuth(e) => text == "Failed to configure client auth: "@
            + e@,
        CertificateError::InvalidClientCertificatePath(e) => text
            == "Invalid client certificate path: "@ + e@,
        CertificateError::InvalidClientCertificate(e) => text == "Invalid client certificate: "@
            + e@,
        CertificateError::InvalidPrivateKeyPath(e) => text == "Invalid private key path: "@ + e@,
        CertificateError::InvalidPrivateKey(e) => text == "Invalid private key: "@ + e@,
        CertificateError::NoPrivateKey => text
            == "No private key found while parsing the client certificate"@,
    }
}

/// Every error about a certificate says what it is about, and its own text.
pub proof fn law_certificate_error_says(error: CertificateError, text: String)
    requires
        call_ensures(CertificateError::message, (&error,), text),
    ensures
        says_of_certificate(error, text@),
{
}

/// A text that is no notation of bytes is spoken of with the character and its place in decimal
/// notation.
pub proof fn law_hex_error_says(error: FromHexError, place: Seq<char>, text: String)
    requires
        call_ensures(FromHexError::message, (&error,), text),
        error matches FromHexError::InvalidHexCharacter { c, index } ==> is_decimal(
            place,
            index as nat,
        ),
    ensures
        match error {
            FromHexError::InvalidHexCharacter { c, index } => text@ == "Invalid character "@
                + quoted(c) + " at position "@ + place,
            FromHexError::OddLength => text@ == "Odd number of digits"@,
            FromHexError::InvalidStringLength => text@ == "Invalid string length"@,
        },
{
    if let FromHexError::InvalidHexCharacter { c, index } = error {
        lemma_decimal_is_one(place, index as nat);
    }
}

/// Bytes that are no signature are spoken of with their own text, or with the parity in decimal
/// notation.
pub proof fn law_signature_error_says(error: SignatureError, number: Seq<char>, text: String)
    requires
        call_ensures(SignatureError::message, (&error,), text),
        error matches SignatureError::InvalidParity(v) ==> is_decimal(number, v as nat),
    ensures
        match error {
            SignatureError::FromBytes(e) => text@ == e@,
            SignatureError::InvalidParity(v) => text@ == "invalid parity: "@ + number,
        },
{
    if let SignatureError::InvalidParity(v) = error {
        lemma_decimal_is_one(number, v as nat);
    }
}

/// What an error of a remote signer says: a fixed beginning, then its own text, what the error
/// inside it says, or its number in decimal notation.
pub open spec fn says_of_remote(
    error: RemoteSignerError,
    inner: Seq<char>,
    text: Seq<char>,
) -> bool {
    match error {
        RemoteSignerError::SigningRPCError(e) => text == "JSON-RPC transport error: "@ + e@,
        RemoteSignerError::JsonError(e) => text == "JSON serialization error: "@ + e@,
        RemoteSignerError::BuildError(e) => text == "HTTP client build error: "@ + e@,
        RemoteSignerError::PingError(e) => text == "Failed to ping signer: "@ + e@,
        RemoteSignerError::CertificateError(_) => text == "Invalid certificate: "@ + inner,
        RemoteSignerError::CertificateWatcherError(e) => text == "Certificate watcher error: "@
            + e@,
        RemoteSignerError::InvalidSignatureHex(_) => text == "Invalid signature hex encoding: "@
            + inner,
        RemoteSignerError::InvalidSignatureLength(_) => text
            == "Invalid signature length, expected 65 bytes, got "@ + inner,
        RemoteSignerError::SignatureError(_) => text == "Signature error: "@ + inner,
    }
}

/// Every error of a remote signer says what it is about, and then what is inside it.
pub proof fn law_remote_signer_error_says(
    error: RemoteSignerError,
    inner: String,
    text: String,
)
    requires
        call_ensures(RemoteSignerError::message, (&error,), text),
        match error {
            RemoteSignerError::CertificateError(e) => call_ensures(
                CertificateError::message,
                (&e,),
                inner,
            ),
            RemoteSignerError::InvalidSignatureHex(e) => call_ensures(
                FromHexError::message,
                (&e,),
                inner,
            ),
            RemoteSignerError::InvalidSignatureLength(n) => is_decimal(inner@, n as nat),
            RemoteSignerError::SignatureError(e) => call_ensures(
                SignatureError::message,
                (&e,),
                inner,
            ),
            _ => true,
        },
    ensures
        says_of_remote(error, inner@, text@),
{
    if let RemoteSignerError::InvalidSignatureLength(n) = error {
        lemma_decimal_is_one(inner@, n as nat);
    }
}

/// An error about a certificate or a signature becomes one of the remote signer around it.
pub proof fn law_inner_errors_are_kept(
    certificate: CertificateError,
    signature: SignatureError,
    from_certificate: RemoteSignerError,
    from_signature: RemoteSignerError,
)
    requires
        call_ensures(
            <RemoteSignerError as From<CertificateError>>::from,
            (certificate,),
            from_certificate,
        ),
        call_ensures(
            <RemoteSignerError as From<SignatureError>>::from,
            (signature,),
            from_signature,
        ),
    ensures
        from_certificate == RemoteSignerError::CertificateError(certificate),
        from_signature == RemoteSignerError::SignatureError(signature),
{
}

} // verus!
