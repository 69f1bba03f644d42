use block_signer::text::{decimal_text, starts_with};
use block_signer::{CertificateError, FromHexError, RemoteSignerError, SignatureError};

fn why() -> String {
    String::from("why")
}

#[test]
fn decimal_notation() {
    assert_eq!(decimal_text(0), "0");
    assert_eq!(decimal_text(9), "9");
    assert_eq!(decimal_text(10), "10");
    assert_eq!(decimal_text(1234567890), "1234567890");
    assert_eq!(decimal_text(u64::MAX), "18446744073709551615");
}

#[test]
fn beginnings_of_texts() {
    assert!(starts_with("section end missing", "section end "));
    assert!(starts_with("Ãé", "Ã"));
    assert!(starts_with("", ""));
    assert!(!starts_with("section", "section end "));
    assert!(!starts_with("sectioN end missing", "section end "));
}

#[test]
fn certificate_messages() {
    let cases = [
        (CertificateError::InvalidCACertificatePath(why()), "Invalid CA certificate path: why"),
        (CertificateError::InvalidCACertificate(why()), "Invalid CA certificate: why"),
        (CertificateError::AddCACertificate(why()), "Failed to add CA certificate: why"),
        (CertificateError::ConfigureClientAuth(why()), "Failed to configure client auth: why"),
        (
            CertificateError::InvalidClientCertificatePath(why()),
            "Invalid client certificate path: why",
        ),
        (CertificateError::InvalidClientCertificate(why()), "Invalid client certificate: why"),
        (CertificateError::InvalidPrivateKeyPath(why()), "Invalid private key path: why"),
        (CertificateError::InvalidPrivateKey(why()), "Invalid private key: why"),
        (
            CertificateError::NoPrivateKey,
            "No private key found while parsing the client certificate",
        ),
    ];
    for (error, text) in cases {
        assert_eq!(error.message(), text);
        assert_eq!(
            RemoteSignerError::from(error).message(),
            format!("Invalid certificate: {}", text)
        );
    }
}

#[test]
fn remote_signer_messages() {
    let cases = [
        (RemoteSignerError::SigningRPCError(why()), "JSON-RPC transport error: why"),
        (RemoteSignerError::JsonError(why()), "JSON serialization error: why"),
        (RemoteSignerError::BuildError(why()), "HTTP client build error: why"),
        (RemoteSignerError::PingError(why()), "Failed to ping signer: why"),
        (RemoteSignerError::CertificateWatcherError(why()), "Certificate watcher error: why"),
        (
            RemoteSignerError::InvalidSignatureHex(FromHexError::OddLength),
            "Invalid signature hex encoding: Odd number of digits",
        ),
        (
            RemoteSignerError::InvalidSignatureLength(64),
            "Invalid signature length, expected 65 bytes, got 64",
        ),
        (
            RemoteSignerError::from(SignatureError::InvalidParity(29)),
            "Signature error: invalid parity: 29",
        ),
    ];
    for (error, text) in cases {
        assert_eq!(error.message(), text);
    }
}

#[test]
fn hex_messages() {
    assert_eq!(
        FromHexError::InvalidHexCharacter { c: 'g', index: 12 }.message(),
        "Invalid character 'g' at position 12"
    );
    assert_eq!(
        FromHexError::InvalidHexCharacter { c: '\n', index: 0 }.message(),
        "Invalid character '\\n' at position 0"
    );
    assert_eq!(FromHexError::OddLength.message(), "Odd number of digits");
    assert_eq!(FromHexError::InvalidStringLength.message(), "Invalid string length");
}

#[test]
fn signature_messages_are_those_of_the_signature_crate() {
    assert_eq!(
        SignatureError::InvalidParity(2).message(),
        alloy_primitives::SignatureError::InvalidParity(2).to_string()
    );
    assert_eq!(SignatureError::FromBytes(why()).message(), "why");
}
