//! What can go wrong, and the text that says so.

use vstd::prelude::*;
use vstd::string::*;

use crate::text::{decimal, decimal_text};

verus! {

/// Errors that can occur when handling certificates
#[derive(Debug)]
pub enum CertificateError {
    /// The CA certificate file cannot be opened
    InvalidCACertificatePath(String),
    /// The CA certificate file cannot be read as PEM
    InvalidCACertificate(String),
    /// A CA certificate makes no trust anchor
    AddCACertificate(String),
    /// The client certificate and key cannot be used together
    ConfigureClientAuth(String),
    /// The client certificate file cannot be opened
    InvalidClientCertificatePath(String),
    /// The client certificate file cannot be read as PEM
    InvalidClientCertificate(String),
    /// The private key file cannot be opened
    InvalidPrivateKeyPath(String),
    /// The private key file cannot be read as PEM
    InvalidPrivateKey(String),
    /// The private key file holds no private key
    NoPrivateKey,
}

/// The model of a [`CertificateError`].
pub enum CertificateErrorModel {
    InvalidCACertificatePath(Seq<char>),
    InvalidCACertificate(Seq<char>),
    AddCACertificate(Seq<char>),
    ConfigureClientAuth(Seq<char>),
    InvalidClientCertificatePath(Seq<char>),
    InvalidClientCertificate(Seq<char>),
    InvalidPrivateKeyPath(Seq<char>),
    InvalidPrivateKey(Seq<char>),
    NoPrivateKey,
}

impl View for CertificateError {
    type V = CertificateErrorModel;

    open spec fn view(&self) -> CertificateErrorModel {
        match self {
            CertificateError::InvalidCACertificatePath(e) =>
                CertificateErrorModel::InvalidCACertificatePath(e@),
            CertificateError::InvalidCACertificate(e) =>
                CertificateErrorModel::InvalidCACertificate(e@),
            CertificateError::AddCACertificate(e) => CertificateErrorModel::AddCACertificate(e@),
            CertificateError::ConfigureClientAuth(e) =>
                CertificateErrorModel::ConfigureClientAuth(e@),
            CertificateError::InvalidClientCertificatePath(e) =>
                CertificateErrorModel::InvalidClientCertificatePath(e@),
            CertificateError::InvalidClientCertificate(e) =>
                CertificateErrorModel::InvalidClientCertificate(e@),
            CertificateError::InvalidPrivateKeyPath(e) =>
                CertificateErrorModel::InvalidPrivateKeyPath(e@),
            CertificateError::InvalidPrivateKey(e) => CertificateErrorModel::InvalidPrivateKey(e@),
            CertificateError::NoPrivateKey => CertificateErrorModel::NoPrivateKey,
        }
    }
}

/// Why a text is not the hexadecimal notation of bytes
#[derive(Debug, Clone, Copy, PartialEq, Eq, Structural)]
pub enum FromHexError {
    /// A byte of the text is no hexadecimal digit
    InvalidHexCharacter {
        /// The byte, as the character of that number
        c: char,
        /// Its place in the text, in bytes
        index: usize,
    },
    /// The text has an odd number of digits
    OddLength,
    /// The text has not the length that the receiver asks for
    InvalidStringLength,
}

/// Why bytes are not a signature
#[derive(Debug)]
pub enum SignatureError {
    /// The bytes have not the shape of a signature
    FromBytes(String),
    /// The last byte encodes no parity
    InvalidParity(u64),
}

/// The model of a [`SignatureError`].
pub enum SignatureErrorModel {
    FromBytes(Seq<char>),
    InvalidParity(u64),
}

impl View for SignatureError {
    type V = SignatureErrorModel;

    open spec fn view(&self) -> SignatureErrorModel {
        match self {
            SignatureError::FromBytes(e) => SignatureErrorModel::FromBytes(e@),
            SignatureError::InvalidParity(v) => SignatureErrorModel::InvalidParity(*v),
        }
    }
}

/// Errors that can occur when using the remote signer
#[derive(Debug)]
pub enum RemoteSignerError {
    /// JSON-RPC transport error
    SigningRPCError(String),
    /// JSON serialization error
    JsonError(String),
    /// HTTP client build error
    BuildError(String),
    /// Failed to ping signer
    PingError(String),
    /// Invalid certificate error
    CertificateError(CertificateError),
    /// Certificate watcher error
    CertificateWatcherError(String),
    /// Invalid signature hex encoding
    InvalidSignatureHex(FromHexError),
    /// Invalid signature length
    InvalidSignatureLength(usize),
    /// Signature error
    SignatureError(SignatureError),
}

/// The model of a [`RemoteSignerError`].
pub enum RemoteSignerErrorModel {
    SigningRPCError(Seq<char>),
    JsonError(Seq<char>),
    BuildError(Seq<char>),
    PingError(Seq<char>),
    CertificateError(CertificateErrorModel),
    CertificateWatcherError(Seq<char>),
    InvalidSignatureHex(FromHexError),
    InvalidSignatureLength(usize),
    SignatureError(SignatureErrorModel),
}

impl View for RemoteSignerError {
    type V = RemoteSignerErrorModel;

    open spec fn view(&self) -> RemoteSignerErrorModel {
        match self {
            RemoteSignerError::SigningRPCError(e) => RemoteSignerErrorModel::SigningRPCError(e@),
            RemoteSignerError::JsonError(e) => RemoteSignerErrorModel::JsonError(e@),
            RemoteSignerError::BuildError(e) => RemoteSignerErrorModel::BuildError(e@),
            RemoteSignerError::PingError(e) => RemoteSignerErrorModel::PingError(e@),
            RemoteSignerError::CertificateError(e) => RemoteSignerErrorModel::CertificateError(e@),
            RemoteSignerError::CertificateWatcherError(e) =>
                RemoteSignerErrorModel::CertificateWatcherError(e@),
            RemoteSignerError::InvalidSignatureHex(e) =>
                RemoteSignerErrorModel::InvalidSignatureHex(*e),
            RemoteSignerError::InvalidSignatureLength(n) =>
                RemoteSignerErrorModel::InvalidSignatureLength(*n),
            RemoteSignerError::SignatureError(e) => RemoteSignerErrorModel::SignatureError(e@),
        }
    }
}

impl From<CertificateError> for RemoteSignerError {
    fn from(error: CertificateError) -> (res: Self) {
        RemoteSignerError::CertificateError(error)
    }
}

impl vstd::std_specs::convert::FromSpecImpl<CertificateError> for RemoteSignerError {
    open spec fn obeys_from_spec() -> bool {
        true
    }

    open spec fn from_spec(error: CertificateError) -> Self {
        RemoteSignerError::CertificateError(error)
    }
}

impl From<SignatureError> for RemoteSignerError {
    fn from(error: SignatureError) -> (res: Self) {
        RemoteSignerError::SignatureError(error)
    }
}

impl vstd::std_specs::convert::FromSpecImpl<SignatureError> for RemoteSignerError {
    open spec fn obeys_from_spec() -> bool {
        true
    }

    open spec fn from_spec(error: SignatureError) -> Self {
        RemoteSignerError::SignatureError(error)
    }
}

/// A text behind another.
fn joined(head: &str, tail: &str) -> (text: String)
    ensures
        text@ == head@ + tail@,
{
    head.to_owned().concat(tail)
}

impl CertificateErrorModel {
    /// What the error says.
    pub open spec fn message(self) -> Seq<char> {
        match self {
            CertificateErrorModel::InvalidCACertificatePath(e) =>
                "Invalid CA certificate path: "@ + e,
            CertificateErrorModel::InvalidCACertificate(e) => "Invalid CA certificate: "@ + e,
            CertificateErrorModel::AddCACertificate(e) => "Failed to add CA certificate: "@ + e,
            CertificateErrorModel::ConfigureClientAuth(e) =>
                "Failed to configure client auth: "@ + e,
            CertificateErrorModel::InvalidClientCertificatePath(e) =>
                "Invalid client certificate path: "@ + e,
            CertificateErrorModel::InvalidClientCertificate(e) =>
                "Invalid client certificate: "@ + e,
            CertificateErrorModel::InvalidPrivateKeyPath(e) => "Invalid private key path: "@ + e,
            CertificateErrorModel::InvalidPrivateKey(e) => "Invalid private key: "@ + e,
            CertificateErrorModel::NoPrivateKey =>
                "No private key found while parsing the client certificate"@,
        }
    }
}

impl CertificateError {
    /// What the error says.
    pub fn message(&self) -> (text: String)
        ensures
            text@ == self@.message(),
    {
        match self {
            CertificateError::InvalidCACertificatePath(e) =>
                joined("Invalid CA certificate path: ", e.as_str()),
            CertificateError::InvalidCACertificate(e) =>
                joined("Invalid CA certificate: ", e.as_str()),
            CertificateError::AddCACertificate(e) =>
                joined("Failed to add CA certificate: ", e.as_str()),
            CertificateError::ConfigureClientAuth(e) =>
                joined("Failed to configure client auth: ", e.as_str()),
            CertificateError::InvalidClientCertificatePath(e) =>
                joined("Invalid client certificate path: ", e.as_str()),
            CertificateError::InvalidClientCertificate(e) =>
                joined("Invalid client certificate: ", e.as_str()),
            CertificateError::InvalidPrivateKeyPath(e) =>
                joined("Invalid private key path: ", e.as_str()),
            CertificateError::InvalidPrivateKey(e) => joined("Invalid private key: ", e.as_str()),
            CertificateError::NoPrivateKey =>
                "No private key found while parsing the client certificate".to_owned(),
        }
    }
}

/// How a character is written with std's `Debug`: between quotes, with escapes.
pub uninterp spec fn quoted(c: char) -> Seq<char>;

/// What a [`FromHexError`] says.
pub open spec fn hex_message(error: FromHexError) -> Seq<char> {
    match error {
        FromHexError::InvalidHexCharacter { c, index } => "Invalid character "@ + quoted(c)
            + " at position "@ + decimal(index as nat),
        FromHexError::OddLength => "Odd number of digits"@,
        FromHexError::InvalidStringLength => "Invalid string length"@,
    }
}

/// `<hex::FromHexError as Display>::fmt`, through `to_string`: one fixed text for each kind of
/// error, around the quoted character and its place. How std quotes a character is left to the
/// name.
#[verifier::external_body]
fn hex_error_text(error: FromHexError) -> (text: String)
    ensures
        match error {
            FromHexError::InvalidHexCharacter { c, index } => text@ == "Invalid character "@
                + quoted(c) + " at position "@ + decimal(index as nat),
            FromHexError::OddLength => text@ == "Odd number of digits"@,
            FromHexError::InvalidStringLength => text@ == "Invalid string length"@,
        },
{
    let outside = match error {
        FromHexError::InvalidHexCharacter { c, index } =>
            hex::FromHexError::InvalidHexCharacter { c, index },
        FromHexError::OddLength => hex::FromHexError::OddLength,
        FromHexError::InvalidStringLength => hex::FromHexError::InvalidStringLength,
    };
    outside.to_string()
}

impl FromHexError {
    /// What the error says.
    pub fn message(&self) -> (text: String)
        ensures
            text@ == hex_message(*self),
    {
        hex_error_text(*self)
    }
}

impl SignatureErrorModel {
    /// What the error says.
    pub open spec fn message(self) -> Seq<char> {
        match self {
            SignatureErrorModel::FromBytes(e) => e,
            SignatureErrorModel::InvalidParity(v) => "invalid parity: "@ + decimal(v as nat),
        }
    }
}

impl SignatureError {
    /// What the error says.
    pub fn message(&self) -> (text: String)
        ensures
            text@ == self@.message(),
    {
        match self {
            SignatureError::FromBytes(e) => e.clone(),
            SignatureError::InvalidParity(v) =>
                joined("invalid parity: ", decimal_text(*v).as_str()),
        }
    }
}

impl RemoteSignerErrorModel {
    /// What the error says.
    pub open spec fn message(self) -> Seq<char> {
        match self {
            RemoteSignerErrorModel::SigningRPCError(e) => "JSON-RPC transport error: "@ + e,
            RemoteSignerErrorModel::JsonError(e) => "JSON serialization error: "@ + e,
            RemoteSignerErrorModel::BuildError(e) => "HTTP client build error: "@ + e,
            RemoteSignerErrorModel::PingError(e) => "Failed to ping signer: "@ + e,
            RemoteSignerErrorModel::CertificateError(e) => "Invalid certificate: "@ + e.message(),
            RemoteSignerErrorModel::CertificateWatcherError(e) =>
                "Certificate watcher error: "@ + e,
            RemoteSignerErrorModel::InvalidSignatureHex(e) =>
                "Invalid signature hex encoding: "@ + hex_message(e),
            RemoteSignerErrorModel::InvalidSignatureLength(e) =>
                "Invalid signature length, expected 65 bytes, got "@ + decimal(e as nat),
            RemoteSignerErrorModel::SignatureError(e) => "Signature error: "@ + e.message(),
        }
    }
}

impl RemoteSignerError {
    /// What the error says.
    pub fn message(&self) -> (text: String)
        ensures
            text@ == self@.message(),
    {
        match self {
            RemoteSignerError::SigningRPCError(e) =>
                joined("JSON-RPC transport error: ", e.as_str()),
            RemoteSignerError::JsonError(e) => joined("JSON serialization error: ", e.as_str()),
            RemoteSignerError::BuildError(e) => joined("HTTP client build error: ", e.as_str()),
            RemoteSignerError::PingError(e) => joined("Failed to ping signer: ", e.as_str()),
            RemoteSignerError::CertificateError(e) =>
                joined("Invalid certificate: ", e.message().as_str()),
            RemoteSignerError::CertificateWatcherError(e) =>
                joined("Certificate watcher error: ", e.as_str()),
            RemoteSignerError::InvalidSignatureHex(e) =>
                joined("Invalid signature hex encoding: ", e.message().as_str()),
            RemoteSignerError::InvalidSignatureLength(e) => joined(
                "Invalid signature length, expected 65 bytes, got ",
                decimal_text(*e as u64).as_str(),
            ),
            RemoteSignerError::SignatureError(e) =>
                joined("Signature error: ", e.message().as_str()),
        }
    }
}

} // verus!
