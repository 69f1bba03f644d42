//! Block signers: they sign the hash of a block's payload for a chain.
//!
//! There are two of them:
//!
//! 1. A [`LocalSigner`] signs with a private key that is at hand.
//! 2. A [`RemoteSigner`] has a service sign, over JSON-RPC, on an HTTP client with the TLS set-up
//!    that its configuration asks for. When the certificate files are modified, the client is built
//!    anew.
//!
//! The library decides; it reads no file and calls no service. Where a file or a service comes in,
//! a value of the library says what is to be done next and takes in what came of it:
//! [`Connecting`] on the way to a remote signer, [`RemoteSigner`] for reloads, [`SignRequest`] for
//! signatures.
//!
//! Beside each module's own laws, `signing_laws`, `client_laws`, `signer_laws` and `message_laws`
//! say of the public functions what comes out for what goes in.

pub mod certificate_files;
pub mod client_build;
pub mod client_laws;
pub mod config;
pub mod connecting;
pub mod error;
pub mod hexadecimal;
pub mod http;
pub mod local;
pub mod message_laws;
pub mod payload;
pub mod remote;
pub mod signature;
pub mod signer;
pub mod signer_laws;
pub mod signing_laws;
pub mod text;
pub mod tls;

pub use certificate_files::FileRead;
pub use client_build::ClientBuild;
pub use config::{ClientCert, RemoteSignerConfig};
pub use connecting::{ConnectWant, Connecting};
pub use error::{CertificateError, FromHexError, RemoteSignerError, SignatureError};
pub use local::{LocalSigner, LocalSignerError, PrivateKey};
pub use payload::{Address, BlockPayloadArgs, PayloadHash};
pub use remote::{ReloadStatus, RemoteSigner, SignCall, SignRequest, SignResponse, WatchEvent};
pub use signature::Signature;
pub use signer::{BlockSigner, SignStep};
