//! Configuration of the remote signer.

use vstd::prelude::*;

verus! {

/// Paths handed over from the file system; the library carries them and never looks inside.
#[verifier::external_type_specification]
#[verifier::external_body]
pub struct ExPathBuf(std::path::PathBuf);

/// Addresses of remote services; the library carries them and never looks inside.
#[verifier::external_type_specification]
#[verifier::external_body]
pub struct ExUrl(url::Url);

/// `<PathBuf as Clone>::clone`: the clone is the same path.
pub assume_specification[ <std::path::PathBuf as Clone>::clone ](
    path: &std::path::PathBuf,
) -> (res: std::path::PathBuf)
    ensures
        res == *path,
;

/// `<Url as Clone>::clone`: the clone is the same address.
pub assume_specification[ <url::Url as Clone>::clone ](address: &url::Url) -> (res: url::Url)
    ensures
        res == *address,
;

/// Client certificate and key pair for mTLS authentication (PEM format)
#[derive(Debug)]
pub struct ClientCert {
    /// Path to the client certificate in PEM format
    pub cert: std::path::PathBuf,
    /// Path to the client private key in PEM format
    pub key: std::path::PathBuf,
}

impl Clone for ClientCert {
    fn clone(&self) -> (res: Self)
        ensures
            res == *self,
    {
        ClientCert { cert: self.cert.clone(), key: self.key.clone() }
    }
}

/// Configuration for the remote signer client
///
/// Four set-ups are supported:
///
/// 1. **Basic HTTPS**: only the endpoint. Servers are checked against the system's CA
///    certificates.
/// 2. **Custom CA**: `ca_cert` names the certificates that servers are checked against.
/// 3. **Mutual TLS (mTLS)**: `client_cert` names the certificate and key that the client presents.
/// 4. **Full mTLS with custom CA**: both.
///
/// All certificates and keys are files in PEM format. Where a client certificate is configured, the
/// files are watched, and the client is built anew when one of them is modified.
#[derive(Debug)]
pub struct RemoteSignerConfig {
    /// The URL of the remote signer endpoint
    pub endpoint: url::Url,
    /// Optional client certificate for mTLS (PEM format)
    pub client_cert: Option<ClientCert>,
    /// Optional CA certificate for server verification (PEM format)
    pub ca_cert: Option<std::path::PathBuf>,
    /// Request timeout in seconds
    pub timeout_secs: Option<u64>,
}

impl Clone for RemoteSignerConfig {
    fn clone(&self) -> (res: Self)
        ensures
            res == *self,
    {
        let client_cert = match &self.client_cert {
            None => None,
            Some(client) => Some(client.clone()),
        };
        let ca_cert = match &self.ca_cert {
            None => None,
            Some(ca) => Some(ca.clone()),
        };
        RemoteSignerConfig {
            endpoint: self.endpoint.clone(),
            client_cert,
            ca_cert,
            timeout_secs: self.timeout_secs,
        }
    }
}

/// The files whose modification calls for a reload: none without a client certificate; with one,
/// the certificate, its key, and the CA file where one is configured.
pub open spec fn watched(config: RemoteSignerConfig) -> Seq<std::path::PathBuf> {
    match config.client_cert {
        None => seq![],
        Some(client) => match config.ca_cert {
            None => seq![client.cert, client.key],
            Some(ca) => seq![client.cert, client.key, ca],
        },
    }
}

impl RemoteSignerConfig {
    /// The files to watch, in the order in which they are put under watch.
    pub fn watched_files(&self) -> (paths: Vec<&std::path::PathBuf>)
        ensures
            paths@.len() == watched(*self).len(),
            forall|i: int| 0 <= i < paths@.len() ==> *paths@[i] == #[trigger] watched(*self)[i],
    {
        let mut paths: Vec<&std::path::PathBuf> = Vec::new();
        if let Some(client) = &self.client_cert {
            paths.push(&client.cert);
            paths.push(&client.key);
            if let Some(ca) = &self.ca_cert {
                paths.push(ca);
            }
        }
        paths
    }
}

} // verus!
