//! TLS material: PEM files, trust anchors and TLS client configurations.

use rustls::pki_types::{CertificateDer, PrivateKeyDer};
use rustls::{ClientConfig, RootCertStore};
use vstd::prelude::*;

verus! {

/// The roots of trust of a TLS client (`rustls::RootCertStore`).
#[verifier::external_type_specification]
#[verifier::external_body]
pub struct ExRootCertStore(RootCertStore);

/// A finished TLS client configuration (`rustls::ClientConfig`).
#[verifier::external_type_specification]
#[verifier::external_body]
pub struct ExClientConfig(ClientConfig);

/// What a trust anchor holds: the subject's name, its public key and its name constraints, all
/// in DER.
pub struct Anchor {
    pub subject: Seq<u8>,
    pub public_key: Seq<u8>,
    pub name_constraints: Option<Seq<u8>>,
}

/// How the bytes of a private key are to be read.
#[derive(Debug, Clone, Copy, PartialEq, Eq, Structural)]
pub enum KeyEncoding {
    Pkcs1,
    Pkcs8,
    Sec1,
}

/// A private key in DER, with its encoding.
pub struct PrivateKeyFile {
    pub encoding: KeyEncoding,
    pub der: Vec<u8>,
}

/// The model of a [`PrivateKeyFile`].
pub struct KeyModel {
    pub encoding: KeyEncoding,
    pub der: Seq<u8>,
}

impl View for PrivateKeyFile {
    type V = KeyModel;

    open spec fn view(&self) -> KeyModel {
        KeyModel { encoding: self.encoding, der: self.der@ }
    }
}

/// The bytes of each certificate of a list.
pub open spec fn ders(certs: Seq<Vec<u8>>) -> Seq<Seq<u8>> {
    Seq::new(certs.len(), |i: int| certs[i]@)
}

/// The certificates that `rustls_pemfile::certs` finds in a PEM file, in the order of the file, or
/// the text of the first error that it meets.
pub uninterp spec fn pem_certificates(pem: Seq<u8>) -> Result<Seq<Seq<u8>>, Seq<char>>;

/// The first private key that `rustls_pemfile::private_key` finds in a PEM file, `None` where the
/// file holds no key, or the text of the error that comes before any key.
pub uninterp spec fn pem_private_key(pem: Seq<u8>) -> Result<Option<KeyModel>, Seq<char>>;

/// The trust anchor that `RootCertStore::add` makes of a certificate, or the text of its refusal.
pub uninterp spec fn trust_anchor(der: Seq<u8>) -> Result<Anchor, Seq<char>>;

/// The trust anchors that a store holds, in the order in which they were added.
pub uninterp spec fn store_anchors(store: RootCertStore) -> Seq<Anchor>;

/// The bytes hold no dash. Every section of a PEM file begins with some.
pub open spec fn dashless(pem: Seq<u8>) -> bool {
    !pem.contains(0x2du8)
}

/// `rustls_pemfile::certs`, collected: every certificate section of the file, in order, or the
/// first error. A file without a dash, such as an empty one, holds no section. Beyond that, what
/// counts as a section is left to the name.
#[verifier::external_body]
pub(crate) fn read_certificates(pem: &[u8]) -> (res: Result<Vec<Vec<u8>>, String>)
    ensures
        pem_certificates(pem@) == (match res {
            Ok(certs) => Ok(ders(certs@)),
            Err(text) => Err(text@),
        }),
        dashless(pem@) ==> res is Ok && res->Ok_0@.len() == 0,
{
    let mut reader: &[u8] = pem;
    rustls_pemfile::certs(&mut reader)
        .map(|cert| cert.map(|der| der.to_vec()))
        .collect::<Result<Vec<Vec<u8>>, std::io::Error>>()
        .map_err(|error| error.to_string())
}

/// `rustls_pemfile::private_key`: the first private key section of the file; none in a file without
/// a dash. The function hands out keys of three encodings only, which the last arm rests on.
#[verifier::external_body]
pub(crate) fn read_private_key(pem: &[u8]) -> (res: Result<Option<PrivateKeyFile>, String>)
    ensures
        pem_private_key(pem@) == (match res {
            Ok(Some(key)) => Ok(Some(key@)),
            Ok(None) => Ok(None),
            Err(text) => Err(text@),
        }),
        dashless(pem@) ==> res is Ok && res->Ok_0 is None,
{
    let mut reader: &[u8] = pem;
    let found = rustls_pemfile::private_key(&mut reader).map_err(|error| error.to_string())?;
    let Some(key) = found else { return Ok(None) };
    let encoding = match &key {
        PrivateKeyDer::Pkcs1(_) => KeyEncoding::Pkcs1,
        PrivateKeyDer::Sec1(_) => KeyEncoding::Sec1,
        _ => KeyEncoding::Pkcs8,
    };
    Ok(Some(PrivateKeyFile { encoding, der: key.secret_der().to_vec() }))
}

/// `RootCertStore::empty`: a store without anchors.
#[verifier::external_body]
pub(crate) fn empty_store() -> (store: RootCertStore)
    ensures
        store_anchors(store) == Seq::<Anchor>::empty(),
{
    RootCertStore::empty()
}

/// `RootCertStore::add`: a certificate that makes a trust anchor puts it behind those already
/// there; one that does not leaves the store as it was.
#[verifier::external_body]
pub(crate) fn add_certificate(store: &mut RootCertStore, der: Vec<u8>) -> (res: Result<(), String>)
    ensures
        match res {
            Ok(()) => {
                &&& trust_anchor(der@) is Ok
                &&& store_anchors(*final(store)) == store_anchors(*old(store)).push(
                    trust_anchor(der@)->Ok_0,
                )
            },
            Err(text) => {
                &&& trust_anchor(der@) == Err::<Anchor, Seq<char>>(text@)
                &&& store_anchors(*final(store)) == store_anchors(*old(store))
            },
        },
{
    store.add(CertificateDer::from(der)).map_err(|error| error.to_string())
}

/// What a TLS client configuration was made of: the roots of trust, and the certificates and key
/// that the client presents, where it presents any.
pub struct TlsModel {
    pub roots: Seq<Anchor>,
    pub client_auth: Option<(Seq<Seq<u8>>, KeyModel)>,
}

/// A TLS client configuration, with a record of what it was made of.
pub struct TlsConfig {
    pub(crate) config: ClientConfig,
    made_of: Ghost<TlsModel>,
}

impl View for TlsConfig {
    type V = TlsModel;

    closed spec fn view(&self) -> TlsModel {
        self.made_of@
    }
}

/// `ConfigBuilder::with_no_client_auth`, on `ClientConfig::builder` with the given roots: a
/// configuration that trusts the anchors of the store and presents no certificate. The builder
/// takes its cryptography from the provider that the process installed or, where it installed
/// none, from the one provider that rustls is built with here.
#[verifier::external_body]
pub(crate) fn without_client_auth(store: RootCertStore) -> (tls: TlsConfig)
    ensures
        tls@ == (TlsModel { roots: store_anchors(store), client_auth: None }),
{
    let config = ClientConfig::builder().with_root_certificates(store).with_no_client_auth();
    TlsConfig {
        config,
        made_of: Ghost(TlsModel { roots: store_anchors(store), client_auth: None }),
    }
}

/// `ConfigBuilder::with_client_auth_cert`, on `ClientConfig::builder` with the given roots: a
/// configuration that trusts the anchors of the store and presents the given certificates with the
/// given key. Whether a key is accepted with a certificate is for the process's cryptography
/// provider to say, so nothing is claimed of when the call fails or of the text of its error.
#[verifier::external_body]
pub(crate) fn with_client_auth(
    store: RootCertStore,
    certs: Vec<Vec<u8>>,
    key: PrivateKeyFile,
) -> (res: Result<TlsConfig, String>)
    ensures
        res matches Ok(tls) ==> tls@ == (TlsModel {
            roots: store_anchors(store),
            client_auth: Some((ders(certs@), key@)),
        }),
{
    let made_of = Ghost(TlsModel {
        roots: store_anchors(store),
        client_auth: Some((ders(certs@), key@)),
    });
    let chain = certs.into_iter().map(CertificateDer::from).collect();
    let key_der = match key.encoding {
        KeyEncoding::Pkcs1 => PrivateKeyDer::Pkcs1(key.der.into()),
        KeyEncoding::Pkcs8 => PrivateKeyDer::Pkcs8(key.der.into()),
        KeyEncoding::Sec1 => PrivateKeyDer::Sec1(key.der.into()),
    };
    let builder = ClientConfig::builder().with_root_certificates(store);
    let built = builder.with_client_auth_cert(chain, key_der);
    built.map(|config| TlsConfig { config, made_of }).map_err(|error| error.to_string())
}

/// What the cryptography provider said to a key with its certificates: that it takes them, or the
/// text of its refusal.
pub open spec fn answer_of(res: Result<TlsConfig, String>) -> Result<(), Seq<char>> {
    match res {
        Ok(_) => Ok(()),
        Err(text) => Err(text@),
    }
}

/// The cryptography provider gives this answer to the key with its certificates: client
/// authentication has been set up with just these roots, certificates and key, and this came of it.
pub closed spec fn authenticates(
    roots: Seq<Anchor>,
    certs: Seq<Seq<u8>>,
    key: KeyModel,
    answer: Result<(), Seq<char>>,
) -> bool {
    exists|
        store: RootCertStore,
        chain: Vec<Vec<u8>>,
        file: PrivateKeyFile,
        res: Result<TlsConfig, String>,
    |
        #![trigger call_ensures(with_client_auth, (store, chain, file), res)]
        store_anchors(store) == roots && ders(chain@) == certs && file@ == key && call_ensures(
            with_client_auth,
            (store, chain, file),
            res,
        ) && answer_of(res) == answer
}

/// Sets up client authentication, and keeps that this is what came of it.
pub(crate) fn authenticate(
    store: RootCertStore,
    certs: Vec<Vec<u8>>,
    key: PrivateKeyFile,
) -> (res: Result<TlsConfig, String>)
    ensures
        authenticates(store_anchors(store), ders(certs@), key@, answer_of(res)),
        res matches Ok(tls) ==> tls@ == (TlsModel {
            roots: store_anchors(store),
            client_auth: Some((ders(certs@), key@)),
        }),
{
    with_client_auth(store, certs, key)
}

/// What setting up client authentication comes to is the answer to just these roots, certificates
/// and key.
pub(crate) proof fn law_authentication_is_an_answer(
    roots: Seq<Anchor>,
    certs: Seq<Seq<u8>>,
    key: KeyModel,
    answer: Result<(), Seq<char>>,
)
    requires
        authenticates(roots, certs, key, answer),
    ensures
        exists|
            store: RootCertStore,
            chain: Vec<Vec<u8>>,
            file: PrivateKeyFile,
            res: Result<TlsConfig, String>,
        |
            #![trigger call_ensures(with_client_auth, (store, chain, file), res)]
            store_anchors(store) == roots && ders(chain@) == certs && file@ == key && call_ensures(
                with_client_auth,
                (store, chain, file),
                res,
            ) && answer_of(res) == answer,
{
}

} // verus!
