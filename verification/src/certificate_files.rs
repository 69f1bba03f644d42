//! What the certificate files hold.

use rustls::RootCertStore;
use vstd::prelude::*;
use vstd::slice::slice_subrange;

use crate::error::{CertificateError, CertificateErrorModel};
use crate::text::starts_with;
use crate::tls::{
    add_certificate, dashless, ders, empty_store, pem_certificates, pem_private_key,
    read_certificates, read_private_key, store_anchors, trust_anchor, Anchor, KeyModel,
    PrivateKeyFile,
};

verus! {

/// What came of reading a file.
#[derive(Debug)]
pub enum FileRead {
    /// The file could not be opened
    NotOpened(String),
    /// The file was opened, but reading it failed behind these bytes
    NotRead(Vec<u8>, String),
    /// The bytes of the file
    Contents(Vec<u8>),
}

/// The model of a [`FileRead`].
pub enum FileModel {
    NotOpened(Seq<char>),
    NotRead(Seq<u8>, Seq<char>),
    Contents(Seq<u8>),
}

impl View for FileRead {
    type V = FileModel;

    open spec fn view(&self) -> FileModel {
        match self {
            FileRead::NotOpened(e) => FileModel::NotOpened(e@),
            FileRead::NotRead(pem, e) => FileModel::NotRead(pem@, e@),
            FileRead::Contents(bytes) => FileModel::Contents(bytes@),
        }
    }
}

/// The certificates that a PEM file holds: none without a dash, else what the PEM reader finds.
pub open spec fn certificates_in(pem: Seq<u8>) -> Result<Seq<Seq<u8>>, Seq<char>> {
    if dashless(pem) {
        Ok(seq![])
    } else {
        pem_certificates(pem)
    }
}

/// The private key that a PEM file holds: none without a dash, else what the PEM reader finds.
pub open spec fn key_in(pem: Seq<u8>) -> Result<Option<KeyModel>, Seq<char>> {
    if dashless(pem) {
        Ok(None)
    } else {
        pem_private_key(pem)
    }
}

/// The byte ends a line of a PEM file.
pub open spec fn ends_line(b: u8) -> bool {
    b == 0x0a || b == 0x0d
}

/// The bytes up to the end of the last line that has one. A file is read line by line, so where
/// reading fails, only the whole lines before that have been looked at.
pub open spec fn whole_lines(pem: Seq<u8>) -> Seq<u8>
    decreases pem.len(),
{
    if pem.len() == 0 || ends_line(pem.last()) {
        pem
    } else {
        whole_lines(pem.drop_last())
    }
}

/// The PEM reader says with this text that a section was not over when the file was.
pub open spec fn says_unended(text: Seq<char>) -> bool {
    "section end "@.is_prefix_of(text)
}

/// The text of the error for a file that could not be read to its end: that of the fault which the
/// PEM reader finds in the whole lines before, where it finds one, else that of the failure to
/// read. That a section is not over there is no fault, since the file is not over either.
pub open spec fn read_fault(found: Option<Seq<char>>, failure: Seq<char>) -> Seq<char> {
    match found {
        Some(text) => if says_unended(text) {
            failure
        } else {
            text
        },
        None => failure,
    }
}

/// The text of an error, if there is one.
pub open spec fn fault_of<T>(parsed: Result<T, Seq<char>>) -> Option<Seq<char>> {
    match parsed {
        Ok(_) => None,
        Err(text) => Some(text),
    }
}

/// The trust anchors of a list of certificates, or why the first of them that makes none is
/// refused.
pub open spec fn anchors_of(certs: Seq<Seq<u8>>) -> Result<Seq<Anchor>, Seq<char>>
    decreases certs.len(),
{
    if certs.len() == 0 {
        Ok(seq![])
    } else {
        match anchors_of(certs.drop_last()) {
            Err(e) => Err(e),
            Ok(anchors) => match trust_anchor(certs.last()) {
                Err(e) => Err(e),
                Ok(anchor) => Ok(anchors.push(anchor)),
            },
        }
    }
}

/// The roots of trust that the sections of a CA file give.
pub open spec fn roots_from(parsed: Result<Seq<Seq<u8>>, Seq<char>>) -> Result<
    Seq<Anchor>,
    CertificateErrorModel,
> {
    match parsed {
        Err(e) => Err(CertificateErrorModel::InvalidCACertificate(e)),
        Ok(certs) => match anchors_of(certs) {
            Err(e) => Err(CertificateErrorModel::AddCACertificate(e)),
            Ok(anchors) => Ok(anchors),
        },
    }
}

/// The certificates that the sections of a client certificate file give.
pub open spec fn certs_from(parsed: Result<Seq<Seq<u8>>, Seq<char>>) -> Result<
    Seq<Seq<u8>>,
    CertificateErrorModel,
> {
    match parsed {
        Err(e) => Err(CertificateErrorModel::InvalidClientCertificate(e)),
        Ok(certs) => Ok(certs),
    }
}

/// The private key that the sections of a key file give.
pub open spec fn key_from(parsed: Result<Option<KeyModel>, Seq<char>>) -> Result<
    KeyModel,
    CertificateErrorModel,
> {
    match parsed {
        Err(e) => Err(CertificateErrorModel::InvalidPrivateKey(e)),
        Ok(None) => Err(CertificateErrorModel::NoPrivateKey),
        Ok(Some(key)) => Ok(key),
    }
}

/// The private key that the sections before a failure to read a key file give. The first key is
/// taken, whatever comes behind it.
pub open spec fn key_before(
    parsed: Result<Option<KeyModel>, Seq<char>>,
    failure: Seq<char>,
) -> Result<KeyModel, CertificateErrorModel> {
    match parsed {
        Ok(Some(key)) => Ok(key),
        _ => Err(CertificateErrorModel::InvalidPrivateKey(read_fault(fault_of(parsed), failure))),
    }
}

/// The roots of trust that a CA file gives.
pub open spec fn ca_roots(read: FileModel) -> Result<Seq<Anchor>, CertificateErrorModel> {
    match read {
        FileModel::NotOpened(e) => Err(CertificateErrorModel::InvalidCACertificatePath(e)),
        FileModel::NotRead(pem, e) => Err(
            CertificateErrorModel::InvalidCACertificate(
                read_fault(fault_of(certificates_in(whole_lines(pem))), e),
            ),
        ),
        FileModel::Contents(pem) => roots_from(certificates_in(pem)),
    }
}

/// The certificates that a client certificate file gives.
pub open spec fn client_certs(read: FileModel) -> Result<Seq<Seq<u8>>, CertificateErrorModel> {
    match read {
        FileModel::NotOpened(e) => Err(CertificateErrorModel::InvalidClientCertificatePath(e)),
        FileModel::NotRead(pem, e) => Err(
            CertificateErrorModel::InvalidClientCertificate(
                read_fault(fault_of(certificates_in(whole_lines(pem))), e),
            ),
        ),
        FileModel::Contents(pem) => certs_from(certificates_in(pem)),
    }
}

/// The private key that a key file gives.
pub open spec fn client_key(read: FileModel) -> Result<KeyModel, CertificateErrorModel> {
    match read {
        FileModel::NotOpened(e) => Err(CertificateErrorModel::InvalidPrivateKeyPath(e)),
        FileModel::NotRead(pem, e) => key_before(key_in(whole_lines(pem)), e),
        FileModel::Contents(pem) => key_from(key_in(pem)),
    }
}

/// The model of a list of certificates that was read, or not.
pub open spec fn sections(parsed: Result<Vec<Vec<u8>>, String>) -> Result<Seq<Seq<u8>>, Seq<char>> {
    match parsed {
        Ok(certs) => Ok(ders(certs@)),
        Err(e) => Err(e@),
    }
}

/// The model of a key that was read, or not.
pub open spec fn key_section(parsed: Result<Option<PrivateKeyFile>, String>) -> Result<
    Option<KeyModel>,
    Seq<char>,
> {
    match parsed {
        Ok(Some(key)) => Ok(Some(key@)),
        Ok(None) => Ok(None),
        Err(e) => Err(e@),
    }
}

/// A list of which a first part is refused is refused for the same reason.
proof fn lemma_refused_part(certs: Seq<Seq<u8>>, k: int)
    requires
        0 <= k <= certs.len(),
        anchors_of(certs.take(k)) is Err,
    ensures
        anchors_of(certs) == anchors_of(certs.take(k)),
    decreases certs.len(),
{
    if k == certs.len() {
        assert(certs.take(k) == certs);
    } else {
        assert(certs.drop_last().take(k) == certs.take(k));
        lemma_refused_part(certs.drop_last(), k);
    }
}

/// Makes a store of the trust anchors of a list of certificates.
fn trust(certs: Vec<Vec<u8>>) -> (res: Result<RootCertStore, String>)
    ensures
        anchors_of(ders(certs@)) == (match res {
            Ok(store) => Ok(store_anchors(store)),
            Err(text) => Err(text@),
        }),
{
    let ghost all = ders(certs@);
    let mut store = empty_store();
    for der in it: certs
        invariant
            all == ders(it.seq()),
            all == ders(certs@),
            anchors_of(all.take(it.index() as int)) == Ok::<Seq<Anchor>, Seq<char>>(
                store_anchors(store),
            ),
    {
        proof {
            let k = it.index() as int;
            assert(all.take(k + 1).drop_last() == all.take(k));
            assert(all.take(k + 1).last() == der@);
        }
        if let Err(e) = add_certificate(&mut store, der) {
            proof {
                lemma_refused_part(all, it.index() as int + 1);
            }
            return Err(e);
        }
    }
    assert(all.take(all.len() as int) == all);
    Ok(store)
}

/// Takes the sections of a CA file for roots of trust.
pub fn accept_roots(parsed: Result<Vec<Vec<u8>>, String>) -> (res: Result<
    RootCertStore,
    CertificateError,
>)
    ensures
        roots_from(sections(parsed)) == (match res {
            Ok(store) => Ok(store_anchors(store)),
            Err(error) => Err(error@),
        }),
{
    match parsed {
        Err(e) => Err(CertificateError::InvalidCACertificate(e)),
        Ok(certs) => match trust(certs) {
            Err(e) => Err(CertificateError::AddCACertificate(e)),
            Ok(store) => Ok(store),
        },
    }
}

/// Takes the sections of a client certificate file for the client's certificates.
pub fn accept_client_certs(parsed: Result<Vec<Vec<u8>>, String>) -> (res: Result<
    Vec<Vec<u8>>,
    CertificateError,
>)
    ensures
        certs_from(sections(parsed)) == (match res {
            Ok(certs) => Ok(ders(certs@)),
            Err(error) => Err(error@),
        }),
{
    match parsed {
        Err(e) => Err(CertificateError::InvalidClientCertificate(e)),
        Ok(certs) => Ok(certs),
    }
}

/// Takes the key section of a key file for the client's private key.
pub fn accept_client_key(parsed: Result<Option<PrivateKeyFile>, String>) -> (res: Result<
    PrivateKeyFile,
    CertificateError,
>)
    ensures
        key_from(key_section(parsed)) == (match res {
            Ok(key) => Ok(key@),
            Err(error) => Err(error@),
        }),
{
    match parsed {
        Err(e) => Err(CertificateError::InvalidPrivateKey(e)),
        Ok(None) => Err(CertificateError::NoPrivateKey),
        Ok(Some(key)) => Ok(key),
    }
}

/// Takes the key section before a failure to read a key file for the client's private key.
pub fn accept_key_before(
    parsed: Result<Option<PrivateKeyFile>, String>,
    failure: String,
) -> (res: Result<PrivateKeyFile, CertificateError>)
    ensures
        key_before(key_section(parsed), failure@) == (match res {
            Ok(key) => Ok(key@),
            Err(error) => Err(error@),
        }),
{
    match parsed {
        Ok(Some(key)) => Ok(key),
        Ok(None) => Err(CertificateError::InvalidPrivateKey(accept_fault(None, failure))),
        Err(text) => Err(CertificateError::InvalidPrivateKey(accept_fault(Some(text), failure))),
    }
}

/// Settles the text of the error for a file that could not be read to its end.
pub fn accept_fault(found: Option<String>, failure: String) -> (text: String)
    ensures
        text@ == read_fault(
            match found {
                Some(text) => Some(text@),
                None => None,
            },
            failure@,
        ),
{
    match found {
        Some(text) => if starts_with(text.as_str(), "section end ") {
            failure
        } else {
            text
        },
        None => failure,
    }
}

/// Cuts off the last line of a file where it has no end.
fn cut_to_lines(pem: &[u8]) -> (lines: &[u8])
    ensures
        lines@ == whole_lines(pem@),
{
    let mut len: usize = pem.len();
    assert(pem@.take(len as int) == pem@);
    while len > 0 && pem[len - 1] != 0x0a && pem[len - 1] != 0x0d
        invariant
            len <= pem@.len(),
            whole_lines(pem@.take(len as int)) == whole_lines(pem@),
        decreases len,
    {
        assert(pem@.take(len as int).drop_last() == pem@.take(len - 1));
        len = len - 1;
    }
    slice_subrange(pem, 0, len)
}

/// Reads the certificates of a PEM file.
fn find_certificates(pem: &[u8]) -> (res: Result<Vec<Vec<u8>>, String>)
    ensures
        certificates_in(pem@) == sections(res),
{
    let res = read_certificates(pem);
    assert(dashless(pem@) ==> ders(res->Ok_0@) == Seq::<Seq<u8>>::empty());
    res
}

/// Reads the private key of a PEM file.
fn find_key(pem: &[u8]) -> (res: Result<Option<PrivateKeyFile>, String>)
    ensures
        key_in(pem@) == key_section(res),
{
    read_private_key(pem)
}

/// The text of the error for a certificate file that could not be read to its end.
fn certificate_fault(pem: &[u8], failure: String) -> (text: String)
    ensures
        text@ == read_fault(fault_of(certificates_in(whole_lines(pem@))), failure@),
{
    let found = match find_certificates(cut_to_lines(pem)) {
        Ok(_) => None,
        Err(text) => Some(text),
    };
    accept_fault(found, failure)
}

/// Reads the roots of trust out of a CA file.
pub fn read_roots(read: FileRead) -> (res: Result<RootCertStore, CertificateError>)
    ensures
        ca_roots(read@) == (match res {
            Ok(store) => Ok(store_anchors(store)),
            Err(error) => Err(error@),
        }),
{
    match read {
        FileRead::NotOpened(e) => Err(CertificateError::InvalidCACertificatePath(e)),
        FileRead::NotRead(pem, e) => Err(
            CertificateError::InvalidCACertificate(certificate_fault(pem.as_slice(), e)),
        ),
        FileRead::Contents(pem) => accept_roots(find_certificates(pem.as_slice())),
    }
}

/// Reads the certificates out of a client certificate file.
pub fn read_client_certs(read: FileRead) -> (res: Result<Vec<Vec<u8>>, CertificateError>)
    ensures
        client_certs(read@) == (match res {
            Ok(certs) => Ok(ders(certs@)),
            Err(error) => Err(error@),
        }),
{
    match read {
        FileRead::NotOpened(e) => Err(CertificateError::InvalidClientCertificatePath(e)),
        FileRead::NotRead(pem, e) => Err(
            CertificateError::InvalidClientCertificate(certificate_fault(pem.as_slice(), e)),
        ),
        FileRead::Contents(pem) => accept_client_certs(find_certificates(pem.as_slice())),
    }
}

/// Reads the private key out of a key file.
pub fn read_client_key(read: FileRead) -> (res: Result<PrivateKeyFile, CertificateError>)
    ensures
        client_key(read@) == (match res {
            Ok(key) => Ok(key@),
            Err(error) => Err(error@),
        }),
{
    match read {
        FileRead::NotOpened(e) => Err(CertificateError::InvalidPrivateKeyPath(e)),
        FileRead::NotRead(pem, e) => accept_key_before(find_key(cut_to_lines(pem.as_slice())), e),
        FileRead::Contents(pem) => accept_client_key(find_key(pem.as_slice())),
    }
}

} // verus!
