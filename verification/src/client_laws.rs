//! What the certificate files come to, and the client that is built from them: laws on calls,
//! stated over what the files hold.

use vstd::prelude::*;

use crate::certificate_files::{
    accept_client_certs, accept_client_key, accept_fault, accept_key_before, accept_roots,
    anchors_of, ca_roots, certificates_in, client_certs, client_key, ends_line, key_in,
    read_client_certs, read_client_key, read_roots, says_unended, whole_lines, FileModel, FileRead,
};
use crate::client_build::{
    accept_client, accept_client_auth, answered, authenticated, build_starts, build_steps,
    good_files, tls_from_files, BuildModel, ClientBuild,
};
use crate::config::{watched, ClientCert, RemoteSignerConfig};
use crate::error::{CertificateError, CertificateErrorModel, RemoteSignerError};
use crate::http::{builds, HttpClient, HttpModel};
use crate::tls::{
    authenticates, ders, pem_certificates, pem_private_key, store_anchors, trust_anchor, Anchor,
    KeyModel, PrivateKeyFile, TlsConfig, TlsModel,
};

verus! {

/// The model of what came of reading a file has the same bytes and texts.
pub proof fn law_file_models(e: String, bytes: Vec<u8>)
    ensures
        FileRead::NotOpened(e)@ == FileModel::NotOpened(e@),
        FileRead::NotRead(bytes, e)@ == FileModel::NotRead(bytes@, e@),
        FileRead::Contents(bytes)@ == FileModel::Contents(bytes@),
{
}

/// The model of a private key has its encoding and its bytes.
pub proof fn law_key_model(key: PrivateKeyFile)
    ensures
        key@.encoding == key.encoding,
        key@.der == key.der@,
{
}

/// The PEM file holds these certificates, in this order. Without a dash it holds none.
pub open spec fn holds_certificates(pem: Seq<u8>, certs: Seq<Seq<u8>>) -> bool {
    if pem.contains(0x2du8) {
        pem_certificates(pem) == Ok::<_, Seq<char>>(certs)
    } else {
        certs.len() == 0
    }
}

/// The PEM reader finds this fault among the certificates of the file.
pub open spec fn has_fault(pem: Seq<u8>, fault: Seq<char>) -> bool {
    pem.contains(0x2du8) && pem_certificates(pem) == Err::<Seq<Seq<u8>>, _>(fault)
}

/// The first private key of the PEM file is this one, or there is none. Without a dash there is
/// none.
pub open spec fn holds_key(pem: Seq<u8>, key: Option<KeyModel>) -> bool {
    if pem.contains(0x2du8) {
        pem_private_key(pem) == Ok::<_, Seq<char>>(key)
    } else {
        key is None
    }
}

/// The PEM reader finds this fault before any private key of the file.
pub open spec fn has_key_fault(pem: Seq<u8>, fault: Seq<char>) -> bool {
    pem.contains(0x2du8) && pem_private_key(pem) == Err::<Option<KeyModel>, _>(fault)
}

/// The bytes are whole lines and then a line without an end. A line ends with a line feed or a
/// carriage return.
pub open spec fn splits(pem: Seq<u8>, lines: Seq<u8>, tail: Seq<u8>) -> bool {
    &&& pem == lines + tail
    &&& lines.len() > 0 ==> lines.last() == 0x0a || lines.last() == 0x0d
    &&& forall|i: int| 0 <= i < tail.len() ==> #[trigger] tail[i] != 0x0a && tail[i] != 0x0d
}

/// The fault is no more than that a section has no end.
pub open spec fn is_only_unended(fault: Seq<char>) -> bool {
    exists|rest: Seq<char>| fault == #[trigger] ("section end "@ + rest)
}

/// The text for certificates that could not be read to their end: that of a fault before, unless it
/// is only that a section has no end; else that of the failure to read.
pub open spec fn is_read_failure(lines: Seq<u8>, failure: Seq<char>, text: Seq<char>) -> bool {
    ||| has_fault(lines, text) && !is_only_unended(text)
    ||| text == failure && (forall|x: Seq<char>| #[trigger]
        has_fault(lines, x) ==> is_only_unended(x))
}

/// The roots of trust are those of the certificates, one for each, in order.
pub open spec fn are_roots_of(roots: Seq<Anchor>, certs: Seq<Seq<u8>>) -> bool {
    &&& roots.len() == certs.len()
    &&& forall|i: int|
        #![trigger roots[i]]
        0 <= i < roots.len() ==> trust_anchor(certs[i]) == Ok::<_, Seq<char>>(roots[i])
}

/// The CA file gives these roots of trust: one for each of its certificates, in order.
pub open spec fn ca_gives(read: FileModel, roots: Seq<Anchor>) -> bool {
    read matches FileModel::Contents(pem) && exists|certs: Seq<Seq<u8>>| #[trigger]
        holds_certificates(pem, certs) && are_roots_of(roots, certs)
}

/// The first certificate that makes no root of trust is refused with this text.
pub open spec fn first_refusal(certs: Seq<Seq<u8>>, k: int, text: Seq<char>) -> bool {
    &&& 0 <= k < certs.len()
    &&& trust_anchor(certs[k]) == Err::<Anchor, _>(text)
    &&& forall|j: int| 0 <= j < k ==> trust_anchor(#[trigger] certs[j]) is Ok
}

/// The PEM file holds a certificate that makes no root of trust; the first of them is refused with
/// this text.
pub open spec fn has_refused_root(pem: Seq<u8>, text: Seq<char>) -> bool {
    exists|certs: Seq<Seq<u8>>, k: int|
        #![trigger first_refusal(certs, k, text)]
        holds_certificates(pem, certs) && first_refusal(certs, k, text)
}

/// The CA file fails with this error.
pub open spec fn ca_fails(read: FileModel, error: CertificateErrorModel) -> bool {
    match read {
        FileModel::NotOpened(e) => error == CertificateErrorModel::InvalidCACertificatePath(e),
        FileModel::NotRead(pem, e) => error matches CertificateErrorModel::InvalidCACertificate(
            text,
        ) && exists|lines: Seq<u8>, tail: Seq<u8>| #[trigger]
            splits(pem, lines, tail) && is_read_failure(lines, e, text),
        FileModel::Contents(pem) => {
            ||| error matches CertificateErrorModel::InvalidCACertificate(text) && has_fault(
                pem,
                text,
            )
            ||| error matches CertificateErrorModel::AddCACertificate(text) && has_refused_root(
                pem,
                text,
            )
        },
    }
}

/// The client certificate file gives these certificates.
pub open spec fn cert_gives(read: FileModel, certs: Seq<Seq<u8>>) -> bool {
    read matches FileModel::Contents(pem) && holds_certificates(pem, certs)
}

/// The client certificate file fails with this error.
pub open spec fn cert_fails(read: FileModel, error: CertificateErrorModel) -> bool {
    match read {
        FileModel::NotOpened(e) => error == CertificateErrorModel::InvalidClientCertificatePath(e),
        FileModel::NotRead(pem, e) => error matches CertificateErrorModel::InvalidClientCertificate(
            text,
        ) && exists|lines: Seq<u8>, tail: Seq<u8>| #[trigger]
            splits(pem, lines, tail) && is_read_failure(lines, e, text),
        FileModel::Contents(pem) => error
            matches CertificateErrorModel::InvalidClientCertificate(text) && has_fault(pem, text),
    }
}

/// The key file gives this key: the first one, even where reading fails behind it.
pub open spec fn key_gives(read: FileModel, key: KeyModel) -> bool {
    match read {
        FileModel::NotOpened(_) => false,
        FileModel::NotRead(pem, _) => exists|lines: Seq<u8>, tail: Seq<u8>| #[trigger]
            splits(pem, lines, tail) && holds_key(lines, Some(key)),
        FileModel::Contents(pem) => holds_key(pem, Some(key)),
    }
}

/// The text for a key file that could not be read to its end and holds no key before.
pub open spec fn is_key_read_failure(lines: Seq<u8>, failure: Seq<char>, text: Seq<char>) -> bool {
    ||| has_key_fault(lines, text) && !is_only_unended(text)
    ||| text == failure && (holds_key(lines, None) || exists|x: Seq<char>| #[trigger]
        has_key_fault(lines, x) && is_only_unended(x))
}

/// The key file fails with this error.
pub open spec fn key_fails(read: FileModel, error: CertificateErrorModel) -> bool {
    match read {
        FileModel::NotOpened(e) => error == CertificateErrorModel::InvalidPrivateKeyPath(e),
        FileModel::NotRead(pem, e) => error matches CertificateErrorModel::InvalidPrivateKey(text)
            && exists|lines: Seq<u8>, tail: Seq<u8>| #[trigger]
            splits(pem, lines, tail) && is_key_read_failure(lines, e, text),
        FileModel::Contents(pem) => {
            ||| error is NoPrivateKey && holds_key(pem, None)
            ||| error matches CertificateErrorModel::InvalidPrivateKey(text) && has_key_fault(
                pem,
                text,
            )
        },
    }
}

proof fn lemma_splits(pem: Seq<u8>)
    ensures
        splits(pem, whole_lines(pem), pem.skip(whole_lines(pem).len() as int)),
        whole_lines(pem).len() <= pem.len(),
    decreases pem.len(),
{
    let lines = whole_lines(pem);
    if pem.len() == 0 || ends_line(pem.last()) {
        assert(pem =~= lines + pem.skip(lines.len() as int));
    } else {
        let before = pem.drop_last();
        lemma_splits(before);
        let tail = pem.skip(lines.len() as int);
        let tail_before = before.skip(lines.len() as int);
        assert(tail =~= tail_before.push(pem.last()));
        assert(pem =~= before.push(pem.last()));
        assert(pem =~= lines + tail);
        assert forall|i: int| 0 <= i < tail.len() implies #[trigger] tail[i] != 0x0a && tail[i]
            != 0x0d by {
            if i < tail_before.len() {
                assert(tail_before[i] == tail[i]);
            }
        }
    }
}

proof fn lemma_unended(fault: Seq<char>)
    ensures
        says_unended(fault) <==> is_only_unended(fault),
{
    let head = "section end "@;
    if says_unended(fault) {
        assert(fault =~= head + fault.skip(head.len() as int));
    }
    assert forall|rest: Seq<char>| fault == #[trigger] (head + rest) implies says_unended(
        fault,
    ) by {
        assert(head =~= fault.subrange(0, head.len() as int));
    }
}

proof fn lemma_anchors(certs: Seq<Seq<u8>>)
    ensures
        anchors_of(certs) is Ok ==> are_roots_of(anchors_of(certs)->Ok_0, certs),
        anchors_of(certs) is Err ==> exists|k: int| #[trigger]
            first_refusal(certs, k, anchors_of(certs)->Err_0),
    decreases certs.len(),
{
    if certs.len() > 0 {
        let before = certs.drop_last();
        lemma_anchors(before);
        match anchors_of(before) {
            Err(text) => {
                let k = choose|k: int| #[trigger] first_refusal(before, k, text);
                assert(anchors_of(certs)->Err_0 == text);
                assert(first_refusal(certs, k, text)) by {
                    assert forall|j: int| 0 <= j < k implies trust_anchor(
                        #[trigger] certs[j],
                    ) is Ok by {
                        assert(before[j] == certs[j]);
                    }
                }
            },
            Ok(roots) => {
                if let Err(text) = trust_anchor(certs.last()) {
                    assert(anchors_of(certs)->Err_0 == text);
                    assert(first_refusal(certs, certs.len() - 1, text)) by {
                        assert forall|j: int| 0 <= j < certs.len() - 1 implies trust_anchor(
                            #[trigger] certs[j],
                        ) is Ok by {
                            assert(trust_anchor(before[j]) == Ok::<_, Seq<char>>(roots[j]));
                        }
                    }
                } else {
                    let all = anchors_of(certs)->Ok_0;
                    assert forall|i: int|
                        #![trigger all[i]]
                        0 <= i < all.len() implies trust_anchor(certs[i]) == Ok::<_, Seq<char>>(
                        all[i],
                    ) by {
                        if i < roots.len() {
                            assert(all[i] == roots[i]);
                            assert(before[i] == certs[i]);
                        }
                    }
                    assert(are_roots_of(all, certs));
                }
            },
        }
    }
}

proof fn lemma_certificate_failure(pem: Seq<u8>, e: Seq<char>, text: Seq<char>)
    requires
        text == (match certificates_in(whole_lines(pem)) {
            Ok(_) => e,
            Err(x) => if says_unended(x) {
                e
            } else {
                x
            },
        }),
    ensures
        exists|lines: Seq<u8>, tail: Seq<u8>| #[trigger]
            splits(pem, lines, tail) && is_read_failure(lines, e, text),
{
    let lines = whole_lines(pem);
    lemma_splits(pem);
    if let Err(x) = certificates_in(lines) {
        lemma_unended(x);
    }
    assert(is_read_failure(lines, e, text));
}

/// A CA file comes to the roots of trust that it gives, or to the error that it fails with.
pub proof fn law_ca_file(read: FileModel)
    ensures
        ca_roots(read) is Ok ==> ca_gives(read, ca_roots(read)->Ok_0),
        ca_roots(read) is Err ==> ca_fails(read, ca_roots(read)->Err_0),
{
    match read {
        FileModel::NotOpened(e) => {
            assert(ca_fails(read, CertificateErrorModel::InvalidCACertificatePath(e)));
        },
        FileModel::NotRead(pem, e) => {
            let text = ca_roots(read)->Err_0->InvalidCACertificate_0;
            lemma_certificate_failure(pem, e, text);
            assert(ca_fails(read, CertificateErrorModel::InvalidCACertificate(text)));
        },
        FileModel::Contents(pem) => {
            if let Ok(certs) = certificates_in(pem) {
                lemma_anchors(certs);
                assert(holds_certificates(pem, certs));
                if let Err(text) = anchors_of(certs) {
                    let k = choose|k: int| #[trigger] first_refusal(certs, k, text);
                    assert(first_refusal(certs, k, text));
                    assert(has_refused_root(pem, text));
                }
            }
        },
    }
}

/// A CA file has one meaning: what it gives or fails with is what it comes to.
pub proof fn law_ca_file_has_one_meaning(
    read: FileModel,
    roots: Seq<Anchor>,
    error: CertificateErrorModel,
)
    ensures
        ca_gives(read, roots) ==> ca_roots(read) == Ok::<_, CertificateErrorModel>(roots),
        read is Contents && ca_fails(read, error) ==> ca_roots(read) == Err::<Seq<Anchor>, _>(
            error,
        ),
{
    law_ca_file(read);
    if let FileModel::Contents(pem) = read {
        if let Ok(certs) = certificates_in(pem) {
            lemma_anchors(certs);
            if ca_gives(read, roots) {
                let held = choose|held: Seq<Seq<u8>>| #[trigger]
                    holds_certificates(pem, held) && are_roots_of(roots, held);
                assert(held =~= certs);
                if let Err(text) = anchors_of(certs) {
                    let k = choose|k: int| #[trigger] first_refusal(certs, k, text);
                    assert(trust_anchor(held[k]) == Ok::<_, Seq<char>>(roots[k]));
                } else {
                    let found = anchors_of(certs)->Ok_0;
                    assert forall|i: int| 0 <= i < roots.len() implies found[i] == roots[i] by {
                        assert(trust_anchor(certs[i]) == Ok::<_, Seq<char>>(found[i]));
                    }
                    assert(found =~= roots);
                }
            }
            if ca_fails(read, error) && error is AddCACertificate {
                let text = error->AddCACertificate_0;
                let (held, k) = choose|held: Seq<Seq<u8>>, k: int|
                    #![trigger first_refusal(held, k, text)]
                    holds_certificates(pem, held) && first_refusal(held, k, text);
                assert(held =~= certs);
                if let Err(other) = anchors_of(certs) {
                    let m = choose|m: int| #[trigger] first_refusal(certs, m, other);
                    assert(first_refusal(certs, m, other));
                    if m < k {
                        assert(trust_anchor(held[m]) is Ok);
                    }
                    if k < m {
                        assert(trust_anchor(certs[k]) is Ok);
                    }
                } else {
                    let found = anchors_of(certs)->Ok_0;
                    assert(trust_anchor(certs[k]) == Ok::<_, Seq<char>>(found[k]));
                }
            }
        }
    }
}

/// A client certificate file comes to the certificates that it gives, or to the error that it fails
/// with.
pub proof fn law_client_certificate_file(read: FileModel)
    ensures
        match client_certs(read) {
            Ok(certs) => cert_gives(read, certs),
            Err(error) => cert_fails(read, error),
        },
{
    if let FileModel::NotRead(pem, e) = read {
        lemma_certificate_failure(pem, e, client_certs(read)->Err_0->InvalidClientCertificate_0);
    }
}

/// What a client certificate file gives is what it comes to.
pub proof fn law_client_certificate_file_has_one_meaning(read: FileModel, certs: Seq<Seq<u8>>)
    requires
        cert_gives(read, certs),
    ensures
        client_certs(read) == Ok::<_, CertificateErrorModel>(certs),
{
    assert(client_certs(read)->Ok_0 =~= certs);
}

/// A key file comes to the key that it gives, or to the error that it fails with.
pub proof fn law_key_file(read: FileModel)
    ensures
        match client_key(read) {
            Ok(key) => key_gives(read, key),
            Err(error) => key_fails(read, error),
        },
{
    if let FileModel::NotRead(pem, e) = read {
        let lines = whole_lines(pem);
        lemma_splits(pem);
        match key_in(lines) {
            Ok(Some(key)) => {
                assert(holds_key(lines, Some(key)));
            },
            Ok(None) => {
                assert(holds_key(lines, None));
                assert(is_key_read_failure(lines, e, e));
            },
            Err(x) => {
                lemma_unended(x);
                assert(has_key_fault(lines, x));
                assert(is_key_read_failure(
                    lines,
                    e,
                    client_key(read)->Err_0->InvalidPrivateKey_0,
                ));
            },
        }
    }
}

/// What a key file with readable contents gives is what it comes to.
pub proof fn law_key_file_has_one_meaning(pem: Seq<u8>, key: KeyModel)
    requires
        holds_key(pem, Some(key)),
    ensures
        client_key(FileModel::Contents(pem)) == Ok::<_, CertificateErrorModel>(key),
{
}

/// Reading a CA file gives what the file gives, or fails as the file does.
pub proof fn law_read_roots(
    read: FileRead,
    res: Result<rustls::RootCertStore, CertificateError>,
)
    requires
        call_ensures(read_roots, (read,), res),
    ensures
        match res {
            Ok(store) => ca_gives(read@, store_anchors(store)),
            Err(error) => ca_fails(read@, error@),
        },
{
    law_ca_file(read@);
}

/// Reading a client certificate file gives what the file gives, or fails as the file does.
pub proof fn law_read_client_certs(
    read: FileRead,
    res: Result<Vec<Vec<u8>>, CertificateError>,
)
    requires
        call_ensures(read_client_certs, (read,), res),
    ensures
        match res {
            Ok(certs) => cert_gives(read@, Seq::new(certs@.len(), |i: int| certs@[i]@)),
            Err(error) => cert_fails(read@, error@),
        },
{
    law_client_certificate_file(read@);
    if let Ok(certs) = res {
        assert(ders(certs@) =~= Seq::new(certs@.len(), |i: int| certs@[i]@));
    }
}

/// Reading a key file gives what the file gives, or fails as the file does.
pub proof fn law_read_client_key(read: FileRead, res: Result<PrivateKeyFile, CertificateError>)
    requires
        call_ensures(read_client_key, (read,), res),
    ensures
        match res {
            Ok(key) => key_gives(read@, key@),
            Err(error) => key_fails(read@, error@),
        },
{
    law_key_file(read@);
}

/// The model of a build stands where the build stands, and holds what it holds.
pub proof fn law_build_models(
    store: rustls::RootCertStore,
    certs: Vec<Vec<u8>>,
    client: HttpClient,
    error: RemoteSignerError,
)
    ensures
        ClientBuild::CaFile@ == BuildModel::CaFile,
        ClientBuild::ClientCertFile(store)@ == BuildModel::ClientCertFile(store_anchors(store)),
        ClientBuild::ClientKeyFile(store, certs)@ == BuildModel::ClientKeyFile(
            store_anchors(store),
            Seq::new(certs@.len(), |i: int| certs@[i]@),
        ),
        ClientBuild::Finished(Ok(client))@ == BuildModel::Finished(Ok(client@)),
        ClientBuild::Finished(Err(error))@ == BuildModel::Finished(Err(error@)),
{
    assert(ders(certs@) =~= Seq::new(certs@.len(), |i: int| certs@[i]@));
}

/// The client has the configured time limit and uses its own TLS configuration.
pub open spec fn is_plain_client(config: RemoteSignerConfig, client: HttpModel) -> bool {
    client.timeout_secs == config.timeout_secs && client.tls is None
}

/// The client has the configured time limit, trusts these roots alone, and presents nothing.
pub open spec fn is_trusting_client(
    config: RemoteSignerConfig,
    client: HttpModel,
    roots: Seq<Anchor>,
) -> bool {
    &&& client.timeout_secs == config.timeout_secs
    &&& client.tls is Some
    &&& client.tls->Some_0.roots == roots
    &&& client.tls->Some_0.client_auth is None
}

/// The client has the configured time limit, trusts these roots alone, and presents these
/// certificates with this key.
pub open spec fn is_presenting_client(
    config: RemoteSignerConfig,
    client: HttpModel,
    roots: Seq<Anchor>,
    certs: Seq<Seq<u8>>,
    key: KeyModel,
) -> bool {
    &&& client.timeout_secs == config.timeout_secs
    &&& client.tls is Some
    &&& client.tls->Some_0.roots == roots
    &&& client.tls->Some_0.client_auth is Some
    &&& client.tls->Some_0.client_auth->Some_0.0 == certs
    &&& client.tls->Some_0.client_auth->Some_0.1 == key
}

/// Where the build of a configuration begins: with the CA file where one is named, else with the
/// client certificate and no roots of trust, else it is over, with a plain client or with the
/// failure to build one, in the words of that failure.
pub open spec fn begins_build(config: RemoteSignerConfig, build: BuildModel) -> bool {
    if config.ca_cert is Some {
        build is CaFile
    } else if config.client_cert is Some {
        build matches BuildModel::ClientCertFile(roots) && roots.len() == 0
    } else {
        match build {
            BuildModel::Finished(Ok(client)) => {
                &&& is_plain_client(config, client)
                &&& builds(client, Ok(client))
            },
            BuildModel::Finished(Err(error)) => {
                &&& error is BuildError
                &&& exists|client: HttpModel|
                    is_plain_client(config, client) && #[trigger] builds(
                        client,
                        Err(error->BuildError_0),
                    )
            },
            _ => false,
        }
    }
}

/// The build is over with an error about a certificate or a key.
pub open spec fn ends_refused(build: BuildModel) -> bool {
    build matches BuildModel::Finished(Err(error)) && error is CertificateError
}

/// The error about a certificate or a key that a build is over with.
pub open spec fn refusal_of(build: BuildModel) -> CertificateErrorModel {
    build->Finished_0->Err_0->CertificateError_0
}

/// What the CA file does to a build: with the roots of trust that it gives, a client that trusts
/// them, or a build that wants the client certificate; with its error, the end.
pub open spec fn takes_ca_file(
    config: RemoteSignerConfig,
    read: FileModel,
    post: BuildModel,
) -> bool {
    match post {
        BuildModel::Finished(Ok(client)) => {
            &&& config.client_cert is None
            &&& client.tls is Some
            &&& ca_gives(read, client.tls->Some_0.roots)
            &&& is_trusting_client(config, client, client.tls->Some_0.roots)
        },
        BuildModel::ClientCertFile(roots) => config.client_cert is Some && ca_gives(read, roots),
        _ => ends_refused(post) && ca_fails(read, refusal_of(post)),
    }
}

/// What the client certificate file does to a build: with the certificates that it gives, the key
/// is wanted, and the roots of trust stay; with its error, the end.
pub open spec fn takes_client_certificate(
    roots: Seq<Anchor>,
    read: FileModel,
    post: BuildModel,
) -> bool {
    match post {
        BuildModel::ClientKeyFile(same, certs) => same == roots && cert_gives(read, certs),
        _ => ends_refused(post) && cert_fails(read, refusal_of(post)),
    }
}

/// The cryptography provider takes the key with its certificates.
pub open spec fn is_taken(roots: Seq<Anchor>, certs: Seq<Seq<u8>>, key: KeyModel) -> bool {
    exists|answer: Result<(), Seq<char>>| #[trigger]
        authenticates(roots, certs, key, answer) && answer is Ok
}

/// What the key file does to a build: with the key that it gives, a client that trusts the roots
/// and presents the certificates with the key, where the cryptography provider takes them, or else
/// the end in the words of its refusal; with its error, the end.
pub open spec fn takes_key(
    config: RemoteSignerConfig,
    roots: Seq<Anchor>,
    certs: Seq<Seq<u8>>,
    read: FileModel,
    post: BuildModel,
) -> bool {
    match post {
        BuildModel::Finished(Ok(client)) => exists|key: KeyModel| #[trigger]
            key_gives(read, key) && is_presenting_client(config, client, roots, certs, key)
                && is_taken(roots, certs, key),
        _ => ends_refused(post) && if refusal_of(post) is ConfigureClientAuth {
            exists|key: KeyModel| #[trigger]
                key_gives(read, key) && authenticates(
                    roots,
                    certs,
                    key,
                    Err(refusal_of(post)->ConfigureClientAuth_0),
                )
        } else {
            key_fails(read, refusal_of(post))
        },
    }
}

/// What a file does to a build. A build that is over stays as it is.
pub open spec fn takes_file(
    config: RemoteSignerConfig,
    pre: BuildModel,
    read: FileModel,
    post: BuildModel,
) -> bool {
    match pre {
        BuildModel::CaFile => takes_ca_file(config, read, post),
        BuildModel::ClientCertFile(roots) => takes_client_certificate(roots, read, post),
        BuildModel::ClientKeyFile(roots, certs) => takes_key(config, roots, certs, read, post),
        BuildModel::Finished(_) => post == pre,
    }
}

/// A build begins with what the configuration names.
pub proof fn law_build_begins(config: RemoteSignerConfig, build: BuildModel)
    requires
        build_starts(config, build),
    ensures
        begins_build(config, build),
{
}

/// A build goes on with what its files hold.
pub proof fn law_build_takes_file(
    config: RemoteSignerConfig,
    pre: BuildModel,
    read: FileModel,
    post: BuildModel,
)
    requires
        build_steps(config, pre, read, post),
    ensures
        takes_file(config, pre, read, post),
{
    match pre {
        BuildModel::CaFile => {
            law_ca_file(read);
        },
        BuildModel::ClientCertFile(_) => {
            law_client_certificate_file(read);
        },
        BuildModel::ClientKeyFile(roots, certs) => {
            law_key_file(read);
            if let Ok(key) = client_key(read) {
                let tls = TlsModel { roots, client_auth: Some((certs, key)) };
                let answer = choose|answer: Result<(), Seq<char>>| #[trigger]
                    authenticates(roots, certs, key, answer) && post == authenticated(
                        config,
                        answered(answer, tls),
                    );
                assert(key_gives(read, key));
                match answer {
                    Ok(()) => {
                        assert(is_taken(roots, certs, key));
                        assert(is_presenting_client(
                            config,
                            post->Finished_0->Ok_0,
                            roots,
                            certs,
                            key,
                        ));
                    },
                    Err(text) => {
                        assert(refusal_of(post)->ConfigureClientAuth_0 == text);
                    },
                }
                assert(takes_key(config, roots, certs, read, post));
            }
        },
        BuildModel::Finished(_) => {},
    }
}

/// Building the client of a configuration begins with what the configuration names.
pub proof fn law_build_http_client(config: RemoteSignerConfig, build: ClientBuild)
    requires
        call_ensures(ClientBuild::build_http_client, (&config,), build),
    ensures
        begins_build(config, build@),
{
}

/// Building a TLS configuration begins likewise; without certificates it is over at once, with a
/// client that trusts nobody and presents nothing.
pub proof fn law_build_tls_config(config: RemoteSignerConfig, build: ClientBuild)
    requires
        call_ensures(ClientBuild::build_tls_config, (&config,), build),
    ensures
        config.ca_cert is Some || config.client_cert is Some ==> begins_build(config, build@),
        config.ca_cert is None && config.client_cert is None ==> (build
            matches ClientBuild::Finished(Ok(client)) && is_trusting_client(
            config,
            client@,
            seq![],
        )),
{
}

/// A build that is handed a file goes on with what the file holds.
pub proof fn law_supply(
    pre: ClientBuild,
    config: RemoteSignerConfig,
    read: FileRead,
    post: ClientBuild,
)
    requires
        call_ensures(ClientBuild::supply, (pre, &config, read), post),
    ensures
        takes_file(config, pre@, read@, post@),
{
    law_build_takes_file(config, pre@, read@, post@);
}

/// A build wants the file that the configuration names for where it stands.
pub proof fn law_wanted(
    build: ClientBuild,
    config: RemoteSignerConfig,
    client: ClientCert,
    path: Option<&std::path::PathBuf>,
)
    requires
        call_ensures(ClientBuild::wanted, (&build, &config), path),
    ensures
        build is CaFile && config.ca_cert is Some ==> path is Some && *path->Some_0
            == config.ca_cert->Some_0,
        build is ClientCertFile && config.client_cert == Some(client) ==> path is Some
            && *path->Some_0 == client.cert,
        build is ClientKeyFile && config.client_cert == Some(client) ==> path is Some
            && *path->Some_0 == client.key,
        build is Finished ==> path is None,
{
}

/// With a CA file alone, the client trusts the roots that the CA file gives, and nobody else.
pub proof fn law_custom_ca_client_trusts_the_ca(
    config: RemoteSignerConfig,
    read: FileRead,
    roots: Seq<Anchor>,
    start: ClientBuild,
    end: ClientBuild,
)
    requires
        config.ca_cert is Some,
        config.client_cert is None,
        ca_gives(read@, roots),
        call_ensures(ClientBuild::build_http_client, (&config,), start),
        call_ensures(ClientBuild::supply, (start, &config, read), end),
    ensures
        end matches ClientBuild::Finished(Ok(client)) && is_trusting_client(
            config,
            client@,
            roots,
        ),
{
    law_ca_file_has_one_meaning(read@, roots, CertificateErrorModel::NoPrivateKey);
}

/// With a client certificate, the client presents the certificates and the key that the files give,
/// and trusts the roots that the CA file gives, or nobody without one. Only the cryptography
/// provider's refusal of just these can come in its place, in its words.
pub proof fn law_mutual_tls_client_presents_the_certificate(
    config: RemoteSignerConfig,
    ca: FileRead,
    cert: FileRead,
    key: FileRead,
    roots: Seq<Anchor>,
    certs: Seq<Seq<u8>>,
    pem: Seq<u8>,
    held: KeyModel,
    start: ClientBuild,
    rooted: ClientBuild,
    certified: ClientBuild,
    end: ClientBuild,
)
    requires
        config.client_cert is Some,
        call_ensures(ClientBuild::build_http_client, (&config,), start),
        if config.ca_cert is Some {
            ca_gives(ca@, roots) && call_ensures(
                ClientBuild::supply,
                (start, &config, ca),
                rooted,
            )
        } else {
            roots.len() == 0 && rooted == start
        },
        cert_gives(cert@, certs),
        key@ == FileModel::Contents(pem),
        holds_key(pem, Some(held)),
        call_ensures(ClientBuild::supply, (rooted, &config, cert), certified),
        call_ensures(ClientBuild::supply, (certified, &config, key), end),
    ensures
        end matches ClientBuild::Finished(res) && match res {
            Ok(client) => is_presenting_client(config, client@, roots, certs, held),
            Err(error) => error matches RemoteSignerError::CertificateError(
                CertificateError::ConfigureClientAuth(text),
            ) && authenticates(roots, certs, held, Err(text@)),
        },
{
    law_ca_file_has_one_meaning(ca@, roots, CertificateErrorModel::NoPrivateKey);
    law_client_certificate_file_has_one_meaning(cert@, certs);
    law_key_file_has_one_meaning(pem, held);
    if config.ca_cert is None {
        assert(roots =~= seq![]);
    }
}

/// What the files of a configuration give, as one TLS configuration: roots of trust from the CA
/// file, or none; certificates and key from the client's files, where they are named.
pub open spec fn files_give(
    config: RemoteSignerConfig,
    ca: FileModel,
    cert: FileModel,
    key: FileModel,
    tls: TlsModel,
) -> bool {
    &&& if config.ca_cert is Some {
        ca_gives(ca, tls.roots)
    } else {
        tls.roots.len() == 0
    }
    &&& if config.client_cert is Some {
        &&& tls.client_auth is Some
        &&& cert_gives(cert, tls.client_auth->Some_0.0)
        &&& key_gives(key, tls.client_auth->Some_0.1)
    } else {
        tls.client_auth is None
    }
}

/// Why the files of a configuration give no TLS configuration: the first bad one of them, in the
/// order CA file, certificate, key, or the refusal of certificate and key together.
pub open spec fn files_fail(
    config: RemoteSignerConfig,
    ca: FileModel,
    cert: FileModel,
    key: FileModel,
    error: CertificateErrorModel,
) -> bool {
    let good_ca = config.ca_cert is None || exists|roots: Seq<Anchor>| #[trigger]
        ca_gives(ca, roots);
    let good_cert = exists|certs: Seq<Seq<u8>>| #[trigger] cert_gives(cert, certs);
    let good_key = exists|held: KeyModel| #[trigger] key_gives(key, held);
    ||| config.ca_cert is Some && ca_fails(ca, error)
    ||| good_ca && config.client_cert is Some && cert_fails(cert, error)
    ||| good_ca && config.client_cert is Some && good_cert && key_fails(key, error)
    ||| good_ca && config.client_cert is Some && good_cert && good_key && error
        is ConfigureClientAuth
}

/// The TLS configuration that files come to is what they give; an error is why they give none.
pub proof fn law_tls_comes_from_files(
    config: RemoteSignerConfig,
    ca: FileModel,
    cert: FileModel,
    key: FileModel,
    answer: Result<(), Seq<char>>,
)
    ensures
        match tls_from_files(config, ca, cert, key, answer) {
            Ok(tls) => {
                &&& files_give(config, ca, cert, key, tls)
                &&& config.client_cert is Some ==> answer is Ok
            },
            Err(error) => {
                &&& files_fail(config, ca, cert, key, error)
                &&& error is ConfigureClientAuth ==> answer == Err::<(), _>(
                    error->ConfigureClientAuth_0,
                )
            },
        },
{
    law_ca_file(ca);
    law_client_certificate_file(cert);
    law_key_file(key);
    if let Ok(roots) = ca_roots(ca) {
        assert(ca_gives(ca, roots));
    }
    if let Ok(certs) = client_certs(cert) {
        assert(cert_gives(cert, certs));
    }
    if let Ok(held) = client_key(key) {
        assert(key_gives(key, held));
    }
}

/// Good files give the TLS configuration that they come to.
pub proof fn law_good_files_give(
    config: RemoteSignerConfig,
    ca: FileModel,
    cert: FileModel,
    key: FileModel,
)
    requires
        good_files(config, ca, cert, key),
    ensures
        files_give(config, ca, cert, key, tls_from_files(config, ca, cert, key, Ok(()))->Ok_0),
{
    law_tls_comes_from_files(config, ca, cert, key, Ok(()));
}

/// The files to watch: none without a client certificate; with one, its certificate, its key and
/// the CA file where one is named, in this order, and no other.
pub proof fn law_watched_files(
    config: RemoteSignerConfig,
    paths: Vec<&std::path::PathBuf>,
)
    requires
        call_ensures(RemoteSignerConfig::watched_files, (&config,), paths),
    ensures
        config.client_cert is None ==> paths@.len() == 0,
        config.client_cert is Some ==> {
            &&& paths@.len() == if config.ca_cert is Some {
                3int
            } else {
                2int
            }
            &&& *paths@[0] == config.client_cert->Some_0.cert
            &&& *paths@[1] == config.client_cert->Some_0.key
            &&& config.ca_cert is Some ==> *paths@[2] == config.ca_cert->Some_0
        },
{
    if config.client_cert is Some {
        assert(*paths@[0] == watched(config)[0]);
        assert(*paths@[1] == watched(config)[1]);
        if config.ca_cert is Some {
            assert(*paths@[2] == watched(config)[2]);
        }
    }
}

/// A clone of a configuration is the same in every setting.
pub proof fn law_configuration_clones(
    config: RemoteSignerConfig,
    same: RemoteSignerConfig,
    client: ClientCert,
    same_client: ClientCert,
)
    requires
        call_ensures(<RemoteSignerConfig as Clone>::clone, (&config,), same),
        call_ensures(<ClientCert as Clone>::clone, (&client,), same_client),
    ensures
        same.endpoint == config.endpoint,
        same.client_cert == config.client_cert,
        same.ca_cert == config.ca_cert,
        same.timeout_secs == config.timeout_secs,
        same_client.cert == client.cert,
        same_client.key == client.key,
{
}

/// What was found in a file is taken as it is, or its fault is passed on.
pub proof fn law_sections_are_taken(
    certs: Vec<Vec<u8>>,
    key: PrivateKeyFile,
    e: String,
    taken: Result<Vec<Vec<u8>>, CertificateError>,
    bad_certs: Result<Vec<Vec<u8>>, CertificateError>,
    bad_roots: Result<rustls::RootCertStore, CertificateError>,
    taken_key: Result<PrivateKeyFile, CertificateError>,
    no_key: Result<PrivateKeyFile, CertificateError>,
    bad_key: Result<PrivateKeyFile, CertificateError>,
)
    requires
        call_ensures(accept_client_certs, (Ok::<_, String>(certs),), taken),
        call_ensures(accept_client_certs, (Err::<Vec<Vec<u8>>, _>(e),), bad_certs),
        call_ensures(accept_roots, (Err::<Vec<Vec<u8>>, _>(e),), bad_roots),
        call_ensures(accept_client_key, (Ok::<_, String>(Some(key)),), taken_key),
        call_ensures(accept_client_key, (Ok::<Option<PrivateKeyFile>, String>(None),), no_key),
        call_ensures(accept_client_key, (Err::<Option<PrivateKeyFile>, _>(e),), bad_key),
    ensures
        taken is Ok && taken->Ok_0@.len() == certs@.len(),
        forall|i: int| 0 <= i < certs@.len() ==> taken->Ok_0@[i]@ == #[trigger] certs@[i]@,
        bad_certs matches Err(CertificateError::InvalidClientCertificate(text)) && text@ == e@,
        bad_roots matches Err(CertificateError::InvalidCACertificate(text)) && text@ == e@,
        taken_key is Ok && taken_key->Ok_0.encoding == key.encoding && taken_key->Ok_0.der@
            == key.der@,
        no_key matches Err(CertificateError::NoPrivateKey),
        bad_key matches Err(CertificateError::InvalidPrivateKey(text)) && text@ == e@,
{
    let found = ders(taken->Ok_0@);
    assert(found == ders(certs@));
    assert(found.len() == taken->Ok_0@.len());
    assert forall|i: int| 0 <= i < certs@.len() implies taken->Ok_0@[i]@
        == #[trigger] certs@[i]@ by {
        assert(found[i] == ders(certs@)[i]);
    }
}

/// Certificates are taken for roots of trust, one for each and in order, unless one of them makes
/// none: the first of those is named.
pub proof fn law_certificates_are_taken_for_roots(
    certs: Vec<Vec<u8>>,
    all: Seq<Seq<u8>>,
    res: Result<rustls::RootCertStore, CertificateError>,
)
    requires
        all.len() == certs@.len(),
        forall|i: int| 0 <= i < all.len() ==> #[trigger] all[i] == certs@[i]@,
        call_ensures(accept_roots, (Ok::<_, String>(certs),), res),
    ensures
        res is Ok ==> are_roots_of(store_anchors(res->Ok_0), all),
        res is Err ==> res->Err_0 is AddCACertificate && exists|k: int| #[trigger]
            first_refusal(all, k, res->Err_0->AddCACertificate_0@),
{
    assert(all =~= ders(certs@));
    lemma_anchors(all);
}

/// Of a file that could not be read to its end, a key before that is taken, and a fault before it
/// is reported, unless it is only that a section has no end; else the failure to read is.
pub proof fn law_unread_files(
    key: PrivateKeyFile,
    fault: String,
    failure: String,
    taken: Result<PrivateKeyFile, CertificateError>,
    none: Result<PrivateKeyFile, CertificateError>,
    bad: Result<PrivateKeyFile, CertificateError>,
    text: String,
    alone: String,
)
    requires
        call_ensures(accept_key_before, (Ok::<_, String>(Some(key)), failure), taken),
        call_ensures(
            accept_key_before,
            (Ok::<Option<PrivateKeyFile>, String>(None), failure),
            none,
        ),
        call_ensures(accept_key_before, (Err::<Option<PrivateKeyFile>, _>(fault), failure), bad),
        call_ensures(accept_fault, (Some(fault), failure), text),
        call_ensures(accept_fault, (None::<String>, failure), alone),
    ensures
        taken is Ok && taken->Ok_0.encoding == key.encoding && taken->Ok_0.der@ == key.der@,
        none matches Err(CertificateError::InvalidPrivateKey(t)) && t@ == failure@,
        bad matches Err(CertificateError::InvalidPrivateKey(t)) && t@ == text@,
        is_only_unended(fault@) ==> text@ == failure@,
        !is_only_unended(fault@) ==> text@ == fault@,
        alone@ == failure@,
{
    lemma_unended(fault@);
}

/// What came of the client's own build is taken as it is, or its text is passed on.
pub proof fn law_built_client_is_taken(
    client: HttpClient,
    e: String,
    taken: Result<HttpClient, RemoteSignerError>,
    failed: Result<HttpClient, RemoteSignerError>,
)
    requires
        call_ensures(accept_client, (Ok::<_, String>(client),), taken),
        call_ensures(accept_client, (Err::<HttpClient, _>(e),), failed),
    ensures
        taken matches Ok(same) && same == client,
        failed matches Err(RemoteSignerError::BuildError(text)) && text@ == e@,
{
}

/// With client authentication set up, the client has the configured time limit and that TLS
/// configuration; where it could not be set up, the text of that is passed on.
pub proof fn law_client_authentication_is_taken(
    config: RemoteSignerConfig,
    tls: TlsConfig,
    e: String,
    built: ClientBuild,
    failed: ClientBuild,
)
    requires
        call_ensures(accept_client_auth, (&config, Ok::<_, String>(tls)), built),
        call_ensures(accept_client_auth, (&config, Err::<TlsConfig, _>(e)), failed),
    ensures
        built matches ClientBuild::Finished(Ok(client)) && client@.timeout_secs
            == config.timeout_secs && client@.tls == Some(tls@),
        failed matches ClientBuild::Finished(
            Err(RemoteSignerError::CertificateError(CertificateError::ConfigureClientAuth(text))),
        ) && text@ == e@,
{
}

} // verus!
