//! Building the HTTP client of a remote signer.
//!
//! The files that a configuration names are read one after the other, each only once the one before
//! it turned out well. [`ClientBuild`] says which file is wanted next and takes its contents in;
//! the reading is done by whoever drives it.

use rustls::RootCertStore;
use vstd::prelude::*;

use crate::certificate_files::{
    ca_roots, client_certs, client_key, read_client_certs, read_client_key, read_roots, FileModel,
    FileRead,
};
use crate::config::RemoteSignerConfig;
use crate::error::{
    CertificateError, CertificateErrorModel, RemoteSignerError, RemoteSignerErrorModel,
};
use crate::http::{
    build_client, builds, http_builder, set_timeout, set_tls, HttpBuilder, HttpClient, HttpModel,
};
use crate::tls::{
    answer_of, authenticate, authenticates, dashless, ders, empty_store, store_anchors,
    without_client_auth, Anchor, TlsConfig, TlsModel,
};

verus! {

/// Where the building of a client stands.
pub enum ClientBuild {
    /// The CA file is wanted
    CaFile,
    /// The client certificate file is wanted; the roots of trust are there
    ClientCertFile(RootCertStore),
    /// The private key file is wanted; the roots of trust and the certificates are there
    ClientKeyFile(RootCertStore, Vec<Vec<u8>>),
    /// No file is wanted any more
    Finished(Result<HttpClient, RemoteSignerError>),
}

/// What came of building a client: what it was told, or the error.
pub type OutcomeModel = Result<HttpModel, RemoteSignerErrorModel>;

/// The model of a [`ClientBuild`].
pub enum BuildModel {
    CaFile,
    ClientCertFile(Seq<Anchor>),
    ClientKeyFile(Seq<Anchor>, Seq<Seq<u8>>),
    Finished(OutcomeModel),
}

/// The model of what came of building a client.
pub open spec fn outcome(res: Result<HttpClient, RemoteSignerError>) -> OutcomeModel {
    match res {
        Ok(client) => Ok(client@),
        Err(error) => Err(error@),
    }
}

impl View for ClientBuild {
    type V = BuildModel;

    open spec fn view(&self) -> BuildModel {
        match self {
            ClientBuild::CaFile => BuildModel::CaFile,
            ClientBuild::ClientCertFile(store) => BuildModel::ClientCertFile(store_anchors(*store)),
            ClientBuild::ClientKeyFile(store, certs) => BuildModel::ClientKeyFile(
                store_anchors(*store),
                ders(certs@),
            ),
            ClientBuild::Finished(res) => BuildModel::Finished(outcome(*res)),
        }
    }
}

/// Where a client is asked for with the given settings, what comes of it: such a client. Only where
/// the client is to use its own TLS configuration may there be a failure of the build in its place,
/// for reasons of the machine's own; its text is that of the failure.
pub open spec fn http_outcome(settings: HttpModel, out: OutcomeModel) -> bool {
    match out {
        Ok(client) => client == settings && builds(settings, Ok(settings)),
        Err(error) => {
            &&& settings.tls is None
            &&& error is BuildError
            &&& builds(settings, Err(error->BuildError_0))
        },
    }
}

/// The build is finished, with a client of this TLS configuration.
pub open spec fn finished_with_tls(config: RemoteSignerConfig, tls: TlsModel) -> BuildModel {
    BuildModel::Finished(Ok(HttpModel { timeout_secs: config.timeout_secs, tls: Some(tls) }))
}

/// Where a build stands once the roots of trust are there.
pub open spec fn rooted(config: RemoteSignerConfig, roots: Seq<Anchor>) -> BuildModel {
    if config.client_cert is Some {
        BuildModel::ClientCertFile(roots)
    } else {
        finished_with_tls(config, TlsModel { roots, client_auth: None })
    }
}

/// The build is finished, with an error about a certificate or a key.
pub open spec fn refused(error: CertificateErrorModel) -> BuildModel {
    BuildModel::Finished(Err(RemoteSignerErrorModel::CertificateError(error)))
}

/// The configuration names certificates.
pub open spec fn has_certificates(config: RemoteSignerConfig) -> bool {
    config.client_cert is Some || config.ca_cert is Some
}

/// Where a build of a TLS configuration starts. A CA file is wanted first where one is configured;
/// where none is, the client trusts nobody.
pub open spec fn tls_start(config: RemoteSignerConfig) -> BuildModel {
    if config.ca_cert is Some {
        BuildModel::CaFile
    } else {
        rooted(config, seq![])
    }
}

/// How a build starts. Without certificates it is finished at once, with a client that uses its
/// own TLS configuration.
pub open spec fn build_starts(config: RemoteSignerConfig, post: BuildModel) -> bool {
    if has_certificates(config) {
        post == tls_start(config)
    } else {
        &&& post is Finished
        &&& http_outcome(
            HttpModel { timeout_secs: config.timeout_secs, tls: None },
            post->Finished_0,
        )
    }
}

/// The TLS configuration, if the cryptography provider takes its key with its certificates.
pub open spec fn answered(answer: Result<(), Seq<char>>, tls: TlsModel) -> Result<
    TlsModel,
    Seq<char>,
> {
    match answer {
        Ok(()) => Ok(tls),
        Err(e) => Err(e),
    }
}

/// Where a build stands once client authentication was set up, or not.
pub open spec fn authenticated(
    config: RemoteSignerConfig,
    configured: Result<TlsModel, Seq<char>>,
) -> BuildModel {
    match configured {
        Ok(tls) => finished_with_tls(config, tls),
        Err(e) => refused(CertificateErrorModel::ConfigureClientAuth(e)),
    }
}

/// How a build goes on with the file that it wanted. Whether a key is taken with its certificates
/// is for the cryptography provider to say; all else is fixed by the files.
pub open spec fn build_steps(
    config: RemoteSignerConfig,
    pre: BuildModel,
    read: FileModel,
    post: BuildModel,
) -> bool {
    match pre {
        BuildModel::CaFile => match ca_roots(read) {
            Err(e) => post == refused(e),
            Ok(roots) => post == rooted(config, roots),
        },
        BuildModel::ClientCertFile(roots) => match client_certs(read) {
            Err(e) => post == refused(e),
            Ok(certs) => post == BuildModel::ClientKeyFile(roots, certs),
        },
        BuildModel::ClientKeyFile(roots, certs) => match client_key(read) {
            Err(e) => post == refused(e),
            Ok(key) => {
                let tls = TlsModel { roots, client_auth: Some((certs, key)) };
                exists|answer: Result<(), Seq<char>>| #[trigger]
                    authenticates(roots, certs, key, answer) && post == authenticated(
                        config,
                        answered(answer, tls),
                    )
            },
        },
        BuildModel::Finished(_) => post == pre,
    }
}

/// The file that a build wants next.
pub open spec fn wanted_file(config: RemoteSignerConfig, build: BuildModel) -> Option<
    std::path::PathBuf,
> {
    match build {
        BuildModel::CaFile => config.ca_cert,
        BuildModel::ClientCertFile(_) => match config.client_cert {
            None => None,
            Some(client) => Some(client.cert),
        },
        BuildModel::ClientKeyFile(_, _) => match config.client_cert {
            None => None,
            Some(client) => Some(client.key),
        },
        BuildModel::Finished(_) => None,
    }
}

/// Takes what came of the HTTP client's own build.
pub fn accept_client(built: Result<HttpClient, String>) -> (res: Result<
    HttpClient,
    RemoteSignerError,
>)
    ensures
        match built {
            Ok(client) => res == Ok::<HttpClient, RemoteSignerError>(client),
            Err(e) => res == Err::<HttpClient, RemoteSignerError>(RemoteSignerError::BuildError(e)),
        },
{
    match built {
        Ok(client) => Ok(client),
        Err(e) => Err(RemoteSignerError::BuildError(e)),
    }
}

/// Tells the builder of a client what the configuration asks for.
fn client_settings(config: &RemoteSignerConfig, tls: Option<TlsConfig>) -> (builder: HttpBuilder)
    ensures
        builder@ == (HttpModel {
            timeout_secs: config.timeout_secs,
            tls: match tls {
                None => None,
                Some(tls) => Some(tls@),
            },
        }),
{
    let mut builder = http_builder();
    if let Some(secs) = config.timeout_secs {
        builder = set_timeout(builder, secs);
    }
    if let Some(tls) = tls {
        builder = set_tls(builder, tls);
    }
    builder
}

/// Builds the client itself, once its TLS configuration is settled.
fn finish_client(config: &RemoteSignerConfig, tls: Option<TlsConfig>) -> (res: Result<
    HttpClient,
    RemoteSignerError,
>)
    ensures
        http_outcome(
            HttpModel {
                timeout_secs: config.timeout_secs,
                tls: match tls {
                    None => None,
                    Some(tls) => Some(tls@),
                },
            },
            outcome(res),
        ),
{
    accept_client(build_client(client_settings(config, tls)))
}

/// Takes what came of setting up client authentication.
pub fn accept_client_auth(
    config: &RemoteSignerConfig,
    configured: Result<TlsConfig, String>,
) -> (build: ClientBuild)
    ensures
        match configured {
            Ok(tls) => build@ == finished_with_tls(*config, tls@),
            Err(e) => build@ == refused(CertificateErrorModel::ConfigureClientAuth(e@)),
        },
{
    match configured {
        Ok(tls) => ClientBuild::Finished(finish_client(config, Some(tls))),
        Err(e) => ClientBuild::refuse(CertificateError::ConfigureClientAuth(e)),
    }
}

impl ClientBuild {
    /// Finishes a build with an error about a certificate or a key.
    fn refuse(error: CertificateError) -> (build: ClientBuild)
        ensures
            build@ == refused(error@),
    {
        ClientBuild::Finished(Err(RemoteSignerError::from(error)))
    }

    /// Goes on once the roots of trust are there.
    fn root(config: &RemoteSignerConfig, store: RootCertStore) -> (build: ClientBuild)
        ensures
            build@ == rooted(*config, store_anchors(store)),
    {
        if config.client_cert.is_some() {
            ClientBuild::ClientCertFile(store)
        } else {
            ClientBuild::Finished(finish_client(config, Some(without_client_auth(store))))
        }
    }

    /// Starts to build the HTTP client of a configuration.
    pub fn build_http_client(config: &RemoteSignerConfig) -> (build: ClientBuild)
        ensures
            build_starts(*config, build@),
    {
        if config.client_cert.is_some() || config.ca_cert.is_some() {
            ClientBuild::build_tls_config(config)
        } else {
            ClientBuild::Finished(finish_client(config, None))
        }
    }

    /// Starts to build the TLS configuration of a configuration that names certificates.
    pub fn build_tls_config(config: &RemoteSignerConfig) -> (build: ClientBuild)
        ensures
            build@ == tls_start(*config),
    {
        if config.ca_cert.is_some() {
            ClientBuild::CaFile
        } else {
            ClientBuild::root(config, empty_store())
        }
    }

    /// The file that is wanted next; none once the build is finished.
    pub fn wanted<'a>(&self, config: &'a RemoteSignerConfig) -> (path: Option<
        &'a std::path::PathBuf,
    >)
        ensures
            wanted_file(*config, self@) == (match path {
                None => None,
                Some(path) => Some(*path),
            }),
    {
        match self {
            ClientBuild::CaFile => config.ca_cert.as_ref(),
            ClientBuild::ClientCertFile(_) => match &config.client_cert {
                None => None,
                Some(client) => Some(&client.cert),
            },
            ClientBuild::ClientKeyFile(_, _) => match &config.client_cert {
                None => None,
                Some(client) => Some(&client.key),
            },
            ClientBuild::Finished(_) => None,
        }
    }

    /// Goes on with what came of reading the wanted file. A finished build stays as it is.
    pub fn supply(self, config: &RemoteSignerConfig, read: FileRead) -> (build: ClientBuild)
        ensures
            build_steps(*config, self@, read@, build@),
    {
        match self {
            ClientBuild::CaFile => match read_roots(read) {
                Err(e) => ClientBuild::refuse(e),
                Ok(store) => ClientBuild::root(config, store),
            },
            ClientBuild::ClientCertFile(store) => match read_client_certs(read) {
                Err(e) => ClientBuild::refuse(e),
                Ok(certs) => ClientBuild::ClientKeyFile(store, certs),
            },
            ClientBuild::ClientKeyFile(store, certs) => match read_client_key(read) {
                Err(e) => ClientBuild::refuse(e),
                Ok(key) => {
                    let ghost tls = TlsModel {
                        roots: store_anchors(store),
                        client_auth: Some((ders(certs@), key@)),
                    };
                    let configured = authenticate(store, certs, key);
                    let ghost answer = answer_of(configured);
                    let build = accept_client_auth(config, configured);
                    assert(build@ == authenticated(*config, answered(answer, tls)));
                    build
                },
            },
            ClientBuild::Finished(res) => ClientBuild::Finished(res),
        }
    }
}

/// An error of a build speaks of what is configured: one about the CA file comes only where one is
/// configured, one about the client's certificate or key only where they are, and a failure of the
/// build of the client itself only without certificates. There are no others.
pub open spec fn error_fits(config: RemoteSignerConfig, error: RemoteSignerErrorModel) -> bool {
    match error {
        RemoteSignerErrorModel::CertificateError(e) => match e {
            CertificateErrorModel::InvalidCACertificatePath(_) => config.ca_cert is Some,
            CertificateErrorModel::InvalidCACertificate(_) => config.ca_cert is Some,
            CertificateErrorModel::AddCACertificate(_) => config.ca_cert is Some,
            _ => config.client_cert is Some,
        },
        RemoteSignerErrorModel::BuildError(_) => !has_certificates(config),
        _ => false,
    }
}

/// A client is as its configuration asks: it has the configured time limit; it uses a TLS
/// configuration of the signer's exactly where certificates are configured; it presents a
/// certificate exactly where one is configured; and without a CA file it has no roots of trust of
/// the signer's.
pub open spec fn fits(config: RemoteSignerConfig, client: HttpModel) -> bool {
    &&& client.timeout_secs == config.timeout_secs
    &&& client.tls is Some <==> has_certificates(config)
    &&& client.tls matches Some(tls) ==> {
        &&& tls.client_auth is Some <==> config.client_cert is Some
        &&& config.ca_cert is None ==> tls.roots.len() == 0
    }
}

/// What holds of a build at every step: it wants a file only where the configuration names it, the
/// roots of trust come from the CA file alone, and the client or the error that it ends with fits.
pub open spec fn build_ok(config: RemoteSignerConfig, build: BuildModel) -> bool {
    match build {
        BuildModel::CaFile => config.ca_cert is Some,
        BuildModel::ClientCertFile(roots) => {
            &&& config.client_cert is Some
            &&& config.ca_cert is None ==> roots.len() == 0
        },
        BuildModel::ClientKeyFile(roots, _) => {
            &&& config.client_cert is Some
            &&& config.ca_cert is None ==> roots.len() == 0
        },
        BuildModel::Finished(Ok(client)) => fits(config, client),
        BuildModel::Finished(Err(error)) => error_fits(config, error),
    }
}

/// A build starts well, so that the client of a configuration without certificates fits it.
pub proof fn law_build_starts_ok(config: RemoteSignerConfig, build: BuildModel)
    requires
        build_starts(config, build),
    ensures
        build_ok(config, build),
{
}

/// A build that stands well goes on well, whatever the file holds.
pub proof fn law_build_stays_ok(
    config: RemoteSignerConfig,
    pre: BuildModel,
    read: FileModel,
    post: BuildModel,
)
    requires
        build_ok(config, pre),
        build_steps(config, pre, read, post),
    ensures
        build_ok(config, post),
{
}

/// A build that stands well and is not finished wants a file.
pub proof fn law_unfinished_build_wants_a_file(config: RemoteSignerConfig, build: BuildModel)
    requires
        build_ok(config, build),
    ensures
        wanted_file(config, build) is None <==> build is Finished,
{
}

/// The TLS configuration that the three files of a configuration amount to, read in turn: the CA
/// file, the client certificate, the key. The first of them that is no good decides the error, and
/// last the answer of the cryptography provider on the key and its certificates. A file that the
/// configuration does not name plays no part.
pub open spec fn tls_from_files(
    config: RemoteSignerConfig,
    ca: FileModel,
    cert: FileModel,
    key: FileModel,
    answer: Result<(), Seq<char>>,
) -> Result<TlsModel, CertificateErrorModel> {
    let roots: Result<Seq<Anchor>, CertificateErrorModel> = if config.ca_cert is Some {
        ca_roots(ca)
    } else {
        Ok(seq![])
    };
    match roots {
        Err(e) => Err(e),
        Ok(roots) => if config.client_cert is None {
            Ok(TlsModel { roots, client_auth: None })
        } else {
            match client_certs(cert) {
                Err(e) => Err(e),
                Ok(certs) => match client_key(key) {
                    Err(e) => Err(e),
                    Ok(key) => match answer {
                        Err(e) => Err(CertificateErrorModel::ConfigureClientAuth(e)),
                        Ok(()) => Ok(TlsModel { roots, client_auth: Some((certs, key)) }),
                    },
                },
            }
        },
    }
}

/// What a TLS configuration, or an error in its place, makes of a build.
pub open spec fn client_with(
    config: RemoteSignerConfig,
    tls: Result<TlsModel, CertificateErrorModel>,
) -> OutcomeModel {
    match tls {
        Ok(tls) => Ok(HttpModel { timeout_secs: config.timeout_secs, tls: Some(tls) }),
        Err(e) => Err(RemoteSignerErrorModel::CertificateError(e)),
    }
}

/// The answer is one that the cryptography provider gives, where it is asked: to the key with its
/// certificates and the roots of trust, once the files that the configuration names are good.
pub open spec fn answers_to(
    config: RemoteSignerConfig,
    ca: FileModel,
    cert: FileModel,
    key: FileModel,
    answer: Result<(), Seq<char>>,
) -> bool {
    config.client_cert is Some && good_files(config, ca, cert, key) ==> authenticates(
        if config.ca_cert is Some {
            ca_roots(ca)->Ok_0
        } else {
            seq![]
        },
        client_certs(cert)->Ok_0,
        client_key(key)->Ok_0,
        answer,
    )
}

/// What the three files of a configuration amount to: the client with their TLS configuration, or
/// their error. Without certificates no file plays a part.
pub open spec fn files_outcome(
    config: RemoteSignerConfig,
    ca: FileModel,
    cert: FileModel,
    key: FileModel,
    out: OutcomeModel,
) -> bool {
    if has_certificates(config) {
        exists|answer: Result<(), Seq<char>>| #[trigger]
            answers_to(config, ca, cert, key, answer) && out == client_with(
                config,
                tls_from_files(config, ca, cert, key, answer),
            )
    } else {
        http_outcome(HttpModel { timeout_secs: config.timeout_secs, tls: None }, out)
    }
}

/// What is read where a build wants a file, if the three files hold what is given.
pub open spec fn file_for(
    build: BuildModel,
    ca: FileModel,
    cert: FileModel,
    key: FileModel,
) -> FileModel {
    match build {
        BuildModel::CaFile => ca,
        BuildModel::ClientCertFile(_) => cert,
        _ => key,
    }
}

/// A build goes through three files.
pub open spec fn is_run(
    config: RemoteSignerConfig,
    ca: FileModel,
    cert: FileModel,
    key: FileModel,
    run: Seq<BuildModel>,
) -> bool {
    &&& run.len() == 4
    &&& forall|i: int|
        0 <= i < 3 ==> build_steps(
            config,
            #[trigger] run[i],
            file_for(run[i], ca, cert, key),
            run[i + 1],
        )
}

/// A build of a TLS configuration is finished after three files at most, and comes to the client
/// with the TLS configuration that the files amount to, or to their error.
pub proof fn law_tls_build_comes_to_files(
    config: RemoteSignerConfig,
    ca: FileModel,
    cert: FileModel,
    key: FileModel,
    run: Seq<BuildModel>,
)
    requires
        run[0] == tls_start(config),
        is_run(config, ca, cert, key, run),
    ensures
        exists|answer: Result<(), Seq<char>>| #[trigger]
            answers_to(config, ca, cert, key, answer) && run[3] == BuildModel::Finished(
                client_with(config, tls_from_files(config, ca, cert, key, answer)),
            ),
{
    assert(build_steps(config, run[0], file_for(run[0], ca, cert, key), run[1]));
    assert(build_steps(config, run[1], file_for(run[1], ca, cert, key), run[2]));
    assert(build_steps(config, run[2], file_for(run[2], ca, cert, key), run[3]));
    if config.client_cert is Some && good_files(config, ca, cert, key) {
        let roots: Seq<Anchor> = if config.ca_cert is Some {
            ca_roots(ca)->Ok_0
        } else {
            seq![]
        };
        let certs = client_certs(cert)->Ok_0;
        let held = client_key(key)->Ok_0;
        let tls = TlsModel { roots, client_auth: Some((certs, held)) };
        let answer = choose|answer: Result<(), Seq<char>>| #[trigger]
            authenticates(roots, certs, held, answer) && run[3] == authenticated(
                config,
                answered(answer, tls),
            );
        assert(answers_to(config, ca, cert, key, answer));
        assert(run[3] == BuildModel::Finished(
            client_with(config, tls_from_files(config, ca, cert, key, answer)),
        ));
    } else {
        assert(answers_to(config, ca, cert, key, Ok(())));
        assert(run[3] == BuildModel::Finished(
            client_with(config, tls_from_files(config, ca, cert, key, Ok(()))),
        ));
    }
}

/// A build is finished after three files at most, and comes to what the files amount to.
pub proof fn law_build_comes_to_files_outcome(
    config: RemoteSignerConfig,
    ca: FileModel,
    cert: FileModel,
    key: FileModel,
    run: Seq<BuildModel>,
)
    requires
        build_starts(config, run[0]),
        is_run(config, ca, cert, key, run),
    ensures
        run[3] is Finished,
        files_outcome(config, ca, cert, key, run[3]->Finished_0),
{
    if has_certificates(config) {
        law_tls_build_comes_to_files(config, ca, cert, key, run);
    } else {
        assert(build_steps(config, run[0], file_for(run[0], ca, cert, key), run[1]));
        assert(build_steps(config, run[1], file_for(run[1], ca, cert, key), run[2]));
        assert(build_steps(config, run[2], file_for(run[2], ca, cert, key), run[3]));
    }
}

/// The files that the configuration names are good: the CA file gives roots of trust, the client
/// certificate file certificates, the key file a key.
pub open spec fn good_files(
    config: RemoteSignerConfig,
    ca: FileModel,
    cert: FileModel,
    key: FileModel,
) -> bool {
    &&& config.ca_cert is Some ==> ca_roots(ca) is Ok
    &&& config.client_cert is Some ==> client_certs(cert) is Ok && client_key(key) is Ok
}

/// A TLS configuration is had exactly from good files whose key the cryptography provider takes
/// with its certificates; without a client certificate the provider has no say.
pub proof fn law_tls_exactly_from_good_files(
    config: RemoteSignerConfig,
    ca: FileModel,
    cert: FileModel,
    key: FileModel,
    answer: Result<(), Seq<char>>,
)
    ensures
        tls_from_files(config, ca, cert, key, answer) is Ok <==> good_files(config, ca, cert, key)
            && (config.client_cert is None || answer is Ok),
{
}

/// An error of the files speaks of a file that is configured, so that without certificates there is
/// none, but a TLS configuration that trusts nobody and presents nothing.
pub proof fn law_tls_error_speaks_of_a_configured_file(
    config: RemoteSignerConfig,
    ca: FileModel,
    cert: FileModel,
    key: FileModel,
    answer: Result<(), Seq<char>>,
)
    ensures
        tls_from_files(config, ca, cert, key, answer) matches Err(e) ==> error_fits(
            config,
            RemoteSignerErrorModel::CertificateError(e),
        ),
        !has_certificates(config) ==> tls_from_files(config, ca, cert, key, answer) == Ok::<
            _,
            CertificateErrorModel,
        >(TlsModel { roots: seq![], client_auth: None }),
{
}

/// With certificates configured, good files give a client, unless the cryptography provider refuses
/// the key with its certificates; without a client certificate it has no say.
pub proof fn law_good_files_give_a_client(
    config: RemoteSignerConfig,
    ca: FileModel,
    cert: FileModel,
    key: FileModel,
    out: OutcomeModel,
)
    requires
        has_certificates(config),
        good_files(config, ca, cert, key),
        files_outcome(config, ca, cert, key, out),
    ensures
        out is Ok || (config.client_cert is Some && is_auth_refusal(out)),
        out matches Ok(client) ==> client == (HttpModel {
            timeout_secs: config.timeout_secs,
            tls: Some(tls_from_files(config, ca, cert, key, Ok(()))->Ok_0),
        }),
{
}

/// The build ended because the cryptography provider refused the key with its certificates.
pub open spec fn is_auth_refusal(out: OutcomeModel) -> bool {
    out matches Err(RemoteSignerErrorModel::CertificateError(e)) && e is ConfigureClientAuth
}

/// A CA file without a dash, such as an empty one, is no error: the client trusts nobody then, and
/// does not fall back on the system's certificates.
pub proof fn law_empty_ca_file_trusts_nobody(
    config: RemoteSignerConfig,
    pem: Seq<u8>,
    cert: FileModel,
    key: FileModel,
    out: OutcomeModel,
)
    requires
        config.ca_cert is Some,
        config.client_cert is None,
        dashless(pem),
        files_outcome(config, FileModel::Contents(pem), cert, key, out),
    ensures
        out == Ok::<_, RemoteSignerErrorModel>(
            HttpModel {
                timeout_secs: config.timeout_secs,
                tls: Some(TlsModel { roots: seq![], client_auth: None }),
            },
        ),
{
}

/// Certificate settings and files decide: two configurations that agree on both, whatever their
/// addresses and time limits, come to the same TLS configuration or to the same error, where the
/// cryptography provider gives them the same answer. Whatever it answers, the errors about the
/// files are the same, and so are the TLS configurations where both are had.
pub proof fn law_same_certificates_same_tls(
    config1: RemoteSignerConfig,
    config2: RemoteSignerConfig,
    ca: FileModel,
    cert: FileModel,
    key: FileModel,
    answer: Result<(), Seq<char>>,
    out1: OutcomeModel,
    out2: OutcomeModel,
)
    requires
        config1.ca_cert == config2.ca_cert,
        config1.client_cert == config2.client_cert,
        files_outcome(config1, ca, cert, key, out1),
        files_outcome(config2, ca, cert, key, out2),
    ensures
        tls_from_files(config1, ca, cert, key, answer) == tls_from_files(
            config2,
            ca,
            cert,
            key,
            answer,
        ),
        out1 is Ok && out2 is Ok ==> out1->Ok_0.tls == out2->Ok_0.tls,
        has_certificates(config1) && !is_auth_refusal(out1) && !is_auth_refusal(out2) ==> (out1
            is Ok <==> out2 is Ok),
        has_certificates(config1) && out1 is Err && !is_auth_refusal(out1) ==> out2 == out1,
{
    if has_certificates(config1) {
        let answer1 = choose|answer: Result<(), Seq<char>>| #[trigger]
            answers_to(config1, ca, cert, key, answer) && out1 == client_with(
                config1,
                tls_from_files(config1, ca, cert, key, answer),
            );
        let answer2 = choose|answer: Result<(), Seq<char>>| #[trigger]
            answers_to(config2, ca, cert, key, answer) && out2 == client_with(
                config2,
                tls_from_files(config2, ca, cert, key, answer),
            );
        assert(out1 == client_with(config1, tls_from_files(config1, ca, cert, key, answer1)));
        assert(out2 == client_with(config2, tls_from_files(config2, ca, cert, key, answer2)));
    }
}

} // verus!
