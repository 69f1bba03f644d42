//! What connecting to a remote signer and reloading its client come to: laws on calls.

use vstd::prelude::*;

use crate::certificate_files::FileRead;
use crate::client_build::{build_starts, build_steps, BuildModel};
use crate::client_laws::{
    begins_build, ca_gives, is_plain_client, is_trusting_client, law_build_begins,
    law_build_takes_file, law_ca_file_has_one_meaning, takes_file,
};
use crate::config::RemoteSignerConfig;
use crate::connecting::{build_settles, ConnectModel, ConnectWant, Connecting};
use crate::error::{CertificateErrorModel, RemoteSignerError};
use crate::http::SignerClient;
use crate::remote::{reload_settles, ReloadStatus, RemoteModel, RemoteSigner, WatchEvent};
use crate::tls::Anchor;

verus! {

/// Where a connection stands with a build of its client that has come to a point of which this
/// holds. A client that was built is asked through at once, at the configured address, as a local
/// one; an error is the end; else the build goes on.
pub open spec fn stands_with(
    config: RemoteSignerConfig,
    post: ConnectModel,
    came_to: spec_fn(BuildModel) -> bool,
) -> bool {
    match post {
        ConnectModel::Building(c, build) => c == config && !(build is Finished) && came_to(build),
        ConnectModel::Pinging(c, client) => {
            &&& c == config
            &&& client@.endpoint == config.endpoint
            &&& client@.is_local
            &&& came_to(BuildModel::Finished(Ok(client@.http)))
        },
        ConnectModel::Finished(Err(error)) => came_to(BuildModel::Finished(Err(error))),
        _ => false,
    }
}

/// A connection begins with the build of the client that the configuration asks for.
pub proof fn law_connection_begins(config: RemoteSignerConfig, connecting: Connecting)
    requires
        call_ensures(RemoteSigner::new, (config,), connecting),
    ensures
        stands_with(config, connecting@, |build: BuildModel| begins_build(config, build)),
{
    let came_to = |build: BuildModel| begins_build(config, build);
    let build = choose|build: BuildModel| #[trigger]
        build_starts(config, build) && build_settles(config, build, connecting@);
    law_build_begins(config, build);
    assert(came_to(build));
}

/// A connection whose client is being built goes on with what the file holds; any other stays as it
/// is.
pub proof fn law_connection_takes_file(
    pre: Connecting,
    config: RemoteSignerConfig,
    before: BuildModel,
    read: FileRead,
    post: Connecting,
)
    requires
        call_ensures(Connecting::file_read, (pre, read), post),
    ensures
        pre@ == ConnectModel::Building(config, before) ==> stands_with(
            config,
            post@,
            |build: BuildModel| takes_file(config, before, read@, build),
        ),
        !(pre@ is Building) ==> post@ == pre@,
{
    if pre@ == ConnectModel::Building(config, before) {
        let came_to = |build: BuildModel| takes_file(config, before, read@, build);
        let build = choose|build: BuildModel| #[trigger]
            build_steps(config, before, read@, build) && build_settles(config, build, post@);
        law_build_takes_file(config, before, read@, build);
        assert(came_to(build));
    }
}

/// Whatever the configuration, a service that does not answer is the end of a connection, with the
/// text of that failure.
pub proof fn law_failed_ping_ends_the_connection(
    pre: Connecting,
    want: ConnectWant<'_>,
    e: String,
    post: Connecting,
    res: Result<Result<RemoteSigner, RemoteSignerError>, Connecting>,
)
    requires
        call_ensures(Connecting::wants, (&pre,), want),
        want is Ping,
        call_ensures(Connecting::pinged, (pre, Err::<String, String>(e)), post),
        call_ensures(Connecting::finish, (post,), res),
    ensures
        res is Ok,
        res->Ok_0 matches Err(RemoteSignerError::PingError(text)) && text@ == e@,
{
}

/// The connection has ended with a signer of this configuration and this client, which watches its
/// files exactly with a client certificate, and reloads nothing.
pub open spec fn ends_fresh(
    connecting: ConnectModel,
    config: RemoteSignerConfig,
    client: SignerClient,
) -> bool {
    &&& connecting matches ConnectModel::Finished(Ok(signer))
    &&& signer.config == config
    &&& signer.client == client
    &&& signer.watching == (config.client_cert is Some)
    &&& signer.reload is None
}

/// Whatever the version that the service answers with, without a client certificate the signer is
/// there, with the client that was asked through; with one, the watcher is to be created first.
pub proof fn law_answered_ping(
    pre: Connecting,
    config: RemoteSignerConfig,
    client: SignerClient,
    version: String,
    post: Connecting,
)
    requires
        pre@ == ConnectModel::Pinging(config, client),
        call_ensures(Connecting::pinged, (pre, Ok::<String, String>(version)), post),
    ensures
        config.client_cert is Some ==> post@ == ConnectModel::StartingWatcher(config, client),
        config.client_cert is None ==> ends_fresh(post@, config, client),
{
}

/// Without certificates, a service that answers gives a signer at once: it has the client that the
/// service was asked through, which is of the configured address and time limit, and watches
/// nothing.
pub proof fn law_plain_connection(
    config: RemoteSignerConfig,
    start: Connecting,
    client: &SignerClient,
    method: &'static str,
    version: String,
    end: Connecting,
    res: Result<Result<RemoteSigner, RemoteSignerError>, Connecting>,
)
    requires
        config.client_cert is None,
        config.ca_cert is None,
        call_ensures(RemoteSigner::new, (config,), start),
        call_ensures(Connecting::wants, (&start,), ConnectWant::Ping(client, method)),
        call_ensures(Connecting::pinged, (start, Ok::<String, String>(version)), end),
        call_ensures(Connecting::finish, (end,), res),
    ensures
        client@.endpoint == config.endpoint,
        is_plain_client(config, client@.http),
        res is Ok && res->Ok_0 is Ok,
        res->Ok_0->Ok_0@.config == config,
        res->Ok_0->Ok_0@.client == *client,
        !res->Ok_0->Ok_0@.watching,
{
}

/// With a CA file alone, the service is asked through a client that trusts the roots which the CA
/// file gives, and nobody else.
pub proof fn law_custom_ca_connection_trusts_the_ca(
    config: RemoteSignerConfig,
    read: FileRead,
    roots: Seq<Anchor>,
    start: Connecting,
    end: Connecting,
)
    requires
        config.ca_cert is Some,
        config.client_cert is None,
        ca_gives(read@, roots),
        call_ensures(RemoteSigner::new, (config,), start),
        call_ensures(Connecting::file_read, (start, read), end),
    ensures
        end@ matches ConnectModel::Pinging(c, client) && c == config && client@.endpoint
            == config.endpoint && is_trusting_client(config, client@.http, roots),
{
    law_ca_file_has_one_meaning(read@, roots, CertificateErrorModel::NoPrivateKey);
}

/// An answer changes nothing where the service was not asked.
pub proof fn law_other_connections_ignore_answers(
    pre: Connecting,
    reply: Result<String, String>,
    post: Connecting,
)
    requires
        !(pre@ is Pinging),
        call_ensures(Connecting::pinged, (pre, reply), post),
    ensures
        post@ == pre@,
{
}

/// Once the watcher is created, the first file is to be put under watch, none being under watch.
pub proof fn law_created_watcher(
    pre: Connecting,
    config: RemoteSignerConfig,
    client: SignerClient,
    post: Connecting,
)
    requires
        pre@ == ConnectModel::StartingWatcher(config, client),
        call_ensures(Connecting::watcher_created, (pre, Ok::<(), String>(())), post),
    ensures
        post@ == ConnectModel::Watching(config, client, 0),
{
}

/// Once a file is under watch, the next one is to be, and behind the last the signer is there: two
/// files, or three with a CA file.
pub proof fn law_watched_file(
    pre: Connecting,
    config: RemoteSignerConfig,
    client: SignerClient,
    n: nat,
    post: Connecting,
)
    requires
        config.client_cert is Some,
        pre@ == ConnectModel::Watching(config, client, n),
        call_ensures(Connecting::file_watched, (pre, Ok::<(), String>(())), post),
    ensures
        n == 0 || (n == 1 && config.ca_cert is Some) ==> post@ == ConnectModel::Watching(
            config,
            client,
            n + 1,
        ),
        n >= 2 || (n == 1 && config.ca_cert is None) ==> ends_fresh(post@, config, client),
{
}

/// A watcher that cannot be created is the end of a connection, and so is a file that cannot be put
/// under watch, with the text of that failure.
pub proof fn law_failed_watcher_ends_the_connection(
    pre: Connecting,
    e: String,
    post: Connecting,
    res: Result<Result<RemoteSigner, RemoteSignerError>, Connecting>,
)
    requires
        (pre@ is StartingWatcher && call_ensures(
            Connecting::watcher_created,
            (pre, Err::<(), String>(e)),
            post,
        )) || (pre@ is Watching && call_ensures(
            Connecting::file_watched,
            (pre, Err::<(), String>(e)),
            post,
        )),
        call_ensures(Connecting::finish, (post,), res),
    ensures
        res is Ok,
        res->Ok_0 matches Err(RemoteSignerError::CertificateWatcherError(text)) && text@ == e@,
{
}

/// What came of the watcher changes nothing where none was to be created, or no file put under
/// watch.
pub proof fn law_other_connections_ignore_the_watcher(
    pre: Connecting,
    outcome: Result<(), String>,
    created: Connecting,
    followed: Connecting,
)
    requires
        call_ensures(Connecting::watcher_created, (pre, outcome), created),
        call_ensures(Connecting::file_watched, (pre, outcome), followed),
    ensures
        !(pre@ is StartingWatcher) ==> created@ == pre@,
        !(pre@ is Watching) ==> followed@ == pre@,
{
}

/// The file is the one that the configuration names for where a build stands.
pub open spec fn is_file_for(
    config: RemoteSignerConfig,
    build: BuildModel,
    path: std::path::PathBuf,
) -> bool {
    match build {
        BuildModel::CaFile => config.ca_cert == Some(path),
        BuildModel::ClientCertFile(_) => config.client_cert is Some && path
            == config.client_cert->Some_0.cert,
        BuildModel::ClientKeyFile(_, _) => config.client_cert is Some && path
            == config.client_cert->Some_0.key,
        BuildModel::Finished(_) => false,
    }
}

/// What a connection wants where it stands. A build wants the file that the configuration names for
/// it; the service is asked by its method for the health, through the client; the files are put
/// under watch in the order certificate, key, CA file.
pub open spec fn is_wanted(connecting: ConnectModel, want: ConnectWant<'_>) -> bool {
    match connecting {
        ConnectModel::Building(config, build) => want matches ConnectWant::File(path)
            && is_file_for(config, build, *path),
        ConnectModel::Pinging(_, client) => want matches ConnectWant::Ping(through, method)
            && *through == client && method@ == "health_status"@,
        ConnectModel::StartingWatcher(_, _) => want is CreateWatcher,
        ConnectModel::Watching(config, _, n) => want matches ConnectWant::Watch(path) && (
        config.client_cert is Some ==> {
            &&& n == 0 ==> *path == config.client_cert->Some_0.cert
            &&& n == 1 ==> *path == config.client_cert->Some_0.key
            &&& n == 2 && config.ca_cert is Some ==> *path == config.ca_cert->Some_0
        }),
        ConnectModel::Finished(_) => want is Nothing,
    }
}

/// A connection wants what is to be done next where it stands.
pub proof fn law_connection_wants(connecting: &Connecting, want: ConnectWant<'_>)
    requires
        call_ensures(Connecting::wants, (connecting,), want),
    ensures
        is_wanted(connecting@, want),
{
}

/// A connection that has ended gives its signer or its error; any other gives itself back.
pub proof fn law_end_of_a_connection(
    connecting: Connecting,
    res: Result<Result<RemoteSigner, RemoteSignerError>, Connecting>,
)
    requires
        call_ensures(Connecting::finish, (connecting,), res),
    ensures
        match connecting@ {
            ConnectModel::Finished(Ok(signer)) => res is Ok && res->Ok_0 is Ok
                && res->Ok_0->Ok_0@ == signer,
            ConnectModel::Finished(Err(error)) => res is Ok && res->Ok_0 is Err
                && res->Ok_0->Err_0@ == error,
            _ => res is Err && res->Err_0 == connecting,
        },
{
}

/// A signer says whether its certificate files are watched: exactly with a client certificate.
pub proof fn law_watching_is_said(signer: &RemoteSigner, enabled: bool)
    requires
        call_ensures(RemoteSigner::is_certificate_watching_enabled, (signer,), enabled),
    ensures
        enabled <==> signer@.config.client_cert is Some,
        enabled == signer@.watching,
{
}

/// A signer shows its own configuration and its own client.
pub proof fn law_signer_shows_itself(
    signer: &RemoteSigner,
    config: &RemoteSignerConfig,
    client: &SignerClient,
)
    requires
        call_ensures(RemoteSigner::config, (signer,), config),
        call_ensures(RemoteSigner::client, (signer,), client),
    ensures
        *config == signer@.config,
        *client == signer@.client,
{
}

/// Where a signer stands with the build of a new client that has come to a point of which this
/// holds. A client that was built takes the place of the old one, at the configured address and not
/// as a local one; an error leaves the old one; else the build goes on.
pub open spec fn reloads_with(
    pre: RemoteModel,
    post: RemoteModel,
    status: ReloadStatus,
    came_to: spec_fn(BuildModel) -> bool,
) -> bool {
    &&& post.config == pre.config
    &&& post.watching == pre.watching
    &&& match status {
        ReloadStatus::Ignored => false,
        ReloadStatus::Reading => {
            &&& post.client == pre.client
            &&& post.reload is Some
            &&& !(post.reload->Some_0 is Finished)
            &&& came_to(post.reload->Some_0)
        },
        ReloadStatus::Reloaded => {
            &&& post.client@.endpoint == pre.config.endpoint
            &&& !post.client@.is_local
            &&& post.reload is None
            &&& came_to(BuildModel::Finished(Ok(post.client@.http)))
        },
        ReloadStatus::Failed(error) => {
            &&& post.client == pre.client
            &&& post.reload is None
            &&& came_to(BuildModel::Finished(Err(error@)))
        },
    }
}

/// A modification begins the build of a new client, as the configuration asks for it.
pub proof fn law_modification_begins_a_reload(signer: &mut RemoteSigner, status: ReloadStatus)
    requires
        call_ensures(RemoteSigner::certificate_event, (signer, WatchEvent::Modified), status),
    ensures
        reloads_with(
            old(signer)@,
            final(signer)@,
            status,
            |build: BuildModel| begins_build(old(signer)@.config, build),
        ),
{
    let config = old(signer)@.config;
    let came_to = |build: BuildModel| begins_build(old(signer)@.config, build);
    let build = choose|build: BuildModel| #[trigger]
        build_starts(config, build) && reload_settles(
            old(signer)@,
            build,
            final(signer)@,
            status,
        );
    law_build_begins(config, build);
    assert(came_to(build));
}

/// Any other notice changes nothing.
pub proof fn law_other_notices_change_nothing(
    signer: &mut RemoteSigner,
    event: WatchEvent,
    status: ReloadStatus,
)
    requires
        !(event is Modified),
        call_ensures(RemoteSigner::certificate_event, (signer, event), status),
    ensures
        final(signer)@ == old(signer)@,
        status is Ignored,
{
}

/// A reload goes on with what the file holds.
pub proof fn law_reload_takes_file(
    signer: &mut RemoteSigner,
    before: BuildModel,
    read: FileRead,
    status: ReloadStatus,
)
    requires
        old(signer)@.reload == Some(before),
        call_ensures(RemoteSigner::certificate_file, (signer, read), status),
    ensures
        !(before is Finished) ==> reloads_with(
            old(signer)@,
            final(signer)@,
            status,
            |build: BuildModel| takes_file(old(signer)@.config, before, read@, build),
        ),
{
    let config = old(signer)@.config;
    let came_to = |build: BuildModel| takes_file(old(signer)@.config, before, read@, build);
    let build = choose|build: BuildModel| #[trigger]
        build_steps(config, before, read@, build) && reload_settles(
            old(signer)@,
            build,
            final(signer)@,
            status,
        );
    law_build_takes_file(config, before, read@, build);
    assert(came_to(build));
}

/// With a CA file alone, a reload gives the signer a client that trusts the roots which the CA file
/// gives, and nobody else.
pub proof fn law_custom_ca_reload_trusts_the_ca(
    signer: &mut RemoteSigner,
    begun: ReloadStatus,
    same: &mut RemoteSigner,
    read: FileRead,
    roots: Seq<Anchor>,
    status: ReloadStatus,
)
    requires
        old(signer)@.config.ca_cert is Some,
        old(signer)@.config.client_cert is None,
        ca_gives(read@, roots),
        call_ensures(RemoteSigner::certificate_event, (signer, WatchEvent::Modified), begun),
        old(same)@ == final(signer)@,
        call_ensures(RemoteSigner::certificate_file, (same, read), status),
    ensures
        status is Reloaded,
        final(same)@.client@.endpoint == old(signer)@.config.endpoint,
        is_trusting_client(old(signer)@.config, final(same)@.client@.http, roots),
{
    law_ca_file_has_one_meaning(read@, roots, CertificateErrorModel::NoPrivateKey);
}

/// A file changes nothing where no reload is under way.
pub proof fn law_file_without_a_reload(
    signer: &mut RemoteSigner,
    read: FileRead,
    status: ReloadStatus,
)
    requires
        old(signer)@.reload is None,
        call_ensures(RemoteSigner::certificate_file, (signer, read), status),
    ensures
        final(signer)@ == old(signer)@,
        status is Ignored,
{
}

/// A reload wants the file that the configuration names for where it stands; without a reload none
/// is wanted.
pub proof fn law_reload_wants(signer: &RemoteSigner, path: Option<&std::path::PathBuf>)
    requires
        call_ensures(RemoteSigner::wanted_certificate, (signer,), path),
    ensures
        match signer@.reload {
            None => path is None,
            Some(build) => path is Some && is_file_for(signer@.config, build, *path->Some_0),
        },
{
}

} // verus!
