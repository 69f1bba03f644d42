//! The way from a configuration to a remote signer.

use vstd::prelude::*;

use crate::certificate_files::{FileModel, FileRead};
use crate::client_build::{
    build_ok, build_starts, build_steps, error_fits, file_for, files_outcome, good_files,
    has_certificates, is_auth_refusal, law_build_comes_to_files_outcome,
    law_good_files_give_a_client, tls_from_files, wanted_file, BuildModel, ClientBuild,
    OutcomeModel,
};
use crate::config::{watched, RemoteSignerConfig};
use crate::error::{RemoteSignerError, RemoteSignerErrorModel};
use crate::http::{signer_client, ClientModel, HttpModel, SignerClient};
use crate::remote::{client_ok, connected, signer_ok, RemoteModel, RemoteSigner};

verus! {

/// Where the way to a remote signer has got to.
enum Stage {
    Building(RemoteSignerConfig, ClientBuild),
    Pinging(RemoteSignerConfig, SignerClient),
    StartingWatcher(RemoteSignerConfig, SignerClient),
    Watching(RemoteSignerConfig, SignerClient, usize),
    Finished(Result<RemoteSigner, RemoteSignerError>),
}

/// A remote signer in the making. [`Connecting::wants`] says what is to be done next; what came of
/// it is handed to the method of the same purpose.
pub struct Connecting {
    stage: Stage,
}

/// The model of a [`Connecting`].
pub enum ConnectModel {
    /// The client is being built
    Building(RemoteSignerConfig, BuildModel),
    /// The service is to be asked how it is
    Pinging(RemoteSignerConfig, SignerClient),
    /// The watcher of the certificate files is to be created
    StartingWatcher(RemoteSignerConfig, SignerClient),
    /// The certificate files are to be put under watch; so many of them are
    Watching(RemoteSignerConfig, SignerClient, nat),
    /// Nothing is left to do
    Finished(Result<RemoteModel, RemoteSignerErrorModel>),
}

impl View for Connecting {
    type V = ConnectModel;

    closed spec fn view(&self) -> ConnectModel {
        match self.stage {
            Stage::Building(config, build) => ConnectModel::Building(config, build@),
            Stage::Pinging(config, client) => ConnectModel::Pinging(config, client),
            Stage::StartingWatcher(config, client) => ConnectModel::StartingWatcher(config, client),
            Stage::Watching(config, client, n) => ConnectModel::Watching(config, client, n as nat),
            Stage::Finished(Ok(signer)) => ConnectModel::Finished(Ok(signer@)),
            Stage::Finished(Err(error)) => ConnectModel::Finished(Err(error@)),
        }
    }
}

/// What is to be done next for a remote signer.
pub enum ConnectWant<'a> {
    /// This file is to be read
    File(&'a std::path::PathBuf),
    /// The service is to be called with this client, by this method, without parameters
    Ping(&'a SignerClient, &'static str),
    /// A watcher is to be created
    CreateWatcher,
    /// This file is to be put under watch
    Watch(&'a std::path::PathBuf),
    /// Nothing
    Nothing,
}

/// What holds of a connection at all times: a build stands well and wants a file, a client is as
/// configured, a watcher is created only where a client certificate is configured, a file is left
/// to be put under watch where some are, and the signer at the end is valid.
pub open spec fn connect_ok(connecting: ConnectModel) -> bool {
    match connecting {
        ConnectModel::Building(config, build) => build_ok(config, build) && !(build is Finished),
        ConnectModel::Pinging(config, client) => client_ok(config, client@),
        ConnectModel::StartingWatcher(config, client) => {
            &&& client_ok(config, client@)
            &&& config.client_cert is Some
        },
        ConnectModel::Watching(config, client, n) => {
            &&& client_ok(config, client@)
            &&& n < watched(config).len()
        },
        ConnectModel::Finished(Ok(signer)) => signer_ok(signer),
        ConnectModel::Finished(Err(_)) => true,
    }
}

/// Where a connection stands once the build of its client has come to a point. With the client that
/// was built the service is asked how it is; an error ends the connection.
pub open spec fn build_settles(
    config: RemoteSignerConfig,
    build: BuildModel,
    post: ConnectModel,
) -> bool {
    match build {
        BuildModel::Finished(Ok(http)) => {
            post matches ConnectModel::Pinging(c, client) && c == config && client@ == (
            ClientModel { endpoint: config.endpoint, is_local: true, http })
        },
        BuildModel::Finished(Err(error)) => post == ConnectModel::Finished(Err(error)),
        _ => post == ConnectModel::Building(config, build),
    }
}

/// How a connection starts: with the build of its client.
pub open spec fn connect_starts(config: RemoteSignerConfig, post: ConnectModel) -> bool {
    exists|build: BuildModel| #[trigger]
        build_starts(config, build) && build_settles(config, build, post)
}

/// How a connection goes on with a file: the build that wanted it goes on. Where none is wanted,
/// nothing changes.
pub open spec fn connect_reads(pre: ConnectModel, read: FileModel, post: ConnectModel) -> bool {
    match pre {
        ConnectModel::Building(config, before) => exists|build: BuildModel| #[trigger]
            build_steps(config, before, read, build) && build_settles(config, build, post),
        _ => post == pre,
    }
}

/// How a connection goes on with the service's answer. Without a client certificate the signer is
/// there; with one a watcher of the certificate files is to be created first. Where the service was
/// not to be asked, nothing changes.
pub open spec fn after_ping(pre: ConnectModel, reply: Result<String, String>) -> ConnectModel {
    match pre {
        ConnectModel::Pinging(config, client) => match reply {
            Err(e) => ConnectModel::Finished(Err(RemoteSignerErrorModel::PingError(e@))),
            Ok(_) => if config.client_cert is Some {
                ConnectModel::StartingWatcher(config, client)
            } else {
                ConnectModel::Finished(Ok(connected(config, client)))
            },
        },
        _ => pre,
    }
}

/// A connection that ended because the watcher failed.
pub open spec fn watcher_failed(e: Seq<char>) -> ConnectModel {
    ConnectModel::Finished(Err(RemoteSignerErrorModel::CertificateWatcherError(e)))
}

/// How a connection goes on with what came of creating the watcher: the first file is to be put
/// under watch. Where none was to be created, nothing changes.
pub open spec fn after_creation(pre: ConnectModel, created: Result<(), String>) -> ConnectModel {
    match pre {
        ConnectModel::StartingWatcher(config, client) => match created {
            Err(e) => watcher_failed(e@),
            Ok(()) => ConnectModel::Watching(config, client, 0),
        },
        _ => pre,
    }
}

/// How a connection goes on with what came of putting a file under watch: the next one is to be
/// put under watch, and after the last the signer is there. A failure ends the connection at once.
/// Where no file was to be put under watch, nothing changes.
pub open spec fn after_watch(pre: ConnectModel, outcome: Result<(), String>) -> ConnectModel {
    match pre {
        ConnectModel::Watching(config, client, n) => match outcome {
            Err(e) => watcher_failed(e@),
            Ok(()) => if n + 1 < watched(config).len() {
                ConnectModel::Watching(config, client, n + 1)
            } else {
                ConnectModel::Finished(Ok(connected(config, client)))
            },
        },
        _ => pre,
    }
}

impl Connecting {
    #[verifier::type_invariant]
    spec fn valid(self) -> bool {
        connect_ok(self@)
    }

    /// Goes on once the build of the client has come to a point.
    fn settle(config: RemoteSignerConfig, build: ClientBuild) -> (connecting: Connecting)
        requires
            build_ok(config, build@),
        ensures
            build_settles(config, build@, connecting@),
    {
        match build {
            ClientBuild::Finished(Ok(http)) => {
                let client = signer_client(http, &config.endpoint, true);
                Connecting { stage: Stage::Pinging(config, client) }
            },
            ClientBuild::Finished(Err(error)) => Connecting { stage: Stage::Finished(Err(error)) },
            build => Connecting { stage: Stage::Building(config, build) },
        }
    }

    /// Starts on the way to a remote signer.
    pub(crate) fn start(config: RemoteSignerConfig) -> (connecting: Connecting)
        ensures
            connect_starts(config, connecting@),
    {
        let build = ClientBuild::build_http_client(&config);
        Connecting::settle(config, build)
    }

    /// What is to be done next.
    pub fn wants(&self) -> (want: ConnectWant<'_>)
        ensures
            match self@ {
                ConnectModel::Building(config, build) => {
                    want matches ConnectWant::File(path) && wanted_file(config, build) == Some(
                        *path,
                    )
                },
                ConnectModel::Pinging(_, client) => {
                    want matches ConnectWant::Ping(c, method) && *c == client && method@
                        == "health_status"@
                },
                ConnectModel::StartingWatcher(_, _) => want is CreateWatcher,
                ConnectModel::Watching(config, _, n) => {
                    want matches ConnectWant::Watch(path) && *path == watched(config)[n as int]
                },
                ConnectModel::Finished(_) => want is Nothing,
            },
    {
        proof {
            use_type_invariant(self);
        }
        match &self.stage {
            Stage::Building(config, build) => match build.wanted(config) {
                Some(path) => ConnectWant::File(path),
                None => ConnectWant::Nothing,
            },
            Stage::Pinging(_, client) => ConnectWant::Ping(client, "health_status"),
            Stage::StartingWatcher(_, _) => ConnectWant::CreateWatcher,
            Stage::Watching(config, _, n) => ConnectWant::Watch(config.watched_files()[*n]),
            Stage::Finished(_) => ConnectWant::Nothing,
        }
    }

    /// Goes on with what came of reading the wanted file.
    pub fn file_read(self, read: FileRead) -> (connecting: Connecting)
        ensures
            connect_reads(self@, read@, connecting@),
    {
        proof {
            use_type_invariant(&self);
        }
        match self.stage {
            Stage::Building(config, before) => {
                let build = before.supply(&config, read);
                Connecting::settle(config, build)
            },
            stage => Connecting { stage },
        }
    }

    /// Goes on with the version that the service answered with, or with the text of the failure to
    /// get an answer.
    pub fn pinged(self, reply: Result<String, String>) -> (connecting: Connecting)
        ensures
            connecting@ == after_ping(self@, reply),
    {
        proof {
            use_type_invariant(&self);
        }
        match self.stage {
            Stage::Pinging(config, client) => match reply {
                Err(e) => Connecting {
                    stage: Stage::Finished(Err(RemoteSignerError::PingError(e))),
                },
                Ok(_) => if config.client_cert.is_some() {
                    Connecting { stage: Stage::StartingWatcher(config, client) }
                } else {
                    Connecting {
                        stage: Stage::Finished(Ok(RemoteSigner::connected(config, client))),
                    }
                },
            },
            stage => Connecting { stage },
        }
    }

    /// Goes on with what came of creating the watcher.
    pub fn watcher_created(self, created: Result<(), String>) -> (connecting: Connecting)
        ensures
            connecting@ == after_creation(self@, created),
    {
        proof {
            use_type_invariant(&self);
        }
        match self.stage {
            Stage::StartingWatcher(config, client) => match created {
                Err(e) => Connecting {
                    stage: Stage::Finished(Err(RemoteSignerError::CertificateWatcherError(e))),
                },
                Ok(()) => Connecting { stage: Stage::Watching(config, client, 0) },
            },
            stage => Connecting { stage },
        }
    }

    /// Goes on with what came of putting the wanted file under watch.
    pub fn file_watched(self, outcome: Result<(), String>) -> (connecting: Connecting)
        ensures
            connecting@ == after_watch(self@, outcome),
    {
        proof {
            use_type_invariant(&self);
        }
        match self.stage {
            Stage::Watching(config, client, n) => match outcome {
                Err(e) => Connecting {
                    stage: Stage::Finished(Err(RemoteSignerError::CertificateWatcherError(e))),
                },
                Ok(()) => if n + 1 < config.watched_files().len() {
                    Connecting { stage: Stage::Watching(config, client, n + 1) }
                } else {
                    Connecting {
                        stage: Stage::Finished(Ok(RemoteSigner::connected(config, client))),
                    }
                },
            },
            stage => Connecting { stage },
        }
    }

    /// The signer or the error that the connection ended with; the connection itself where
    /// something is left to do.
    pub fn finish(self) -> (res: Result<Result<RemoteSigner, RemoteSignerError>, Connecting>)
        ensures
            match self@ {
                ConnectModel::Finished(Ok(signer)) => {
                    res matches Ok(Ok(s)) && s@ == signer
                },
                ConnectModel::Finished(Err(error)) => {
                    res matches Ok(Err(e)) && e@ == error
                },
                _ => res == Err::<Result<RemoteSigner, RemoteSignerError>, Connecting>(self),
            },
    {
        proof {
            use_type_invariant(&self);
        }
        match self.stage {
            Stage::Finished(res) => Ok(res),
            stage => Err(Connecting { stage }),
        }
    }
}

/// One event on the way to a remote signer: a file, an answer of the service, or what came of
/// creating the watcher or of putting a file under watch.
pub open spec fn connect_moves(pre: ConnectModel, post: ConnectModel) -> bool {
    ||| exists|read: FileModel| #[trigger] connect_reads(pre, read, post)
    ||| exists|reply: Result<String, String>| post == #[trigger] after_ping(pre, reply)
    ||| exists|created: Result<(), String>| post == #[trigger] after_creation(pre, created)
    ||| exists|outcome: Result<(), String>| post == #[trigger] after_watch(pre, outcome)
}

/// A series of events on the way from a configuration.
pub open spec fn is_way(config: RemoteSignerConfig, way: Seq<ConnectModel>) -> bool {
    &&& way.len() > 0
    &&& connect_starts(config, way[0])
    &&& forall|i: int| 0 < i < way.len() ==> connect_moves(way[i - 1], #[trigger] way[i])
}

/// A way without its last event is a way.
proof fn lemma_shorter_way(config: RemoteSignerConfig, way: Seq<ConnectModel>)
    requires
        is_way(config, way),
        way.len() > 1,
    ensures
        is_way(config, way.drop_last()),
{
    let before = way.drop_last();
    assert forall|i: int| 0 < i < before.len() implies connect_moves(
        before[i - 1],
        #[trigger] before[i],
    ) by {
        assert(connect_moves(way[i - 1], way[i]));
    }
}

/// The connection is one of this configuration: its client is the one that was built for the first
/// connection, as configured, and an error is one of the build that fits the configuration, of the
/// service's answer, or, with a client certificate, of the watcher.
pub open spec fn leads_from(config: RemoteSignerConfig, connecting: ConnectModel) -> bool {
    match connecting {
        ConnectModel::Building(c, _) => c == config,
        ConnectModel::Pinging(c, client) => c == config && client@.is_local,
        ConnectModel::StartingWatcher(c, client) => c == config && client@.is_local,
        ConnectModel::Watching(c, client, _) => c == config && client@.is_local,
        ConnectModel::Finished(Ok(signer)) => {
            &&& signer == connected(config, signer.client)
            &&& signer.client@.is_local
        },
        ConnectModel::Finished(Err(error)) => {
            ||| error_fits(config, error)
            ||| error is PingError
            ||| error is CertificateWatcherError && config.client_cert is Some
        },
    }
}

/// A connection starts valid and as one of its configuration.
proof fn lemma_start_leads_from_config(config: RemoteSignerConfig, post: ConnectModel)
    requires
        connect_starts(config, post),
    ensures
        connect_ok(post),
        leads_from(config, post),
{
}

/// An event leaves a connection valid and one of its configuration.
proof fn lemma_move_leads_from_config(
    config: RemoteSignerConfig,
    pre: ConnectModel,
    post: ConnectModel,
)
    requires
        connect_ok(pre),
        leads_from(config, pre),
        connect_moves(pre, post),
    ensures
        connect_ok(post),
        leads_from(config, post),
{
}

/// On every way from a configuration, whatever the files hold and the service answers, the
/// connection is valid, and the signer at its end is one of this configuration: its client is as
/// configured, and its certificate files are watched exactly where a client certificate is
/// configured. An error at its end fits the configuration too.
pub proof fn law_way_leads_from_config(config: RemoteSignerConfig, way: Seq<ConnectModel>)
    requires
        is_way(config, way),
    ensures
        forall|i: int|
            0 <= i < way.len() ==> connect_ok(#[trigger] way[i]) && leads_from(config, way[i]),
    decreases way.len(),
{
    if way.len() == 1 {
        lemma_start_leads_from_config(config, way[0]);
    } else {
        let before = way.drop_last();
        let n = before.len() - 1;
        lemma_shorter_way(config, way);
        law_way_leads_from_config(config, before);
        assert(connect_ok(before[n]) && leads_from(config, before[n]));
        assert(connect_moves(way[n], way[n + 1]));
        lemma_move_leads_from_config(config, way[n], way[n + 1]);
        assert forall|i: int| 0 <= i < way.len() implies connect_ok(#[trigger] way[i])
            && leads_from(config, way[i]) by {
            if i <= n {
                assert(way[i] == before[i]);
            }
        }
    }
}

/// The connection has ended with a signer.
pub open spec fn has_signer(connecting: ConnectModel) -> bool {
    connecting matches ConnectModel::Finished(Ok(_))
}

/// At this place of a way, the service was asked and gave an answer.
pub open spec fn answered_at(way: Seq<ConnectModel>, i: int) -> bool {
    &&& 0 <= i < way.len() - 1
    &&& way[i] is Pinging
    &&& exists|version: String| way[i + 1] == #[trigger] after_ping(way[i], Ok(version))
}

/// At this place of a way, the watcher was created.
pub open spec fn created_at(way: Seq<ConnectModel>, i: int) -> bool {
    &&& 0 <= i < way.len() - 1
    &&& way[i] is StartingWatcher
    &&& way[i + 1] == after_creation(way[i], Ok(()))
}

/// At this place of a way, the watched file of this number was put under watch.
pub open spec fn put_under_watch_at(way: Seq<ConnectModel>, i: int, n: nat) -> bool {
    &&& 0 <= i < way.len() - 1
    &&& way[i] matches ConnectModel::Watching(_, _, k) && k == n
    &&& way[i + 1] == after_watch(way[i], Ok(()))
}

/// The watched file of this number was put under watch on the way.
pub open spec fn was_put_under_watch(way: Seq<ConnectModel>, n: nat) -> bool {
    exists|i: int| #[trigger] put_under_watch_at(way, i, n)
}

/// The number of files that must be under watch where a connection has got to.
pub open spec fn under_watch(config: RemoteSignerConfig, connecting: ConnectModel) -> nat {
    match connecting {
        ConnectModel::Watching(_, _, n) => n,
        ConnectModel::Finished(Ok(_)) => watched(config).len(),
        _ => 0,
    }
}

/// A signer is there only once its service has answered and, where a client certificate is
/// configured, once a watcher was created and each of the certificate files put under watch.
pub proof fn law_signer_was_answered(config: RemoteSignerConfig, way: Seq<ConnectModel>)
    requires
        is_way(config, way),
    ensures
        way.last() is StartingWatcher || way.last() is Watching || has_signer(way.last())
            ==> exists|i: int| #[trigger] answered_at(way, i),
        way.last() is Watching || (has_signer(way.last()) && config.client_cert is Some) ==> exists|
            i: int,
        | #[trigger] created_at(way, i),
        forall|n: nat|
            n < under_watch(config, way.last()) ==> #[trigger] was_put_under_watch(way, n),
    decreases way.len(),
{
    law_way_leads_from_config(config, way);
    if way.len() > 1 {
        let before = way.drop_last();
        lemma_shorter_way(config, way);
        law_signer_was_answered(config, before);
        let k = way.len() - 2;
        let pre = way[k];
        assert(connect_moves(pre, way.last()));
        assert(connect_ok(pre) && leads_from(config, pre));
        assert forall|i: int| answered_at(before, i) implies answered_at(way, i) by {}
        assert forall|i: int| created_at(before, i) implies created_at(way, i) by {}
        assert forall|n: nat| #[trigger] was_put_under_watch(before, n) implies was_put_under_watch(
            way,
            n,
        ) by {
            let i = choose|i: int| #[trigger] put_under_watch_at(before, i, n);
            assert(put_under_watch_at(way, i, n));
        }
        if way.last() != pre && !(way.last() matches ConnectModel::Finished(Err(_))) {
            if pre is Pinging {
                let reply = choose|reply: Result<String, String>|
                    way.last() == #[trigger] after_ping(pre, reply);
                assert(way[k + 1] == after_ping(way[k], Ok(reply->Ok_0)));
                assert(answered_at(way, k));
            }
            if pre is StartingWatcher {
                assert(created_at(way, k));
            }
            if pre is Watching {
                let n = under_watch(config, pre);
                assert(put_under_watch_at(way, k, n));
                assert(was_put_under_watch(way, n));
            }
        }
        assert forall|n: nat| n < under_watch(config, way.last()) implies
            #[trigger] was_put_under_watch(way, n) by {
            if n < under_watch(config, pre) {
                assert(was_put_under_watch(before, n));
            }
        }
    }
}

/// The text of the first failure of a series of outcomes, if there is one.
pub open spec fn first_failure(outcomes: Seq<Result<(), String>>) -> Option<Seq<char>>
    decreases outcomes.len(),
{
    if outcomes.len() == 0 {
        None
    } else {
        match outcomes[0] {
            Err(e) => Some(e@),
            Ok(()) => first_failure(outcomes.drop_first()),
        }
    }
}

/// Where a connection gets to with what comes of putting files under watch, one after the other.
pub open spec fn after_watches(
    pre: ConnectModel,
    outcomes: Seq<Result<(), String>>,
) -> ConnectModel
    decreases outcomes.len(),
{
    if outcomes.len() == 0 {
        pre
    } else {
        after_watches(after_watch(pre, outcomes[0]), outcomes.drop_first())
    }
}

/// Of what can fail in starting the watcher, the first failure is reported, and then there is no
/// signer: the creation of the watcher comes first, then the client's certificate, its key and,
/// where one is configured, the CA file. Where nothing fails, the signer is there.
pub proof fn law_first_watcher_failure_is_reported(
    config: RemoteSignerConfig,
    client: SignerClient,
    created: Result<(), String>,
    outcomes: Seq<Result<(), String>>,
)
    requires
        config.client_cert is Some,
        outcomes.len() == watched(config).len(),
    ensures
        after_watches(
            after_creation(ConnectModel::StartingWatcher(config, client), created),
            outcomes,
        ) == (match first_failure(seq![created] + outcomes) {
            Some(e) => watcher_failed(e),
            None => ConnectModel::Finished(Ok(connected(config, client))),
        }),
{
    let all = seq![created] + outcomes;
    assert(all[0] == created);
    assert(all.drop_first() == outcomes);
    match created {
        Err(e) => lemma_finished_stays(watcher_failed(e@), outcomes),
        Ok(()) => lemma_first_failure_of_files(config, client, 0, outcomes),
    }
}

/// A connection that has ended stays as it is.
proof fn lemma_finished_stays(connecting: ConnectModel, outcomes: Seq<Result<(), String>>)
    requires
        connecting is Finished,
    ensures
        after_watches(connecting, outcomes) == connecting,
    decreases outcomes.len(),
{
    if outcomes.len() > 0 {
        lemma_finished_stays(connecting, outcomes.drop_first());
    }
}

/// The first failure is reported of the files that are left to be put under watch.
proof fn lemma_first_failure_of_files(
    config: RemoteSignerConfig,
    client: SignerClient,
    n: nat,
    outcomes: Seq<Result<(), String>>,
)
    requires
        n < watched(config).len(),
        outcomes.len() == watched(config).len() - n,
    ensures
        after_watches(ConnectModel::Watching(config, client, n), outcomes) == (match first_failure(
            outcomes,
        ) {
            Some(e) => watcher_failed(e),
            None => ConnectModel::Finished(Ok(connected(config, client))),
        }),
    decreases outcomes.len(),
{
    let next = after_watch(ConnectModel::Watching(config, client, n), outcomes[0]);
    if next is Finished {
        lemma_finished_stays(next, outcomes.drop_first());
    } else {
        lemma_first_failure_of_files(config, client, n + 1, outcomes.drop_first());
    }
}

/// What is read where a connection wants a file, if the three files hold what is given.
pub open spec fn connect_file_for(
    connecting: ConnectModel,
    ca: FileModel,
    cert: FileModel,
    key: FileModel,
) -> FileModel {
    match connecting {
        ConnectModel::Building(_, build) => file_for(build, ca, cert, key),
        _ => key,
    }
}

/// A connection starts and goes through three files.
pub open spec fn reads_files(
    config: RemoteSignerConfig,
    ca: FileModel,
    cert: FileModel,
    key: FileModel,
    way: Seq<ConnectModel>,
) -> bool {
    &&& way.len() == 4
    &&& connect_starts(config, way[0])
    &&& forall|i: int|
        0 <= i < 3 ==> connect_reads(
            #[trigger] way[i],
            connect_file_for(way[i], ca, cert, key),
            way[i + 1],
        )
}

/// The service is asked with the client that the three files of the configuration amount to; where
/// they amount to an error, the connection ends with it.
pub proof fn law_connection_comes_to_files_outcome(
    config: RemoteSignerConfig,
    ca: FileModel,
    cert: FileModel,
    key: FileModel,
    way: Seq<ConnectModel>,
)
    requires
        reads_files(config, ca, cert, key, way),
    ensures
        exists|out: OutcomeModel| #[trigger]
            files_outcome(config, ca, cert, key, out) && build_settles(
                config,
                BuildModel::Finished(out),
                way[3],
            ),
{
    let b0 = choose|build: BuildModel| #[trigger]
        build_starts(config, build) && build_settles(config, build, way[0]);
    let b1 = lemma_connection_reads(config, b0, ca, cert, key, way[0], way[1]);
    let b2 = lemma_connection_reads(config, b1, ca, cert, key, way[1], way[2]);
    let b3 = lemma_connection_reads(config, b2, ca, cert, key, way[2], way[3]);
    law_build_comes_to_files_outcome(config, ca, cert, key, seq![b0, b1, b2, b3]);
    assert(b3 == BuildModel::Finished(b3->Finished_0));
}

/// With good files the service is asked, with a client of the configured time limit and of what the
/// files hold. Only the cryptography provider can stand against it, where it refuses the client's
/// key with its certificates.
pub proof fn law_good_files_lead_to_the_service(
    config: RemoteSignerConfig,
    ca: FileModel,
    cert: FileModel,
    key: FileModel,
    way: Seq<ConnectModel>,
)
    requires
        reads_files(config, ca, cert, key, way),
        has_certificates(config),
        good_files(config, ca, cert, key),
    ensures
        match way[3] {
            ConnectModel::Pinging(c, client) => c == config && client@ == (ClientModel {
                endpoint: config.endpoint,
                is_local: true,
                http: HttpModel {
                    timeout_secs: config.timeout_secs,
                    tls: Some(tls_from_files(config, ca, cert, key, Ok(()))->Ok_0),
                },
            }),
            ConnectModel::Finished(Err(e)) => config.client_cert is Some && is_auth_refusal(Err(e)),
            _ => false,
        },
{
    law_connection_comes_to_files_outcome(config, ca, cert, key, way);
    let out = choose|out: OutcomeModel| #[trigger]
        files_outcome(config, ca, cert, key, out) && build_settles(
            config,
            BuildModel::Finished(out),
            way[3],
        );
    law_good_files_give_a_client(config, ca, cert, key, out);
}

/// A connection follows the build of its client through a file.
proof fn lemma_connection_reads(
    config: RemoteSignerConfig,
    before: BuildModel,
    ca: FileModel,
    cert: FileModel,
    key: FileModel,
    pre: ConnectModel,
    post: ConnectModel,
) -> (build: BuildModel)
    requires
        build_settles(config, before, pre),
        connect_reads(pre, connect_file_for(pre, ca, cert, key), post),
    ensures
        build_steps(config, before, file_for(before, ca, cert, key), build),
        build_settles(config, build, post),
{
    match before {
        BuildModel::Finished(_) => before,
        _ => choose|build: BuildModel| #[trigger]
            build_steps(config, before, file_for(before, ca, cert, key), build) && build_settles(
                config,
                build,
                post,
            ),
    }
}

} // verus!
