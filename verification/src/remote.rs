//! Signing with a private key that a remote service holds.
//!
//! A [`RemoteSigner`] and the [`Connecting`] that leads to it decide what is to be done next and
//! take in what came of it. The files are read, and the service is called, by whoever drives them.

use vstd::prelude::*;

use crate::certificate_files::{ca_roots, client_certs, client_key, FileModel, FileRead};
use crate::client_build::{
    build_ok, build_starts, build_steps, error_fits, file_for, files_outcome, fits, good_files,
    has_certificates, is_auth_refusal, law_build_comes_to_files_outcome,
    law_good_files_give_a_client, tls_from_files, wanted_file, BuildModel, ClientBuild,
    OutcomeModel,
};
use crate::config::RemoteSignerConfig;
use crate::connecting::{connect_starts, Connecting};
use crate::error::{RemoteSignerError, RemoteSignerErrorModel};
use crate::http::{signer_client, ClientModel, HttpModel, SignerClient};
use crate::local::{block_signature, ecdsa_signature};
use crate::payload::{
    big_endian, block_domain, keccak256, signing_input, Address, BlockPayloadArgs, PayloadHash,
};
use crate::signature::{
    law_signature_read_back, notates, parse_signature, signature_outcome, Signature, SignatureModel,
};
use crate::signer::{BlockSigner, SignStep};
use crate::tls::TlsModel;

verus! {

/// Response from the remote signer
#[derive(Debug)]
pub struct SignResponse {
    /// The signature, in hexadecimal notation
    pub signature: String,
}

/// A call of the signing service, to be completed with its answer.
#[derive(Debug, Clone, Copy, PartialEq, Eq)]
pub struct SignCall {
    /// What the service is called with
    pub params: BlockPayloadArgs,
}

/// A call of the signing service, with the client that it is to go through.
pub struct SignRequest<'a> {
    /// The client that the service is called with
    pub client: &'a SignerClient,
    /// The call
    pub call: SignCall,
}

/// What a request asks to have hashed and signed.
pub open spec fn requested_input(params: BlockPayloadArgs) -> Seq<u8> {
    params.domain@ + big_endian(params.chain_id as nat, 32) + params.payload_hash@
}

/// The request is for this payload, chain and sender, in the domain of the signatures of blocks.
pub open spec fn asks_for(
    params: BlockPayloadArgs,
    payload_hash: PayloadHash,
    chain_id: u64,
    sender_address: Address,
) -> bool {
    &&& params.domain@ == block_domain()
    &&& params.chain_id == chain_id
    &&& params.payload_hash == payload_hash.0
    &&& params.sender_address == sender_address
}

/// What an answer of the signing service amounts to.
pub open spec fn reply_outcome(reply: Result<SignResponse, String>) -> Result<
    SignatureModel,
    RemoteSignerErrorModel,
> {
    match reply {
        Err(e) => Err(RemoteSignerErrorModel::SigningRPCError(e@)),
        Ok(response) => signature_outcome(response.signature@),
    }
}

impl SignCall {
    /// The method of the service that is called.
    pub fn method(&self) -> (method: &'static str)
        ensures
            method@ == "opsigner_signBlockPayload"@,
    {
        "opsigner_signBlockPayload"
    }

    /// Completes the call with the service's answer, or with the text of the failure to get one.
    pub fn complete(self, reply: Result<SignResponse, String>) -> (res: Result<
        Signature,
        RemoteSignerError,
    >)
        ensures
            reply_outcome(reply) == (match res {
                Ok(signature) => Ok(signature@),
                Err(error) => Err(error@),
            }),
    {
        match reply {
            Err(e) => Err(RemoteSignerError::SigningRPCError(e)),
            Ok(response) => parse_signature(response.signature.as_str()),
        }
    }
}

/// A notice from the watcher of the certificate files.
#[derive(Debug)]
pub enum WatchEvent {
    /// A watched file was modified
    Modified,
    /// Something else happened to a watched file
    Other,
    /// The watcher failed
    Failed(String),
}

/// What a notice or a file led to.
#[derive(Debug)]
pub enum ReloadStatus {
    /// Nothing
    Ignored,
    /// A reload is under way and wants a file
    Reading,
    /// The client was replaced
    Reloaded,
    /// A reload failed; the client stays
    Failed(RemoteSignerError),
}

/// Remote signer that communicates with an external signing service via JSON-RPC
pub struct RemoteSigner {
    config: RemoteSignerConfig,
    client: SignerClient,
    watching: bool,
    reload: Option<ClientBuild>,
}

/// The model of a [`RemoteSigner`].
pub struct RemoteModel {
    /// What the signer was configured with
    pub config: RemoteSignerConfig,
    /// The client that the service is called with
    pub client: SignerClient,
    /// The certificate files are watched
    pub watching: bool,
    /// The reload that is under way
    pub reload: Option<BuildModel>,
}

impl View for RemoteSigner {
    type V = RemoteModel;

    closed spec fn view(&self) -> RemoteModel {
        RemoteModel {
            config: self.config,
            client: self.client,
            watching: self.watching,
            reload: match self.reload {
                None => None,
                Some(build) => Some(build@),
            },
        }
    }
}

/// A client speaks to the configured service, as configured.
pub open spec fn client_ok(config: RemoteSignerConfig, client: ClientModel) -> bool {
    client.endpoint == config.endpoint && fits(config, client.http)
}

/// What holds of a remote signer at all times: its client is as configured, its certificate files
/// are watched exactly where a client certificate is configured, and a reload stands well and wants
/// a file.
pub open spec fn signer_ok(signer: RemoteModel) -> bool {
    &&& client_ok(signer.config, signer.client@)
    &&& signer.watching <==> signer.config.client_cert is Some
    &&& signer.reload matches Some(build) ==> build_ok(signer.config, build) && !(build is Finished)
}

/// What a signer asks for about a payload, a chain and a sender: a call for just that, through the
/// client that the signer has.
pub open spec fn requests(
    signer: RemoteModel,
    payload_hash: PayloadHash,
    chain_id: u64,
    sender_address: Address,
    request: SignRequest<'_>,
) -> bool {
    &&& *request.client == signer.client
    &&& asks_for(request.call.params, payload_hash, chain_id, sender_address)
}

/// The signer that a connection ends with: its certificate files are watched exactly where a client
/// certificate is configured, and no reload is under way.
pub open spec fn connected(config: RemoteSignerConfig, client: SignerClient) -> RemoteModel {
    RemoteModel { config, client, watching: config.client_cert is Some, reload: None }
}

/// What a reload does to a signer once the build of the new client has come to a point. A client
/// that was built takes the place of the old one; an error leaves the old one in place.
pub open spec fn reload_settles(
    pre: RemoteModel,
    build: BuildModel,
    post: RemoteModel,
    status: ReloadStatus,
) -> bool {
    &&& post.config == pre.config
    &&& post.watching == pre.watching
    &&& match build {
        BuildModel::Finished(Ok(http)) => {
            &&& post.client@ == ClientModel { endpoint: pre.config.endpoint, is_local: false, http }
            &&& post.reload is None
            &&& status is Reloaded
        },
        BuildModel::Finished(Err(error)) => {
            &&& post.client == pre.client
            &&& post.reload is None
            &&& status matches ReloadStatus::Failed(e) && e@ == error
        },
        _ => {
            &&& post.client == pre.client
            &&& post.reload == Some(build)
            &&& status is Reading
        },
    }
}

/// What a notice does to a signer: a modification starts a reload, from the start where one was
/// under way; anything else is ignored.
pub open spec fn event_handled(
    pre: RemoteModel,
    event: WatchEvent,
    post: RemoteModel,
    status: ReloadStatus,
) -> bool {
    if event is Modified {
        exists|build: BuildModel| #[trigger]
            build_starts(pre.config, build) && reload_settles(pre, build, post, status)
    } else {
        post == pre && status is Ignored
    }
}

/// What a file does to a signer: the reload that wanted it goes on; without a reload, nothing.
pub open spec fn file_handled(
    pre: RemoteModel,
    read: FileModel,
    post: RemoteModel,
    status: ReloadStatus,
) -> bool {
    match pre.reload {
        None => post == pre && status is Ignored,
        Some(before) => exists|build: BuildModel| #[trigger]
            build_steps(pre.config, before, read, build) && reload_settles(
                pre,
                build,
                post,
                status,
            ),
    }
}

impl RemoteSigner {
    #[verifier::type_invariant]
    spec fn valid(self) -> bool {
        signer_ok(self@)
    }

    /// Creates a new remote signer with the given configuration: gives what is to be done for it,
    /// up to the signer itself.
    ///
    /// The client is built, and with it the service is asked how it is. If client certificates are
    /// configured, the certificate files are then put under watch: the client's certificate and
    /// key, and the CA file where one is configured. Whenever one of them is modified, the client
    /// is built anew and takes the place of the old one; where that fails, the old one stays.
    pub fn new(config: RemoteSignerConfig) -> (connecting: Connecting)
        ensures
            connect_starts(config, connecting@),
    {
        Connecting::start(config)
    }

    /// The signer that a connection ends with.
    pub(crate) fn connected(config: RemoteSignerConfig, client: SignerClient) -> (signer: Self)
        requires
            client_ok(config, client@),
        ensures
            signer@ == connected(config, client),
    {
        let watching = config.client_cert.is_some();
        RemoteSigner { config, client, watching, reload: None }
    }

    /// Returns true if certificate watching is enabled
    pub fn is_certificate_watching_enabled(&self) -> (enabled: bool)
        ensures
            enabled == self@.watching,
            enabled == (self@.config.client_cert is Some),
    {
        proof {
            use_type_invariant(self);
        }
        self.watching
    }

    /// What the signer was configured with.
    pub fn config(&self) -> (config: &RemoteSignerConfig)
        ensures
            *config == self@.config,
    {
        &self.config
    }

    /// The client that the service is called with.
    pub fn client(&self) -> (client: &SignerClient)
        ensures
            *client == self@.client,
    {
        &self.client
    }

    /// Signs a block payload hash using the remote signer via JSON-RPC: gives the call to make and
    /// the client to make it through.
    pub fn sign_block_v1(
        &self,
        payload_hash: PayloadHash,
        chain_id: u64,
        sender_address: Address,
    ) -> (request: SignRequest<'_>)
        ensures
            requests(self@, payload_hash, chain_id, sender_address, request),
    {
        // For v1 payloads, the domain is always zero
        let domain: [u8; 32] = [0u8; 32];
        assert(domain@ == block_domain());
        let params = BlockPayloadArgs {
            domain,
            chain_id,
            payload_hash: payload_hash.0,
            sender_address,
        };
        SignRequest { client: &self.client, call: SignCall { params } }
    }

    /// The certificate file that a reload wants next; none without a reload.
    pub fn wanted_certificate(&self) -> (path: Option<&std::path::PathBuf>)
        ensures
            match self@.reload {
                None => path is None,
                Some(build) => {
                    &&& path is Some
                    &&& wanted_file(self@.config, build) == Some(*path->Some_0)
                },
            },
    {
        proof {
            use_type_invariant(self);
        }
        match &self.reload {
            None => None,
            Some(build) => build.wanted(&self.config),
        }
    }

    /// Settles a reload at the point that the build of the new client has come to.
    fn settle(&mut self, build: ClientBuild) -> (status: ReloadStatus)
        requires
            build_ok(old(self)@.config, build@),
        ensures
            reload_settles(old(self)@, build@, final(self)@, status),
    {
        proof {
            use_type_invariant(&*self);
        }
        match build {
            ClientBuild::Finished(Ok(http)) => {
                let client = signer_client(http, &self.config.endpoint, false);
                self.client = client;
                self.reload = None;
                ReloadStatus::Reloaded
            },
            ClientBuild::Finished(Err(error)) => {
                self.reload = None;
                ReloadStatus::Failed(error)
            },
            build => {
                self.reload = Some(build);
                ReloadStatus::Reading
            },
        }
    }

    /// Takes in a notice from the watcher of the certificate files.
    pub fn certificate_event(&mut self, event: WatchEvent) -> (status: ReloadStatus)
        ensures
            event_handled(old(self)@, event, final(self)@, status),
    {
        match event {
            WatchEvent::Modified => {
                let build = ClientBuild::build_http_client(&self.config);
                self.settle(build)
            },
            WatchEvent::Other => ReloadStatus::Ignored,
            WatchEvent::Failed(_) => ReloadStatus::Ignored,
        }
    }

    /// Takes in what came of reading the wanted certificate file.
    pub fn certificate_file(&mut self, read: FileRead) -> (status: ReloadStatus)
        ensures
            file_handled(old(self)@, read@, final(self)@, status),
    {
        proof {
            use_type_invariant(&*self);
        }
        let mut reload: Option<ClientBuild> = None;
        std::mem::swap(&mut reload, &mut self.reload);
        match reload {
            None => ReloadStatus::Ignored,
            Some(before) => {
                let build = before.supply(&self.config, read);
                self.settle(build)
            },
        }
    }
}

impl BlockSigner for RemoteSigner {
    /// The service is to be called with what was asked for, through the client that the signer has.
    open spec fn signs(
        &self,
        payload_hash: PayloadHash,
        chain_id: u64,
        sender_address: Address,
        step: SignStep<'_>,
    ) -> bool {
        step matches SignStep::Call(request) && requests(
            self@,
            payload_hash,
            chain_id,
            sender_address,
            request,
        )
    }

    fn sign_block(
        &self,
        payload_hash: PayloadHash,
        chain_id: u64,
        sender_address: Address,
    ) -> (step: SignStep<'_>) {
        SignStep::Call(self.sign_block_v1(payload_hash, chain_id, sender_address))
    }
}

/// A request asks the service to sign what a local signer signs for the same payload and chain.
pub proof fn law_request_asks_for_signing_input(
    params: BlockPayloadArgs,
    payload_hash: PayloadHash,
    chain_id: u64,
    sender_address: Address,
)
    requires
        asks_for(params, payload_hash, chain_id, sender_address),
    ensures
        requested_input(params) == signing_input(payload_hash.0@, chain_id),
{
}

/// The 65 bytes of a signature, with its parity in Electrum's notation.
pub open spec fn raw_signature(signature: SignatureModel) -> Seq<u8> {
    let v: u8 = if signature.y_parity {
        28
    } else {
        27
    };
    (signature.r + signature.s).push(v)
}

/// A service that signs what it is asked to with a private key, and answers in hexadecimal
/// notation, gives a remote signer the signature that a local signer with that key makes.
pub proof fn law_remote_signature_is_local_signature(
    key: Seq<u8>,
    params: BlockPayloadArgs,
    payload_hash: PayloadHash,
    chain_id: u64,
    sender_address: Address,
    signature: Signature,
    response: SignResponse,
)
    requires
        asks_for(params, payload_hash, chain_id, sender_address),
        ecdsa_signature(key, keccak256(requested_input(params))) == Ok::<SignatureModel, Seq<char>>(
            signature@,
        ),
        notates(response.signature@, raw_signature(signature@)),
    ensures
        reply_outcome(Ok(response)) == Ok::<SignatureModel, RemoteSignerErrorModel>(signature@),
        block_signature(key, payload_hash.0@, chain_id) == Ok::<SignatureModel, Seq<char>>(
            signature@,
        ),
{
    let bytes = raw_signature(signature@);
    law_signature_read_back(response.signature@, bytes);
    assert(bytes.subrange(0, 32) == signature.r@);
    assert(bytes.subrange(32, 64) == signature.s@);
}

/// One event in the life of a signer: a notice of the watcher, or a file.
pub open spec fn signer_moves(pre: RemoteModel, post: RemoteModel, status: ReloadStatus) -> bool {
    ||| exists|event: WatchEvent| #[trigger] event_handled(pre, event, post, status)
    ||| exists|read: FileModel| #[trigger] file_handled(pre, read, post, status)
}

/// Whatever the watcher tells and the files hold, a valid signer stays valid, and its configuration
/// stays the same. Its client is replaced only by a reload that succeeded, and the new client is
/// one of the configured service. The error of a reload that failed fits the configuration.
pub proof fn law_signer_stays_ok(pre: RemoteModel, post: RemoteModel, status: ReloadStatus)
    requires
        signer_ok(pre),
        signer_moves(pre, post, status),
    ensures
        signer_ok(post),
        post.config == pre.config,
        post.watching == pre.watching,
        !(status is Reloaded) ==> post.client == pre.client,
        status is Reloaded ==> client_ok(post.config, post.client@) && !post.client@.is_local,
        status matches ReloadStatus::Failed(e) ==> error_fits(post.config, e@),
{
}

/// A series of signers, each of which comes from the one before it by an event.
pub open spec fn is_life(life: Seq<RemoteModel>, statuses: Seq<ReloadStatus>) -> bool {
    &&& life.len() == statuses.len() + 1
    &&& forall|i: int|
        0 <= i < statuses.len() ==> signer_moves(life[i], life[i + 1], #[trigger] statuses[i])
}

/// The last signer has the client that the reload of this place gave, which is the last one that
/// succeeded.
pub open spec fn last_reload_at(
    life: Seq<RemoteModel>,
    statuses: Seq<ReloadStatus>,
    k: int,
) -> bool {
    &&& 0 <= k < statuses.len()
    &&& statuses[k] is Reloaded
    &&& life.last().client == life[k + 1].client
    &&& forall|i: int| k < i < statuses.len() ==> !(#[trigger] statuses[i] is Reloaded)
}

/// The last signer has the client that the first began with, if no reload succeeded, or else the
/// one that the last successful reload gave.
pub open spec fn has_last_good_client(
    life: Seq<RemoteModel>,
    statuses: Seq<ReloadStatus>,
) -> bool {
    if forall|i: int| 0 <= i < statuses.len() ==> !(#[trigger] statuses[i] is Reloaded) {
        life.last().client == life[0].client
    } else {
        exists|k: int| #[trigger] last_reload_at(life, statuses, k)
    }
}

/// Throughout its life a signer is valid and keeps its configuration. It has the client that it
/// began with, or the one that the last successful reload gave it.
pub proof fn law_life_keeps_last_good_client(life: Seq<RemoteModel>, statuses: Seq<ReloadStatus>)
    requires
        is_life(life, statuses),
        signer_ok(life[0]),
    ensures
        signer_ok(life.last()),
        life.last().config == life[0].config,
        has_last_good_client(life, statuses),
    decreases statuses.len(),
{
    if statuses.len() > 0 {
        let n = statuses.len() - 1;
        let before = statuses.drop_last();
        let earlier = life.drop_last();
        assert forall|i: int| 0 <= i < before.len() implies signer_moves(
            earlier[i],
            earlier[i + 1],
            #[trigger] before[i],
        ) by {
            assert(signer_moves(life[i], life[i + 1], statuses[i]));
        }
        law_life_keeps_last_good_client(earlier, before);
        assert(signer_moves(life[n], life[n + 1], statuses[n]));
        law_signer_stays_ok(life[n], life[n + 1], statuses[n]);
        assert forall|i: int| 0 <= i < n implies statuses[i] == #[trigger] before[i] by {}
        if statuses[n] is Reloaded {
            assert(last_reload_at(life, statuses, n));
        } else if exists|i: int| 0 <= i < n && #[trigger] statuses[i] is Reloaded {
            let i = choose|i: int| 0 <= i < n && #[trigger] statuses[i] is Reloaded;
            assert(before[i] is Reloaded);
            let k = choose|k: int| #[trigger] last_reload_at(earlier, before, k);
            assert forall|i: int| k < i < statuses.len() implies !(
            #[trigger] statuses[i] is Reloaded) by {
                if i < n {
                    assert(!(before[i] is Reloaded));
                }
            }
            assert(last_reload_at(life, statuses, k));
        } else {
            assert forall|i: int| 0 <= i < before.len() implies !(
            #[trigger] before[i] is Reloaded) by {
                assert(before[i] == statuses[i]);
            }
        }
    }
}

/// What is read where a signer wants a file, if the three files hold what is given.
pub open spec fn reload_file_for(
    signer: RemoteModel,
    ca: FileModel,
    cert: FileModel,
    key: FileModel,
) -> FileModel {
    match signer.reload {
        Some(build) => file_for(build, ca, cert, key),
        None => key,
    }
}

/// The last of a series of statuses that is not `Ignored`.
pub open spec fn last_told(statuses: Seq<ReloadStatus>) -> ReloadStatus
    decreases statuses.len(),
{
    if statuses.len() > 1 && statuses.last() is Ignored {
        last_told(statuses.drop_last())
    } else {
        statuses.last()
    }
}

/// A modification comes, and then three files.
pub open spec fn is_reload(
    ca: FileModel,
    cert: FileModel,
    key: FileModel,
    life: Seq<RemoteModel>,
    statuses: Seq<ReloadStatus>,
) -> bool {
    &&& life.len() == 5
    &&& statuses.len() == 4
    &&& event_handled(life[0], WatchEvent::Modified, life[1], statuses[0])
    &&& forall|i: int|
        1 <= i < 4 ==> file_handled(
            #[trigger] life[i],
            reload_file_for(life[i], ca, cert, key),
            life[i + 1],
            statuses[i],
        )
}

/// A reload is over after three files at most, and comes to what the files amount to: a client that
/// takes the place of the old one, or an error that leaves the old one in place. The last status
/// that is not `Ignored` says which.
pub proof fn law_reload_comes_to_files_outcome(
    ca: FileModel,
    cert: FileModel,
    key: FileModel,
    life: Seq<RemoteModel>,
    statuses: Seq<ReloadStatus>,
)
    requires
        is_reload(ca, cert, key, life, statuses),
    ensures
        exists|out: OutcomeModel| #[trigger]
            files_outcome(life[0].config, ca, cert, key, out) && reload_settles(
                life[0],
                BuildModel::Finished(out),
                life[4],
                last_told(statuses),
            ),
{
    let config = life[0].config;
    let b0 = choose|build: BuildModel| #[trigger]
        build_starts(config, build) && reload_settles(life[0], build, life[1], statuses[0]);
    assert(statuses.take(1).last() == statuses[0]);
    let b1 = lemma_reload_reads(b0, ca, cert, key, life, statuses, 1);
    let b2 = lemma_reload_reads(b1, ca, cert, key, life, statuses, 2);
    let b3 = lemma_reload_reads(b2, ca, cert, key, life, statuses, 3);
    law_build_comes_to_files_outcome(config, ca, cert, key, seq![b0, b1, b2, b3]);
    assert(b3 == BuildModel::Finished(b3->Finished_0));
    assert(statuses.take(4) == statuses);
}

/// A signer follows the build of its new client through a file.
proof fn lemma_reload_reads(
    before: BuildModel,
    ca: FileModel,
    cert: FileModel,
    key: FileModel,
    life: Seq<RemoteModel>,
    statuses: Seq<ReloadStatus>,
    i: int,
) -> (build: BuildModel)
    requires
        is_reload(ca, cert, key, life, statuses),
        1 <= i < 4,
        reload_settles(life[0], before, life[i], last_told(statuses.take(i))),
    ensures
        build_steps(life[0].config, before, file_for(before, ca, cert, key), build),
        reload_settles(life[0], build, life[i + 1], last_told(statuses.take(i + 1))),
{
    let read = reload_file_for(life[i], ca, cert, key);
    assert(file_handled(life[i], read, life[i + 1], statuses[i]));
    assert(statuses.take(i + 1).last() == statuses[i]);
    assert(statuses.take(i + 1).drop_last() == statuses.take(i));
    match before {
        BuildModel::Finished(_) => before,
        _ => choose|build: BuildModel| #[trigger]
            build_steps(life[0].config, before, file_for(before, ca, cert, key), build)
                && reload_settles(life[i], build, life[i + 1], statuses[i]),
    }
}

/// A modification with good files replaces the client, whatever came of the reloads before: the new
/// one speaks to the configured service with the configured time limit and with what the files
/// hold. Only the cryptography provider can stand against it, where it refuses the client's key
/// with its certificates.
pub proof fn law_good_files_replace_the_client(
    ca: FileModel,
    cert: FileModel,
    key: FileModel,
    life: Seq<RemoteModel>,
    statuses: Seq<ReloadStatus>,
)
    requires
        is_reload(ca, cert, key, life, statuses),
        has_certificates(life[0].config),
        good_files(life[0].config, ca, cert, key),
    ensures
        life[4].reload is None,
        match last_told(statuses) {
            ReloadStatus::Reloaded => life[4].client@ == (ClientModel {
                endpoint: life[0].config.endpoint,
                is_local: false,
                http: HttpModel {
                    timeout_secs: life[0].config.timeout_secs,
                    tls: Some(tls_from_files(life[0].config, ca, cert, key, Ok(()))->Ok_0),
                },
            }),
            ReloadStatus::Failed(e) => {
                &&& life[0].config.client_cert is Some
                &&& is_auth_refusal(Err(e@))
                &&& life[4].client == life[0].client
            },
            _ => false,
        },
{
    law_reload_comes_to_files_outcome(ca, cert, key, life, statuses);
    let config = life[0].config;
    let out = choose|out: OutcomeModel| #[trigger]
        files_outcome(config, ca, cert, key, out) && reload_settles(
            life[0],
            BuildModel::Finished(out),
            life[4],
            last_told(statuses),
        );
    law_good_files_give_a_client(config, ca, cert, key, out);
}

/// Once a modification with good files has led to a reload, what is asked for goes through the
/// rebuilt client: it trusts the roots of the CA file, where one is configured, and presents the
/// certificates and the key that the files hold.
pub proof fn law_request_after_reload_presents_the_new_certificate(
    ca: FileModel,
    cert: FileModel,
    key: FileModel,
    life: Seq<RemoteModel>,
    statuses: Seq<ReloadStatus>,
    payload_hash: PayloadHash,
    chain_id: u64,
    sender_address: Address,
    request: SignRequest<'_>,
)
    requires
        is_reload(ca, cert, key, life, statuses),
        life[0].config.client_cert is Some,
        last_told(statuses) is Reloaded,
        requests(life[4], payload_hash, chain_id, sender_address, request),
    ensures
        good_files(life[0].config, ca, cert, key),
        request.client@.endpoint == life[0].config.endpoint,
        request.client@.http == (HttpModel {
            timeout_secs: life[0].config.timeout_secs,
            tls: Some(
                TlsModel {
                    roots: if life[0].config.ca_cert is Some {
                        ca_roots(ca)->Ok_0
                    } else {
                        seq![]
                    },
                    client_auth: Some((client_certs(cert)->Ok_0, client_key(key)->Ok_0)),
                },
            ),
        }),
{
    law_reload_comes_to_files_outcome(ca, cert, key, life, statuses);
}

/// Up to the end of a reload, what is asked for goes through the client that the signer had.
pub proof fn law_request_before_reload_uses_the_old_client(
    ca: FileModel,
    cert: FileModel,
    key: FileModel,
    life: Seq<RemoteModel>,
    statuses: Seq<ReloadStatus>,
    i: int,
    payload_hash: PayloadHash,
    chain_id: u64,
    sender_address: Address,
    request: SignRequest<'_>,
)
    requires
        is_reload(ca, cert, key, life, statuses),
        0 <= i <= 4,
        i == 0 || life[i].reload is Some,
        requests(life[i], payload_hash, chain_id, sender_address, request),
    ensures
        *request.client == life[0].client,
{
    lemma_client_stays_up_to_reload(ca, cert, key, life, statuses, i);
}

/// Up to the end of a reload, a signer has the client that it had.
proof fn lemma_client_stays_up_to_reload(
    ca: FileModel,
    cert: FileModel,
    key: FileModel,
    life: Seq<RemoteModel>,
    statuses: Seq<ReloadStatus>,
    i: int,
)
    requires
        is_reload(ca, cert, key, life, statuses),
        0 <= i <= 4,
        i == 0 || life[i].reload is Some,
    ensures
        life[i].client == life[0].client,
    decreases i,
{
    if i > 1 {
        let pre = life[i - 1];
        assert(file_handled(pre, reload_file_for(pre, ca, cert, key), life[i], statuses[i - 1]));
        lemma_client_stays_up_to_reload(ca, cert, key, life, statuses, i - 1);
    }
}

/// What is asked for at any time of a signer's life goes through the client that it began with or,
/// where a reload has succeeded, through the one that the last such reload gave it. It is one of
/// the configured service, as configured.
pub proof fn law_request_uses_the_last_good_client(
    life: Seq<RemoteModel>,
    statuses: Seq<ReloadStatus>,
    payload_hash: PayloadHash,
    chain_id: u64,
    sender_address: Address,
    request: SignRequest<'_>,
)
    requires
        is_life(life, statuses),
        signer_ok(life[0]),
        requests(life.last(), payload_hash, chain_id, sender_address, request),
    ensures
        client_ok(life[0].config, request.client@),
        (forall|i: int| 0 <= i < statuses.len() ==> !(#[trigger] statuses[i] is Reloaded))
            ==> *request.client == life[0].client,
        (exists|i: int| 0 <= i < statuses.len() && #[trigger] statuses[i] is Reloaded)
            ==> exists|k: int| #[trigger] last_reload_at(life, statuses, k) && *request.client
            == life[k + 1].client,
{
    law_life_keeps_last_good_client(life, statuses);
}

} // verus!
