//! HTTP clients, and the JSON-RPC clients that speak through them.

use alloy_rpc_client::{ClientBuilder, RpcClient};
use alloy_transport_http::Http;
use vstd::prelude::*;

use crate::tls::{TlsConfig, TlsModel};

verus! {

/// A JSON-RPC client (`alloy_rpc_client::RpcClient`).
#[verifier::external_type_specification]
#[verifier::external_body]
pub struct ExRpcClient(RpcClient);

/// An HTTP client (`reqwest::Client`).
#[verifier::external_type_specification]
#[verifier::external_body]
pub struct ExHttpClient(reqwest::Client);

/// An HTTP client in the making (`reqwest::ClientBuilder`).
#[verifier::external_type_specification]
#[verifier::external_body]
pub struct ExHttpClientBuilder(reqwest::ClientBuilder);

/// What an HTTP client was told: its time limit, and the TLS configuration that it uses in place
/// of its own.
pub struct HttpModel {
    pub timeout_secs: Option<u64>,
    pub tls: Option<TlsModel>,
}

/// An HTTP client in the making, with a record of what it was told.
pub struct HttpBuilder {
    builder: reqwest::ClientBuilder,
    told: Ghost<HttpModel>,
}

/// An HTTP client, with a record of what it was told.
pub struct HttpClient {
    client: reqwest::Client,
    told: Ghost<HttpModel>,
}

impl View for HttpBuilder {
    type V = HttpModel;

    closed spec fn view(&self) -> HttpModel {
        self.told@
    }
}

impl View for HttpClient {
    type V = HttpModel;

    closed spec fn view(&self) -> HttpModel {
        self.told@
    }
}

/// `reqwest::Client::builder`: a builder that was told nothing, so that the client has no time
/// limit and checks servers against the system's certificates.
#[verifier::external_body]
pub(crate) fn http_builder() -> (builder: HttpBuilder)
    ensures
        builder@ == (HttpModel { timeout_secs: None, tls: None }),
{
    HttpBuilder {
        builder: reqwest::Client::builder(),
        told: Ghost(HttpModel { timeout_secs: None, tls: None }),
    }
}

/// `reqwest::ClientBuilder::timeout`, in whole seconds.
#[verifier::external_body]
pub(crate) fn set_timeout(builder: HttpBuilder, secs: u64) -> (res: HttpBuilder)
    ensures
        res@ == (HttpModel { timeout_secs: Some(secs), tls: builder@.tls }),
{
    HttpBuilder {
        builder: builder.builder.timeout(std::time::Duration::from_secs(secs)),
        told: Ghost(HttpModel { timeout_secs: Some(secs), tls: builder@.tls }),
    }
}

/// `reqwest::ClientBuilder::use_preconfigured_tls`, with a configuration of the rustls that
/// reqwest itself is built on.
#[verifier::external_body]
pub(crate) fn set_tls(builder: HttpBuilder, tls: TlsConfig) -> (res: HttpBuilder)
    ensures
        res@ == (HttpModel { timeout_secs: builder@.timeout_secs, tls: Some(tls@) }),
{
    HttpBuilder {
        builder: builder.builder.use_preconfigured_tls(tls.config),
        told: Ghost(HttpModel { timeout_secs: builder@.timeout_secs, tls: Some(tls@) }),
    }
}

/// `reqwest::ClientBuilder::build`: a client that goes by what the builder was told. With a TLS
/// configuration of the builder's own it is always had. Without one the system's certificates are
/// loaded, so that it depends on the machine whether the call fails and with what text: nothing is
/// claimed of that.
#[verifier::external_body]
pub(crate) fn finish(builder: HttpBuilder) -> (res: Result<HttpClient, String>)
    ensures
        res matches Ok(client) ==> client@ == builder@,
        builder@.tls is Some ==> res is Ok,
{
    match builder.builder.build() {
        Ok(client) => Ok(HttpClient { client, told: builder.told }),
        Err(error) => Err(error.to_string()),
    }
}

/// The model of what came of building a client.
pub open spec fn built(res: Result<HttpClient, String>) -> Result<HttpModel, Seq<char>> {
    match res {
        Ok(client) => Ok(client@),
        Err(text) => Err(text@),
    }
}

/// Building a client with these settings comes to this: a builder that was told them has been asked
/// for its client, and this is what it answered.
pub closed spec fn builds(settings: HttpModel, answer: Result<HttpModel, Seq<char>>) -> bool {
    exists|builder: HttpBuilder, res: Result<HttpClient, String>|
        #![trigger call_ensures(finish, (builder,), res)]
        builder@ == settings && call_ensures(finish, (builder,), res) && built(res) == answer
}

/// Builds the client, and keeps that this is what came of it.
pub(crate) fn build_client(builder: HttpBuilder) -> (res: Result<HttpClient, String>)
    ensures
        builds(builder@, built(res)),
        res matches Ok(client) ==> client@ == builder@,
        builder@.tls is Some ==> res is Ok,
{
    finish(builder)
}

/// What a build of a client comes to is the answer of a builder that was told the settings. So it
/// is a client with just these settings, and always one where they have a TLS configuration.
pub(crate) proof fn law_built_client_is_an_answer(
    settings: HttpModel,
    answer: Result<HttpModel, Seq<char>>,
)
    requires
        builds(settings, answer),
    ensures
        exists|builder: HttpBuilder, res: Result<HttpClient, String>|
            #![trigger call_ensures(finish, (builder,), res)]
            builder@ == settings && call_ensures(finish, (builder,), res) && built(res) == answer,
        answer matches Ok(client) ==> client == settings,
        settings.tls is Some ==> answer is Ok,
{
}

/// What a JSON-RPC client was made of.
pub struct ClientModel {
    pub endpoint: url::Url,
    pub is_local: bool,
    pub http: HttpModel,
}

/// A client of the signing service, with a record of what it was made of.
pub struct SignerClient {
    rpc: RpcClient,
    made_of: Ghost<ClientModel>,
}

impl View for SignerClient {
    type V = ClientModel;

    closed spec fn view(&self) -> ClientModel {
        self.made_of@
    }
}

impl SignerClient {
    /// The JSON-RPC client itself, for the calls that go over the network.
    pub fn rpc(&self) -> (rpc: &RpcClient)
        ensures
            *rpc == self.inner(),
    {
        &self.rpc
    }

    /// The JSON-RPC client itself.
    pub closed spec fn inner(&self) -> RpcClient {
        self.rpc
    }
}

/// `alloy_rpc_client::ClientBuilder::transport`, without layers, on the transport that
/// `alloy_transport_http::Http::with_client` makes of the HTTP client and the address.
#[verifier::external_body]
pub(crate) fn signer_client(http: HttpClient, endpoint: &url::Url, is_local: bool) -> (client:
    SignerClient)
    ensures
        client@ == (ClientModel { endpoint: *endpoint, is_local, http: http@ }),
{
    let transport = Http::with_client(http.client, endpoint.clone());
    SignerClient {
        rpc: ClientBuilder::default().transport(transport, is_local),
        made_of: Ghost(ClientModel { endpoint: *endpoint, is_local, http: http@ }),
    }
}

} // verus!
