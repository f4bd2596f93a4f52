//! The TLS engine: its configuration types, and the calls that build a server
//! configuration. Everything here is trusted; the decisions about what to
//! build are made, and proved, by the callers.

use std::sync::Arc;
use tokio_rustls::rustls::server::{
    AllowAnyAnonymousOrAuthenticatedClient, AllowAnyAuthenticatedClient, ServerSessionMemoryCache,
    WantsServerCert,
};
use tokio_rustls::rustls::{
    Certificate, ConfigBuilder, PrivateKey, RootCertStore, ServerConfig, SupportedCipherSuite,
    Ticketer, WantsVerifier,
};
use tokio_rustls::TlsAcceptor;
use vstd::prelude::*;

verus! {

/// The engine's finished server configuration.
#[verifier::external_type_specification]
#[verifier::external_body]
pub struct ExServerConfig(ServerConfig);

/// The engine's store of trust anchors.
#[verifier::external_type_specification]
#[verifier::external_body]
pub struct ExRootCertStore(RootCertStore);

/// One cipher suite that the engine implements.
#[verifier::external_type_specification]
#[verifier::external_body]
pub struct ExSupportedCipherSuite(SupportedCipherSuite);

/// The handle that starts a handshake on an accepted stream.
#[verifier::external_type_specification]
#[verifier::external_body]
pub struct ExTlsAcceptor(TlsAcceptor);

/// A configuration under construction: the cryptographic parameters are
/// settled, the client-certificate verifier is not.
///
/// The engine's builder is generic over a sealed trait, so it is held here
/// rather than declared.
#[verifier::external_body]
pub struct VerifierStage {
    inner: ConfigBuilder<ServerConfig, WantsVerifier>,
}

/// A configuration under construction: the verifier is settled, the server's
/// own certificate is not.
#[verifier::external_body]
pub struct CertificateStage {
    inner: ConfigBuilder<ServerConfig, WantsServerCert>,
}

/// A trust anchor as the engine keeps it: the subject, the subject public key
/// info, and the name constraints if there are any, each DER-encoded.
pub type Anchor = (Seq<u8>, Seq<u8>, Option<Seq<u8>>);

/// The trust anchors in a store, in the order in which they were added.
pub uninterp spec fn store_roots(store: RootCertStore) -> Seq<Anchor>;

/// The trust anchor that the engine extracts from a DER-encoded certificate,
/// if it accepts the certificate as one.
pub uninterp spec fn anchor_of(der: Seq<u8>) -> Option<Anchor>;

/// Whether the engine can sign with a DER-encoded private key.
pub uninterp spec fn key_usable(key: Seq<u8>) -> bool;

/// `RootCertStore::empty`.
///
/// Trusted: the new store holds no anchor.
#[verifier::external_body]
pub(crate) fn empty_store() -> (store: RootCertStore)
    ensures
        store_roots(store) == Seq::<Anchor>::empty(),
{
    RootCertStore::empty()
}

/// `RootCertStore::add`.
///
/// Trusted: whether the certificate is accepted depends on its bytes alone.
/// An accepted certificate's anchor is appended to the store; a rejected one
/// leaves the store as it was.
#[verifier::external_body]
pub(crate) fn add_anchor(store: &mut RootCertStore, der: &Vec<u8>) -> (added: bool)
    ensures
        added == anchor_of(der@).is_some(),
        store_roots(*final(store)) == match anchor_of(der@) {
            Some(anchor) => store_roots(*old(store)).push(anchor),
            None => store_roots(*old(store)),
        },
{
    store.add(&Certificate(der.clone())).is_ok()
}

/// `ServerConfig::builder` with the given cipher suites, the default key
/// exchange groups and the default protocol versions.
///
/// Trusted: the engine refuses exactly the lists in which no suite belongs to
/// an enabled protocol version. The default versions are all of them, so only
/// the empty list is refused.
#[verifier::external_body]
pub(crate) fn start_config(suites: &Vec<SupportedCipherSuite>) -> (stage: Option<VerifierStage>)
    ensures
        stage is Some <==> suites@.len() > 0,
{
    ServerConfig::builder()
        .with_cipher_suites(suites.as_slice())
        .with_safe_default_kx_groups()
        .with_safe_default_protocol_versions()
        .ok()
        .map(|inner| VerifierStage { inner })
}

/// `ConfigBuilder::with_no_client_auth`: no client certificate is requested.
#[verifier::external_body]
pub(crate) fn without_client_auth(stage: VerifierStage) -> CertificateStage {
    CertificateStage { inner: stage.inner.with_no_client_auth() }
}

/// `ConfigBuilder::with_client_cert_verifier` with
/// `AllowAnyAnonymousOrAuthenticatedClient`: a certificate is requested and,
/// if one is sent, verified against `roots`; a client without one is accepted.
#[verifier::external_body]
pub(crate) fn with_optional_client_auth(
    stage: VerifierStage,
    roots: RootCertStore,
) -> CertificateStage {
    let verifier = AllowAnyAnonymousOrAuthenticatedClient::new(roots);
    CertificateStage { inner: stage.inner.with_client_cert_verifier(verifier) }
}

/// `ConfigBuilder::with_client_cert_verifier` with
/// `AllowAnyAuthenticatedClient`: every client must send a certificate that
/// verifies against `roots`.
#[verifier::external_body]
pub(crate) fn with_mandatory_client_auth(
    stage: VerifierStage,
    roots: RootCertStore,
) -> CertificateStage {
    let verifier = AllowAnyAuthenticatedClient::new(roots);
    CertificateStage { inner: stage.inner.with_client_cert_verifier(verifier) }
}

/// `ConfigBuilder::with_single_cert`.
///
/// Trusted: the engine refuses the pair exactly when it cannot sign with the
/// key, which depends on the key's bytes alone. It does not look into the
/// chain.
#[verifier::external_body]
pub(crate) fn install_credentials(
    stage: CertificateStage,
    chain: Vec<Vec<u8>>,
    key: Vec<u8>,
) -> (config: Option<ServerConfig>)
    ensures
        config is Some <==> key_usable(key@),
{
    let chain = chain.into_iter().map(Certificate).collect();
    stage.inner.with_single_cert(chain, PrivateKey(key)).ok()
}

/// `ServerSessionMemoryCache::new`, installed as the configuration's session
/// store: an in-memory resumption cache bounded by `capacity` sessions.
#[verifier::external_body]
pub(crate) fn install_session_cache(config: &mut ServerConfig, capacity: usize) {
    config.session_storage = ServerSessionMemoryCache::new(capacity);
}

/// `Ticketer::new`, installed as the configuration's ticket producer: keys
/// drawn at random for this configuration alone. Reports whether the engine
/// could draw them; nothing is promised about that.
#[verifier::external_body]
pub(crate) fn install_ticketer(config: &mut ServerConfig) -> (installed: bool) {
    match Ticketer::new() {
        Ok(ticketer) => {
            config.ticketer = ticketer;
            true
        },
        Err(_) => false,
    }
}

/// Sets `ServerConfig::ignore_client_order` and `ServerConfig::alpn_protocols`.
#[verifier::external_body]
pub(crate) fn install_negotiation(
    config: &mut ServerConfig,
    prefer_server_order: bool,
    protocols: Vec<Vec<u8>>,
) {
    config.ignore_client_order = prefer_server_order;
    config.alpn_protocols = protocols;
}

/// `TlsAcceptor::from` on the configuration, shared behind an `Arc`.
#[verifier::external_body]
pub(crate) fn acceptor_for(config: ServerConfig) -> TlsAcceptor {
    TlsAcceptor::from(Arc::new(config))
}

} // verus!
