//! The rustls and quinn objects behind the endpoint configuration, and the
//! trusted items that reach them.
//!
//! Each quinn object is held in a private field of a library type next to
//! a ghost model of what it holds.  The fields are private to this module,
//! so only the trusted items here, each of which makes one outside call,
//! build or change a model: a model always describes its quinn object.
use vstd::prelude::*;

use crate::endpoint_config::TransportSettings;

verus! {

// ---------------------------------------------------------------------------
// Outside types
// ---------------------------------------------------------------------------

#[verifier::external_type_specification]
#[verifier::external_body]
pub struct ExRootCertStore(rustls::RootCertStore);

#[verifier::external_type_specification]
#[verifier::external_body]
pub struct ExRustlsError(rustls::Error);

#[verifier::external_type_specification]
#[verifier::external_body]
pub struct ExVerifierBuilderError(rustls::client::VerifierBuilderError);

#[verifier::external_type_specification]
#[verifier::external_body]
pub struct ExClientConfig(quinn::ClientConfig);

#[verifier::external_type_specification]
#[verifier::external_body]
pub struct ExServerConfig(quinn::ServerConfig);

#[verifier::external_type_specification]
#[verifier::external_body]
pub struct ExTransportConfig(quinn::TransportConfig);

#[verifier::external_type_specification]
#[verifier::external_body]
pub struct ExIdleTimeout(quinn::IdleTimeout);

#[verifier::external_type_specification]
#[verifier::external_body]
pub struct ExVarIntBoundsExceeded(quinn::VarIntBoundsExceeded);

// ---------------------------------------------------------------------------
// Names for what the outside code computes
// ---------------------------------------------------------------------------

/// A trust anchor, as the DER bytes of its subject name, of its subject
/// public key info, and of its name constraints if it has any.
pub type AnchorView = (Seq<u8>, Seq<u8>, Option<Seq<u8>>);

/// The trust anchors held by a root certificate store, in the order they
/// were added.
pub uninterp spec fn root_store_anchors(store: rustls::RootCertStore) -> Seq<(Seq<u8>, Seq<u8>, Option<Seq<u8>>)>;

/// The trust anchor that rustls derives from a DER certificate (its
/// subject, subject public key info and name constraints), or `None` when
/// it cannot derive one (the certificate does not parse).
pub uninterp spec fn trust_anchor_of(der: Seq<u8>) -> Option<(Seq<u8>, Seq<u8>, Option<Seq<u8>>)>;

/// Whether a QUIC server configuration can be built from this certificate
/// chain (DER) and this PKCS#8 private key: the key loads, and either it
/// matches the end-entity certificate or rustls cannot tell whether it does.
pub uninterp spec fn server_identity_loads(cert_chain: Seq<Seq<u8>>, pkcs8_key: Seq<u8>) -> bool;

// ---------------------------------------------------------------------------
// The library's handles on the quinn configurations
// ---------------------------------------------------------------------------

/// Transport parameters of quinn, with the settings applied to them on top
/// of quinn's defaults.
pub struct Transport {
    config: quinn::TransportConfig,
    settings: Ghost<TransportSettings>,
}

impl Transport {
    /// The settings applied on top of quinn's defaults; a `None` field is
    /// left at its default.
    pub closed spec fn settings(&self) -> TransportSettings {
        self.settings@
    }
}

/// An idle timeout accepted by quinn, with the seconds it was made from.
pub struct IdleTimeoutSecs {
    timeout: quinn::IdleTimeout,
    secs: Ghost<u64>,
}

impl IdleTimeoutSecs {
    /// The length of the timeout, in seconds.
    pub closed spec fn secs(&self) -> u64 {
        self.secs@
    }
}

/// A quinn client configuration, with the trust anchors it verifies servers
/// against and the transport it was given.
pub struct ClientEndpointConfig {
    config: quinn::ClientConfig,
    trusted: Ghost<Seq<AnchorView>>,
    transport: Ghost<Option<TransportSettings>>,
}

impl ClientEndpointConfig {
    /// The trust anchors that servers are verified against, in order.
    pub closed spec fn trusted_anchors(&self) -> Seq<AnchorView> {
        self.trusted@
    }

    /// The settings of the transport that was set, or `None` while quinn's
    /// default transport is in place.
    pub closed spec fn transport(&self) -> Option<TransportSettings> {
        self.transport@
    }

    /// The quinn configuration, to install on an endpoint.
    pub fn into_quinn(self) -> quinn::ClientConfig {
        self.config
    }
}

/// A quinn server configuration, with the identity it presents and the
/// transport it was given.
pub struct ServerEndpointConfig {
    config: quinn::ServerConfig,
    cert_chain: Ghost<Seq<Seq<u8>>>,
    pkcs8_key: Ghost<Seq<u8>>,
    transport: Ghost<Option<TransportSettings>>,
}

impl ServerEndpointConfig {
    /// The certificate chain presented, each certificate in DER.
    pub closed spec fn cert_chain(&self) -> Seq<Seq<u8>> {
        self.cert_chain@
    }

    /// The PKCS#8 private key that signs for the chain.
    pub closed spec fn pkcs8_key(&self) -> Seq<u8> {
        self.pkcs8_key@
    }

    /// The settings of the transport that was set, or `None` while quinn's
    /// default transport is in place.
    pub closed spec fn transport(&self) -> Option<TransportSettings> {
        self.transport@
    }

    /// The quinn configuration, to build an endpoint with.
    pub fn into_quinn(self) -> quinn::ServerConfig {
        self.config
    }
}

// ---------------------------------------------------------------------------
// Trusted items
// ---------------------------------------------------------------------------

/// `rustls::RootCertStore::empty`: a store that holds no trust anchor.
#[verifier::external_body]
pub(crate) fn root_store_empty() -> (store: rustls::RootCertStore)
    ensures
        root_store_anchors(store) == Seq::<AnchorView>::empty(),
{
    rustls::RootCertStore::empty()
}

/// `rustls::RootCertStore::add`: derives a trust anchor from the DER
/// certificate and appends it to the store; when no anchor can be derived
/// it returns an error and leaves the store as it was.
#[verifier::external_body]
pub(crate) fn root_store_add(store: &mut rustls::RootCertStore, der: &Vec<u8>) -> (r: Result<(), rustls::Error>)
    ensures
        match trust_anchor_of(der@) {
            Some(anchor) => r is Ok && root_store_anchors(*final(store)) == root_store_anchors(
                *old(store),
            ).push(anchor),
            None => r is Err && root_store_anchors(*final(store)) == root_store_anchors(
                *old(store),
            ),
        },
{
    store.add(rustls::pki_types::CertificateDer::from(der.as_slice()))
}

/// `quinn::ClientConfig::with_root_certificates`: builds a client
/// configuration that verifies servers against the given trust anchors,
/// with quinn's default transport; it fails exactly when the store is empty.
#[verifier::external_body]
pub(crate) fn client_config_with_roots(roots: rustls::RootCertStore) -> (r: Result<
    ClientEndpointConfig,
    rustls::client::VerifierBuilderError,
>)
    ensures
        r is Ok <==> root_store_anchors(roots).len() > 0,
        r matches Ok(c) ==> c.trusted_anchors() == root_store_anchors(roots) && c.transport()
            is None,
{
    let ghost anchors = root_store_anchors(roots);
    match quinn::ClientConfig::with_root_certificates(std::sync::Arc::new(roots)) {
        Ok(config) => Ok(ClientEndpointConfig { config, trusted: Ghost(anchors), transport: Ghost(None) }),
        Err(e) => Err(e),
    }
}

/// `quinn::ClientConfig::transport_config`: replaces the transport of a
/// client configuration; the trust anchors stay.
#[verifier::external_body]
pub(crate) fn client_config_set_transport(config: &mut ClientEndpointConfig, transport: Transport)
    ensures
        final(config).trusted_anchors() == old(config).trusted_anchors(),
        final(config).transport() == Some(transport.settings()),
{
    config.config.transport_config(std::sync::Arc::new(transport.config));
}

/// `quinn::ServerConfig::with_single_cert`: builds a server configuration
/// that presents the certificate chain `[cert]` with the PKCS#8 key, with
/// quinn's default transport; it succeeds exactly when that identity loads.
#[verifier::external_body]
pub(crate) fn server_config_with_single_cert(cert: &Vec<u8>, pkcs8_key: &Vec<u8>) -> (r: Result<
    ServerEndpointConfig,
    rustls::Error,
>)
    ensures
        r is Ok <==> server_identity_loads(seq![cert@], pkcs8_key@),
        r matches Ok(c) ==> c.cert_chain() == seq![cert@] && c.pkcs8_key() == pkcs8_key@
            && c.transport() is None,
{
    match quinn::ServerConfig::with_single_cert(
        vec![rustls::pki_types::CertificateDer::from(cert.clone())],
        rustls::pki_types::PrivatePkcs8KeyDer::from(pkcs8_key.clone()).into(),
    ) {
        Ok(config) => Ok(ServerEndpointConfig {
            config,
            cert_chain: Ghost(seq![cert@]),
            pkcs8_key: Ghost(pkcs8_key@),
            transport: Ghost(None),
        }),
        Err(e) => Err(e),
    }
}

/// `quinn::ServerConfig::transport_config`: replaces the transport of a
/// server configuration; the identity stays.
#[verifier::external_body]
pub(crate) fn server_config_set_transport(config: &mut ServerEndpointConfig, transport: Transport)
    ensures
        final(config).cert_chain() == old(config).cert_chain(),
        final(config).pkcs8_key() == old(config).pkcs8_key(),
        final(config).transport() == Some(transport.settings()),
{
    config.config.transport_config(std::sync::Arc::new(transport.config));
}

/// `quinn::TransportConfig::default`: the default transport parameters,
/// with no setting applied.
#[verifier::external_body]
pub(crate) fn transport_config_default() -> (t: Transport)
    ensures
        t.settings() == (TransportSettings {
            keep_alive_interval_secs: None,
            max_idle_timeout_secs: None,
            max_concurrent_uni_streams: None,
        }),
{
    Transport {
        config: quinn::TransportConfig::default(),
        settings: Ghost(TransportSettings {
            keep_alive_interval_secs: None,
            max_idle_timeout_secs: None,
            max_concurrent_uni_streams: None,
        }),
    }
}

/// `quinn::TransportConfig::keep_alive_interval`: send keep-alives every
/// `secs` seconds; the other parameters stay.
#[verifier::external_body]
pub(crate) fn transport_keep_alive_interval(t: &mut Transport, secs: u64)
    ensures
        final(t).settings() == (TransportSettings {
            keep_alive_interval_secs: Some(secs),
            ..old(t).settings()
        }),
{
    t.config.keep_alive_interval(Some(std::time::Duration::from_secs(secs)));
}

/// `quinn::IdleTimeout::try_from(Duration)`: the timeout is kept as a
/// number of milliseconds below 2^62, so the conversion of `secs` seconds
/// succeeds exactly when `secs * 1000 < 2^62`.
#[verifier::external_body]
pub(crate) fn idle_timeout_from_secs(secs: u64) -> (r: Result<IdleTimeoutSecs, quinn::VarIntBoundsExceeded>)
    ensures
        r is Ok <==> secs * 1000 < 0x4000_0000_0000_0000,
        r matches Ok(timeout) ==> timeout.secs() == secs,
{
    match quinn::IdleTimeout::try_from(std::time::Duration::from_secs(secs)) {
        Ok(timeout) => Ok(IdleTimeoutSecs { timeout, secs: Ghost(secs) }),
        Err(e) => Err(e),
    }
}

/// `quinn::TransportConfig::max_idle_timeout`: close a connection after
/// this much inactivity; the other parameters stay.
#[verifier::external_body]
pub(crate) fn transport_max_idle_timeout(t: &mut Transport, timeout: IdleTimeoutSecs)
    ensures
        final(t).settings() == (TransportSettings {
            max_idle_timeout_secs: Some(timeout.secs()),
            ..old(t).settings()
        }),
{
    t.config.max_idle_timeout(Some(timeout.timeout));
}

/// `quinn::TransportConfig::max_concurrent_uni_streams`: admit at most `n`
/// concurrent unidirectional streams from the peer; the other parameters
/// stay.
#[verifier::external_body]
pub(crate) fn transport_max_concurrent_uni_streams(t: &mut Transport, n: u8)
    ensures
        final(t).settings() == (TransportSettings {
            max_concurrent_uni_streams: Some(n),
            ..old(t).settings()
        }),
{
    t.config.max_concurrent_uni_streams(quinn::VarInt::from(n));
}


} // verus!
