//! Configuration of the QUIC endpoints.
//!
//! The client trusts exactly the certificates it is given; the server
//! presents one certificate with its PKCS#8 private key.  Both set a
//! transport with an idle timeout of five seconds; the client also sends
//! keep-alives every second and the server admits at most ten concurrent
//! unidirectional streams per connection.
//!
//! The TLS and QUIC objects come from `rustls` and `quinn`; the library
//! reaches them only through the trusted items of `quinn_config`, each of
//! which makes one call.
use vstd::prelude::*;

pub use crate::quinn_config::{
    root_store_anchors, server_identity_loads, trust_anchor_of, AnchorView, ClientEndpointConfig,
    IdleTimeoutSecs, ServerEndpointConfig, Transport,
};
use crate::quinn_config::{
    client_config_set_transport, client_config_with_roots, idle_timeout_from_secs,
    root_store_add, root_store_empty, server_config_set_transport, server_config_with_single_cert,
    transport_config_default, transport_keep_alive_interval, transport_max_concurrent_uni_streams,
    transport_max_idle_timeout,
};

verus! {

// ---------------------------------------------------------------------------
// Verified configuration
// ---------------------------------------------------------------------------

/// Why an endpoint could not be configured, with the error that rustls or
/// quinn reported.
#[derive(Debug)]
pub enum ConfigError {
    /// No trust anchor could be derived from the certificate at `index`.
    RootCertificateRejected { index: usize, source: rustls::Error },
    /// The client was given no certificate to trust.
    NoRootCertificates { source: rustls::client::VerifierBuilderError },
    /// The server's certificate and private key do not load together.
    ServerIdentityRejected { source: rustls::Error },
    /// The idle timeout is too long to be sent to the peer.
    IdleTimeoutOutOfRange { source: quinn::VarIntBoundsExceeded },
}

/// Keep-alive interval of the client, in seconds.
pub const CLIENT_KEEP_ALIVE_SECS: u64 = 1;

/// Idle timeout of both endpoints, in seconds.
pub const IDLE_TIMEOUT_SECS: u64 = 5;

/// Most unidirectional streams a peer may keep open at once on the server.
pub const SERVER_MAX_CONCURRENT_UNI_STREAMS: u8 = 10;

/// Transport parameters to set on top of quinn's defaults; `None` keeps the
/// default.
#[derive(PartialEq, Eq, Structural, Debug, Clone, Copy)]
pub struct TransportSettings {
    pub keep_alive_interval_secs: Option<u64>,
    pub max_idle_timeout_secs: Option<u64>,
    pub max_concurrent_uni_streams: Option<u8>,
}

/// The transport of the client: keep-alives every second, an idle timeout
/// of five seconds.
pub open spec fn client_transport() -> TransportSettings {
    TransportSettings {
        keep_alive_interval_secs: Some(CLIENT_KEEP_ALIVE_SECS),
        max_idle_timeout_secs: Some(IDLE_TIMEOUT_SECS),
        max_concurrent_uni_streams: None,
    }
}

/// The transport of the server: an idle timeout of five seconds, at most
/// ten concurrent unidirectional streams.
pub open spec fn server_transport() -> TransportSettings {
    TransportSettings {
        keep_alive_interval_secs: None,
        max_idle_timeout_secs: Some(IDLE_TIMEOUT_SECS),
        max_concurrent_uni_streams: Some(SERVER_MAX_CONCURRENT_UNI_STREAMS),
    }
}

/// The transport of the client.
pub fn client_transport_settings() -> (s: TransportSettings)
    ensures
        s == client_transport(),
{
    TransportSettings {
        keep_alive_interval_secs: Some(CLIENT_KEEP_ALIVE_SECS),
        max_idle_timeout_secs: Some(IDLE_TIMEOUT_SECS),
        max_concurrent_uni_streams: None,
    }
}

/// The transport of the server.
pub fn server_transport_settings() -> (s: TransportSettings)
    ensures
        s == server_transport(),
{
    TransportSettings {
        keep_alive_interval_secs: None,
        max_idle_timeout_secs: Some(IDLE_TIMEOUT_SECS),
        max_concurrent_uni_streams: Some(SERVER_MAX_CONCURRENT_UNI_STREAMS),
    }
}

/// Whether an idle timeout of `secs` seconds can be sent to a peer.
pub open spec fn idle_timeout_fits(secs: u64) -> bool {
    secs * 1000 < 0x4000_0000_0000_0000
}

/// Whether a set of transport settings can be applied.
pub open spec fn settings_apply(s: TransportSettings) -> bool {
    s.max_idle_timeout_secs matches Some(secs) ==> idle_timeout_fits(secs)
}

/// Build quinn's transport parameters from `settings`: the defaults, then
/// the keep-alive interval, the idle timeout and the stream limit that are
/// set.  Fails exactly when the idle timeout does not fit.
pub fn build_transport_config(settings: &TransportSettings) -> (r: Result<Transport, ConfigError>)
    ensures
        r is Ok <==> settings_apply(*settings),
        r matches Ok(t) ==> t.settings() == *settings,
        r is Err ==> r matches Err(ConfigError::IdleTimeoutOutOfRange { .. }),
{
    let mut transport = transport_config_default();
    if let Some(secs) = settings.keep_alive_interval_secs {
        transport_keep_alive_interval(&mut transport, secs);
    }
    if let Some(secs) = settings.max_idle_timeout_secs {
        match idle_timeout_from_secs(secs) {
            Ok(timeout) => transport_max_idle_timeout(&mut transport, timeout),
            Err(source) => return Err(ConfigError::IdleTimeoutOutOfRange { source }),
        }
    }
    if let Some(n) = settings.max_concurrent_uni_streams {
        transport_max_concurrent_uni_streams(&mut transport, n);
    }
    assert(transport.settings() == *settings);
    Ok(transport)
}

/// The certificates from which a trust anchor can be derived, each given by
/// its DER bytes.
pub open spec fn accepted_as_root(der: Seq<u8>) -> bool {
    trust_anchor_of(der) is Some
}

/// The trust anchors derived from certificates, in order.
pub open spec fn trust_anchors(certs: Seq<Vec<u8>>) -> Seq<AnchorView> {
    Seq::new(certs.len(), |j: int| trust_anchor_of(certs[j]@)->Some_0)
}

/// Configure the client to trust exactly `server_certs` (DER), with the
/// client transport.  The certificates are added in order and the first
/// that yields no trust anchor is reported; an empty list is refused.
pub fn configure_client(server_certs: &Vec<Vec<u8>>) -> (r: Result<ClientEndpointConfig, ConfigError>)
    ensures
        (forall|i: int| 0 <= i < server_certs@.len() ==> accepted_as_root(#[trigger] server_certs@[i]@))
            ==> (if server_certs@.len() > 0 {
            r matches Ok(c) && c.trusted_anchors() == trust_anchors(server_certs@)
                && c.transport() == Some(client_transport())
        } else {
            r matches Err(ConfigError::NoRootCertificates { .. })
        }),
        forall|i: int|
            0 <= i < server_certs@.len() && !accepted_as_root(#[trigger] server_certs@[i]@) && (
            forall|j: int| 0 <= j < i ==> accepted_as_root(#[trigger] server_certs@[j]@)) ==> (
            r matches Err(ConfigError::RootCertificateRejected { index, .. }) && index == i),
{
    let mut store = root_store_empty();
    let n = server_certs.len();
    let mut i: usize = 0;
    while i < n
        invariant
            i <= n,
            n == server_certs@.len(),
            root_store_anchors(store) == trust_anchors(server_certs@.take(i as int)),
            forall|j: int| 0 <= j < i ==> accepted_as_root(#[trigger] server_certs@[j]@),
        decreases n - i,
    {
        let ghost before = root_store_anchors(store);
        match root_store_add(&mut store, &server_certs[i]) {
            Ok(()) => {},
            Err(source) => {
                proof {
                    assert forall|k: int|
                        0 <= k < server_certs@.len() && !accepted_as_root(
                            #[trigger] server_certs@[k]@,
                        ) && (forall|j: int|
                            0 <= j < k ==> accepted_as_root(
                                #[trigger] server_certs@[j]@,
                            )) implies k == i by {
                        if k < i {
                        } else if k > i {
                            assert(accepted_as_root(server_certs@[i as int]@));
                        }
                    }
                }
                return Err(ConfigError::RootCertificateRejected { index: i, source });
            },
        }
        proof {
            assert(trust_anchors(server_certs@.take(i + 1)) =~= before.push(
                trust_anchor_of(server_certs@[i as int]@)->Some_0,
            ));
        }
        i = i + 1;
    }
    assert(server_certs@.take(n as int) =~= server_certs@);
    let mut config = match client_config_with_roots(store) {
        Ok(config) => config,
        Err(source) => return Err(ConfigError::NoRootCertificates { source }),
    };
    let transport = match build_transport_config(&client_transport_settings()) {
        Ok(transport) => transport,
        Err(e) => return Err(e),
    };
    client_config_set_transport(&mut config, transport);
    Ok(config)
}

/// Configure the server to present `cert` (DER) with its PKCS#8 private
/// key `priv_key`, with the server transport.  Fails exactly when that
/// identity does not load.
pub fn configure_server(priv_key: &Vec<u8>, cert: &Vec<u8>) -> (r: Result<
    ServerEndpointConfig,
    ConfigError,
>)
    ensures
        r is Ok <==> server_identity_loads(seq![cert@], priv_key@),
        r matches Ok(c) ==> c.cert_chain() == seq![cert@] && c.pkcs8_key() == priv_key@
            && c.transport() == Some(server_transport()),
        r is Err ==> r matches Err(ConfigError::ServerIdentityRejected { .. }),
{
    let mut config = match server_config_with_single_cert(cert, priv_key) {
        Ok(config) => config,
        Err(source) => return Err(ConfigError::ServerIdentityRejected { source }),
    };
    let transport = match build_transport_config(&server_transport_settings()) {
        Ok(transport) => transport,
        Err(e) => return Err(e),
    };
    server_config_set_transport(&mut config, transport);
    Ok(config)
}

} // verus!
