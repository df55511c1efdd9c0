use quic_transfer::endpoint_config::{
    build_transport_config, client_transport_settings, configure_client, configure_server,
    server_transport_settings, ConfigError, TransportSettings,
};

const CERT_DER: [u8; 424] = [
    0x30, 0x82, 0x01, 0xa4, 0x30, 0x82, 0x01, 0x4a, 0xa0, 0x03, 0x02, 0x01, 0x02, 0x02, 0x14, 0x3b,
    0xe6, 0xea, 0x1a, 0x6e, 0xf9, 0x6e, 0xb5, 0x06, 0x70, 0x42, 0x82, 0x44, 0xa5, 0x03, 0xff, 0x67,
    0xb1, 0xb1, 0xba, 0x30, 0x0a, 0x06, 0x08, 0x2a, 0x86, 0x48, 0xce, 0x3d, 0x04, 0x03, 0x02, 0x30,
    0x19, 0x31, 0x17, 0x30, 0x15, 0x06, 0x03, 0x55, 0x04, 0x03, 0x0c, 0x0e, 0x71, 0x75, 0x69, 0x63,
    0x2e, 0x6c, 0x6f, 0x63, 0x61, 0x6c, 0x68, 0x6f, 0x73, 0x74, 0x30, 0x20, 0x17, 0x0d, 0x32, 0x36,
    0x31, 0x31, 0x31, 0x37, 0x30, 0x32, 0x32, 0x35, 0x30, 0x31, 0x5a, 0x18, 0x0f, 0x32, 0x31, 0x32,
    0x36, 0x31, 0x30, 0x32, 0x34, 0x30, 0x32, 0x32, 0x35, 0x30, 0x31, 0x5a, 0x30, 0x19, 0x31, 0x17,
    0x30, 0x15, 0x06, 0x03, 0x55, 0x04, 0x03, 0x0c, 0x0e, 0x71, 0x75, 0x69, 0x63, 0x2e, 0x6c, 0x6f,
    0x63, 0x61, 0x6c, 0x68, 0x6f, 0x73, 0x74, 0x30, 0x59, 0x30, 0x13, 0x06, 0x07, 0x2a, 0x86, 0x48,
    0xce, 0x3d, 0x02, 0x01, 0x06, 0x08, 0x2a, 0x86, 0x48, 0xce, 0x3d, 0x03, 0x01, 0x07, 0x03, 0x42,
    0x00, 0x04, 0xdd, 0x45, 0x61, 0x1d, 0x50, 0xa6, 0xdb, 0xbe, 0x14, 0x8d, 0xb0, 0x62, 0x31, 0xef,
    0x5f, 0x99, 0xf4, 0x1e, 0xd8, 0x50, 0x4f, 0x35, 0xd8, 0xcb, 0x1e, 0x78, 0x17, 0x49, 0xe4, 0xd1,
    0x76, 0x20, 0x46, 0x84, 0x57, 0xe7, 0x32, 0x43, 0x92, 0x52, 0x98, 0x04, 0x14, 0x7c, 0xd6, 0xda,
    0x17, 0x71, 0xdf, 0x90, 0x84, 0xd1, 0x44, 0xad, 0x38, 0xd8, 0xf8, 0x55, 0xda, 0xdc, 0x5b, 0x11,
    0xf0, 0xac, 0xa3, 0x6e, 0x30, 0x6c, 0x30, 0x1d, 0x06, 0x03, 0x55, 0x1d, 0x0e, 0x04, 0x16, 0x04,
    0x14, 0x79, 0x05, 0x18, 0x7b, 0x17, 0x8b, 0xef, 0xc0, 0x10, 0x59, 0xde, 0x16, 0xf3, 0x0b, 0xb5,
    0x77, 0xdf, 0xa8, 0xc3, 0xf2, 0x30, 0x1f, 0x06, 0x03, 0x55, 0x1d, 0x23, 0x04, 0x18, 0x30, 0x16,
    0x80, 0x14, 0x79, 0x05, 0x18, 0x7b, 0x17, 0x8b, 0xef, 0xc0, 0x10, 0x59, 0xde, 0x16, 0xf3, 0x0b,
    0xb5, 0x77, 0xdf, 0xa8, 0xc3, 0xf2, 0x30, 0x0f, 0x06, 0x03, 0x55, 0x1d, 0x13, 0x01, 0x01, 0xff,
    0x04, 0x05, 0x30, 0x03, 0x01, 0x01, 0xff, 0x30, 0x19, 0x06, 0x03, 0x55, 0x1d, 0x11, 0x04, 0x12,
    0x30, 0x10, 0x82, 0x0e, 0x71, 0x75, 0x69, 0x63, 0x2e, 0x6c, 0x6f, 0x63, 0x61, 0x6c, 0x68, 0x6f,
    0x73, 0x74, 0x30, 0x0a, 0x06, 0x08, 0x2a, 0x86, 0x48, 0xce, 0x3d, 0x04, 0x03, 0x02, 0x03, 0x48,
    0x00, 0x30, 0x45, 0x02, 0x20, 0x7b, 0x0f, 0xb2, 0x73, 0x53, 0x19, 0x04, 0x9e, 0x0c, 0x19, 0xa6,
    0x86, 0x50, 0xce, 0x53, 0x93, 0xdd, 0xd6, 0x77, 0x0e, 0xf4, 0xa5, 0xfb, 0x8b, 0xbe, 0x84, 0x50,
    0xf1, 0x64, 0x13, 0xc1, 0x14, 0x02, 0x21, 0x00, 0xa7, 0x0b, 0xfc, 0x51, 0x60, 0xee, 0xac, 0x97,
    0x61, 0xd4, 0x2b, 0x97, 0x5a, 0x46, 0xd9, 0x74, 0x19, 0x9c, 0x44, 0x9e, 0x7a, 0xa4, 0x09, 0xe3,
    0xcc, 0x12, 0x98, 0x20, 0x8d, 0xda, 0x82, 0x8a,
];

const KEY_PKCS8: [u8; 138] = [
    0x30, 0x81, 0x87, 0x02, 0x01, 0x00, 0x30, 0x13, 0x06, 0x07, 0x2a, 0x86, 0x48, 0xce, 0x3d, 0x02,
    0x01, 0x06, 0x08, 0x2a, 0x86, 0x48, 0xce, 0x3d, 0x03, 0x01, 0x07, 0x04, 0x6d, 0x30, 0x6b, 0x02,
    0x01, 0x01, 0x04, 0x20, 0x91, 0xfd, 0x9f, 0x8a, 0x0d, 0x1f, 0xb5, 0xd1, 0xa3, 0x5d, 0x07, 0x96,
    0x61, 0xeb, 0x81, 0xa8, 0xe4, 0xa2, 0xe1, 0x25, 0x31, 0x9f, 0xfd, 0x67, 0x77, 0x1d, 0x9f, 0x86,
    0x6d, 0xc8, 0xdb, 0x98, 0xa1, 0x44, 0x03, 0x42, 0x00, 0x04, 0xdd, 0x45, 0x61, 0x1d, 0x50, 0xa6,
    0xdb, 0xbe, 0x14, 0x8d, 0xb0, 0x62, 0x31, 0xef, 0x5f, 0x99, 0xf4, 0x1e, 0xd8, 0x50, 0x4f, 0x35,
    0xd8, 0xcb, 0x1e, 0x78, 0x17, 0x49, 0xe4, 0xd1, 0x76, 0x20, 0x46, 0x84, 0x57, 0xe7, 0x32, 0x43,
    0x92, 0x52, 0x98, 0x04, 0x14, 0x7c, 0xd6, 0xda, 0x17, 0x71, 0xdf, 0x90, 0x84, 0xd1, 0x44, 0xad,
    0x38, 0xd8, 0xf8, 0x55, 0xda, 0xdc, 0x5b, 0x11, 0xf0, 0xac,
];

const OTHER_KEY_PKCS8: [u8; 138] = [
    0x30, 0x81, 0x87, 0x02, 0x01, 0x00, 0x30, 0x13, 0x06, 0x07, 0x2a, 0x86, 0x48, 0xce, 0x3d, 0x02,
    0x01, 0x06, 0x08, 0x2a, 0x86, 0x48, 0xce, 0x3d, 0x03, 0x01, 0x07, 0x04, 0x6d, 0x30, 0x6b, 0x02,
    0x01, 0x01, 0x04, 0x20, 0x10, 0x0f, 0x3f, 0xf2, 0xe2, 0x88, 0x96, 0x65, 0xcd, 0x40, 0x76, 0x80,
    0x46, 0xd2, 0xe8, 0xa1, 0x7a, 0xa0, 0x5a, 0xba, 0x6a, 0x6a, 0x9d, 0xcb, 0xf5, 0xb7, 0x97, 0x83,
    0x0e, 0x27, 0x3b, 0x5d, 0xa1, 0x44, 0x03, 0x42, 0x00, 0x04, 0x9d, 0x83, 0xfd, 0x60, 0xd0, 0xbd,
    0x54, 0x54, 0x41, 0x6d, 0x3c, 0x48, 0xbd, 0x9e, 0x88, 0xee, 0x9d, 0xef, 0x6f, 0x40, 0x54, 0x1d,
    0xcf, 0xd9, 0x82, 0x2e, 0x15, 0xcd, 0x52, 0x3b, 0xb4, 0x4e, 0xf0, 0x43, 0xc2, 0x0e, 0xaf, 0xf7,
    0x71, 0x1b, 0x8e, 0x10, 0xc7, 0x4c, 0x46, 0x7c, 0xd3, 0xb2, 0x31, 0xcb, 0x5d, 0x61, 0xa8, 0x89,
    0x7a, 0x3c, 0x01, 0xb2, 0xb7, 0x01, 0x30, 0x46, 0xd2, 0xe8,
];

#[test]
fn client_trusts_a_valid_certificate() {
    assert!(configure_client(&vec![CERT_DER.to_vec()]).is_ok());
}

#[test]
fn client_needs_at_least_one_certificate() {
    assert!(matches!(
        configure_client(&vec![]).err(),
        Some(ConfigError::NoRootCertificates {
            source: rustls::client::VerifierBuilderError::NoRootAnchors
        })
    ));
}

fn rustls_add_error(der: &[u8]) -> rustls::Error {
    rustls::RootCertStore::empty()
        .add(rustls::pki_types::CertificateDer::from(der))
        .unwrap_err()
}

#[test]
fn client_reports_the_first_unusable_certificate() {
    match configure_client(&vec![b"not a certificate".to_vec()]).err() {
        Some(ConfigError::RootCertificateRejected { index, source }) => {
            assert_eq!(index, 0);
            assert_eq!(source, rustls_add_error(b"not a certificate"));
        }
        other => panic!("unexpected {other:?}"),
    }
    match configure_client(&vec![CERT_DER.to_vec(), vec![], vec![1, 2, 3]]).err() {
        Some(ConfigError::RootCertificateRejected { index, source }) => {
            assert_eq!(index, 1);
            assert_eq!(source, rustls_add_error(&[]));
        }
        other => panic!("unexpected {other:?}"),
    }
}

#[test]
fn server_loads_a_matching_identity() {
    assert!(configure_server(&KEY_PKCS8.to_vec(), &CERT_DER.to_vec()).is_ok());
}

fn quinn_identity_error(key: &[u8]) -> rustls::Error {
    quinn::ServerConfig::with_single_cert(
        vec![rustls::pki_types::CertificateDer::from(CERT_DER.to_vec())],
        rustls::pki_types::PrivatePkcs8KeyDer::from(key.to_vec()).into(),
    )
    .err()
    .expect("the identity should be refused")
}

#[test]
fn server_refuses_a_key_of_another_certificate() {
    for key in [&OTHER_KEY_PKCS8[..], &b"garbage"[..]] {
        match configure_server(&key.to_vec(), &CERT_DER.to_vec()).err() {
            Some(ConfigError::ServerIdentityRejected { source }) => {
                assert_eq!(source, quinn_identity_error(key));
            }
            other => panic!("unexpected {other:?}"),
        }
    }
}

#[test]
fn endpoint_transports() {
    assert_eq!(
        client_transport_settings(),
        TransportSettings {
            keep_alive_interval_secs: Some(1),
            max_idle_timeout_secs: Some(5),
            max_concurrent_uni_streams: None,
        }
    );
    assert_eq!(
        server_transport_settings(),
        TransportSettings {
            keep_alive_interval_secs: None,
            max_idle_timeout_secs: Some(5),
            max_concurrent_uni_streams: Some(10),
        }
    );
    assert!(build_transport_config(&client_transport_settings()).is_ok());
    assert!(build_transport_config(&server_transport_settings()).is_ok());
}

#[test]
fn idle_timeout_must_fit_in_a_quic_varint_of_milliseconds() {
    let fits = TransportSettings {
        keep_alive_interval_secs: None,
        max_idle_timeout_secs: Some(4_611_686_018_427_387),
        max_concurrent_uni_streams: None,
    };
    assert!(build_transport_config(&fits).is_ok());
    let too_long = TransportSettings { max_idle_timeout_secs: Some(4_611_686_018_427_388), ..fits };
    assert!(matches!(
        build_transport_config(&too_long).err(),
        Some(ConfigError::IdleTimeoutOutOfRange { .. })
    ));
    let none = TransportSettings { max_idle_timeout_secs: None, ..fits };
    assert!(build_transport_config(&none).is_ok());
}
