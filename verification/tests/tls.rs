//! TLS identities and trust bundles.

use std::time::{SystemTime, UNIX_EPOCH};

use stargate::tls::calendar::days_from_civil;
use stargate::tls::der::{parse_certificate_validity, parse_decimal, read_der_time, DerReader};
use stargate::tls::error::TlsError;
use stargate::tls::identity::{
    effective_validity, generate_self_signed_cert, generate_self_signed_cert_for_names,
    server_identity_effective_validity, server_identity_validity, validate_chain_at,
    validate_server_identity_at, validate_server_identity_time, ServerTlsIdentity,
    MAX_TLS_MATERIAL_BYTES,
};
use stargate::tls::quic::{
    build_quic_server_config, build_quic_server_config_from_pem,
    build_trusted_quic_client_config_with_alpn, client_trust, ClientTrust,
};
use stargate::tls::reload::{
    check_identity_paths, read_server_identity, read_trust_bundle, ClientTrustReloader, FileRead,
    IdentityPaths, MaterialRead, ServerIdentityReloader,
};
use stargate::tls::rotation::{
    check_reload_interval, identity_expiry, identity_is_ready, shown_expiry, ClientTrustRotation,
    IdentityRotation, ServerIdentityRotation, TrustRotation, NO_EXPIRY,
};

fn now() -> Option<u64> {
    Some(SystemTime::now().duration_since(UNIX_EPOCH).unwrap().as_secs())
}

fn found() -> IdentityPaths {
    IdentityPaths {
        cert_resolves: true,
        key_resolves: true,
        same_directory: true,
        same_resolved_directory: true,
    }
}

fn contents(bytes: &[u8]) -> FileRead {
    FileRead::Contents(bytes.to_vec())
}

fn read_identity(cert_pem: &[u8], key_pem: &[u8]) -> Result<ServerTlsIdentity, TlsError> {
    read_server_identity(found(), contents(cert_pem), contents(key_pem), now())
}

fn fingerprint(parts: &[&[u8]]) -> u64 {
    let mut hash: u64 = 14695981039346656037;
    for part in parts {
        for byte in part.iter() {
            hash = (hash ^ u64::from(*byte)).wrapping_mul(1099511628211);
        }
    }
    hash
}

fn identity_attempt(cert_pem: &[u8], key_pem: &[u8]) -> MaterialRead<ServerTlsIdentity> {
    match read_identity(cert_pem, key_pem) {
        Ok(identity) => MaterialRead::Valid(identity),
        Err(error) => MaterialRead::Rejected {
            error,
            fingerprint: fingerprint(&[cert_pem, key_pem]),
        },
    }
}

fn trust_attempt(trust_pem: &[u8]) -> MaterialRead<Vec<u8>> {
    match read_trust_bundle(true, contents(trust_pem)) {
        Ok(bundle) => MaterialRead::Valid(bundle),
        Err(error) => {
            MaterialRead::Rejected { error, fingerprint: fingerprint(&[trust_pem]) }
        }
    }
}

fn provided(cert_pem: &[u8], key_pem: &[u8]) -> ServerTlsIdentity {
    ServerTlsIdentity::Provided { cert_pem: cert_pem.to_vec(), key_pem: key_pem.to_vec() }
}

fn cert_with_validity(not_before: (i32, u8, u8), not_after: (i32, u8, u8)) -> (Vec<u8>, Vec<u8>) {
    let mut params = rcgen::CertificateParams::new(vec!["localhost".to_string()]).unwrap();
    params.not_before = rcgen::date_time_ymd(not_before.0, not_before.1, not_before.2);
    params.not_after = rcgen::date_time_ymd(not_after.0, not_after.1, not_after.2);
    let key = rcgen::KeyPair::generate().unwrap();
    let cert = params.self_signed(&key).unwrap();
    (cert.pem().into_bytes(), key.serialize_pem().into_bytes())
}

#[test]
fn server_identity_reloader_follows_atomic_projected_volume_update() {
    let (first_cert, first_key) =
        generate_self_signed_cert_for_names(vec!["first.example.test".to_string()]).unwrap();
    let (second_cert, second_key) =
        generate_self_signed_cert_for_names(vec!["second.example.test".to_string()]).unwrap();

    let mut reloader = ServerIdentityReloader::load(read_identity(&first_cert, &first_key))
        .expect("load initial identity");
    assert_eq!(reloader.current_identity(), &provided(&first_cert, &first_key));

    let replacement = reloader
        .reload_if_changed(identity_attempt(&second_cert, &second_key))
        .expect("reload projected identity")
        .expect("replacement should be detected");
    assert_eq!(replacement, provided(&second_cert, &second_key));
    assert_eq!(reloader.current_identity(), &provided(&second_cert, &second_key));
}

#[test]
fn self_signed_cert_produces_nonempty_pem() {
    let (cert_pem, key_pem) = generate_self_signed_cert().unwrap();
    assert!(!cert_pem.is_empty());
    assert!(!key_pem.is_empty());
}

#[test]
fn self_signed_cert_for_names_produces_nonempty_pem() {
    let (cert_pem, key_pem) =
        generate_self_signed_cert_for_names(vec!["sg-b.stargate.external".to_string()]).unwrap();
    assert!(!cert_pem.is_empty());
    assert!(!key_pem.is_empty());
}

#[test]
fn names_outside_ascii_get_no_self_signed_certificate() {
    assert_eq!(
        generate_self_signed_cert_for_names(vec!["ok.test".to_string(), "st\u{e4}r".to_string()]),
        Err(TlsError::SelfSignedFailed)
    );
}

#[test]
fn self_signed_pairs_are_read_back_as_one_certificate_and_its_key() {
    let (cert_pem, key_pem) = generate_self_signed_cert().unwrap();
    let certificates: Vec<_> =
        rustls_pemfile::certs(&mut cert_pem.as_slice()).collect::<Result<_, _>>().unwrap();
    assert_eq!(certificates.len(), 1);
    let key = rustls_pemfile::private_key(&mut key_pem.as_slice()).unwrap().unwrap();
    assert!(matches!(key, rustls::pki_types::PrivateKeyDer::Pkcs8(_)));
    assert!(build_quic_server_config_from_pem(&cert_pem, &key_pem, vec![b"h3".to_vec()]).is_ok());
    let holds = |part: &[u8]| certificates[0].windows(part.len()).any(|window| window == part);
    assert!(holds(b"\x82\x09localhost\x82\x08stargate"));
}

#[test]
fn server_identity_reloader_rejects_expired_and_not_yet_valid_certificates() {
    let (expired_cert, expired_key) = cert_with_validity((2020, 1, 1), (2021, 1, 1));
    assert!(ServerIdentityReloader::load(read_identity(&expired_cert, &expired_key)).is_err());
    assert_eq!(
        read_identity(&expired_cert, &expired_key),
        Err(TlsError::Expired { index: 0 })
    );

    let (future_cert, future_key) = cert_with_validity((2035, 1, 1), (2036, 1, 1));
    assert!(ServerIdentityReloader::load(read_identity(&future_cert, &future_key)).is_err());
    assert_eq!(
        read_identity(&future_cert, &future_key),
        Err(TlsError::NotYetValid { index: 0 })
    );
}

#[test]
fn server_identity_reloader_rejects_expired_intermediate_certificate() {
    let mut issuer_params = rcgen::CertificateParams::default();
    issuer_params.is_ca = rcgen::IsCa::Ca(rcgen::BasicConstraints::Unconstrained);
    issuer_params.not_before = rcgen::date_time_ymd(2020, 1, 1);
    issuer_params.not_after = rcgen::date_time_ymd(2021, 1, 1);
    let issuer_key = rcgen::KeyPair::generate().unwrap();
    let issuer = issuer_params.self_signed(&issuer_key).unwrap();

    let leaf_params = rcgen::CertificateParams::new(vec!["localhost".to_string()]).unwrap();
    let leaf_key = rcgen::KeyPair::generate().unwrap();
    let leaf = leaf_params.signed_by(&leaf_key, &issuer, &issuer_key).unwrap();
    let chain_pem = format!("{}{}", leaf.pem(), issuer.pem()).into_bytes();
    let key_pem = leaf_key.serialize_pem().into_bytes();
    let identity = provided(&chain_pem, &key_pem);
    let leaf_validity = server_identity_validity(&identity).unwrap().unwrap();
    let effective_validity = server_identity_effective_validity(&identity).unwrap().unwrap();
    assert!(effective_validity.not_after_unix_seconds < leaf_validity.not_after_unix_seconds);

    assert!(ServerIdentityReloader::load(read_identity(&chain_pem, &key_pem)).is_err());
    assert_eq!(read_identity(&chain_pem, &key_pem), Err(TlsError::Expired { index: 1 }));
}

#[test]
fn reloaders_reject_oversized_material_before_activation() {
    let oversized = vec![b'x'; MAX_TLS_MATERIAL_BYTES as usize + 1];
    let trust = read_trust_bundle(true, contents(&oversized));
    assert_eq!(trust, Err(TlsError::Oversized));
    assert!(ClientTrustReloader::load(trust).is_err());

    let identity = read_identity(&oversized, b"key");
    assert_eq!(identity, Err(TlsError::Oversized));
    assert!(ServerIdentityReloader::load(identity).is_err());
}

#[test]
fn repeated_rejected_generation_is_debounced_until_contents_change() {
    let (initial_cert, _) = generate_self_signed_cert().unwrap();
    let mut reloader =
        ClientTrustReloader::load(read_trust_bundle(true, contents(&initial_cert))).unwrap();

    let invalid = b"invalid trust generation";
    assert!(reloader.load_candidate(trust_attempt(invalid)).is_err());
    assert!(reloader.load_candidate(trust_attempt(invalid)).unwrap().is_none());

    let (replacement_cert, _) = generate_self_signed_cert().unwrap();
    let candidate = reloader
        .load_candidate(trust_attempt(&replacement_cert))
        .unwrap()
        .expect("changed valid generation should be retried");
    reloader.commit(candidate);
    assert_eq!(reloader.current_pem(), replacement_cert);
}

#[test]
fn trusted_client_config_with_alpn_accepts_pem_root() {
    let (cert_pem, _) = generate_self_signed_cert().unwrap();
    let _config =
        build_trusted_quic_client_config_with_alpn(&cert_pem, vec![b"h3".to_vec()]).unwrap();
}

#[test]
fn trusted_client_config_rejects_empty_trust_bundle() {
    assert!(build_trusted_quic_client_config_with_alpn(b"", Vec::new()).is_err());
}

#[test]
fn server_tls_identity_requires_complete_pem_pair() {
    let cert_pem = b"cert".to_vec();
    let key_pem = b"key".to_vec();

    assert!(matches!(
        ServerTlsIdentity::from_optional_pem(None, None).unwrap(),
        ServerTlsIdentity::SelfSigned
    ));
    assert_eq!(
        ServerTlsIdentity::from_optional_pem(Some(cert_pem.clone()), Some(key_pem.clone()))
            .unwrap(),
        ServerTlsIdentity::Provided { cert_pem: cert_pem.clone(), key_pem: key_pem.clone() }
    );
    assert!(ServerTlsIdentity::from_optional_pem(Some(cert_pem), None).is_err());
    assert!(ServerTlsIdentity::from_optional_pem(None, Some(key_pem)).is_err());
}

#[test]
fn upstream_client_config_requires_trust_when_verification_is_enabled() {
    assert!(matches!(client_trust(None, false), Err(TlsError::MissingTrust)));
    assert!(matches!(client_trust(None, true), Ok(ClientTrust::Unverified)));
    assert!(matches!(
        client_trust(Some(b"pem".to_vec()), false),
        Ok(ClientTrust::Anchored { trust_pem }) if trust_pem == b"pem"
    ));
}

#[test]
fn server_configs_need_a_matching_pair() {
    let (cert_pem, key_pem) = generate_self_signed_cert().unwrap();
    let (other_cert_pem, other_key_pem) = generate_self_signed_cert().unwrap();
    let alpn = vec![b"h3".to_vec()];
    assert!(build_quic_server_config_from_pem(&cert_pem, &key_pem, alpn.clone()).is_ok());
    assert!(build_quic_server_config(&provided(&cert_pem, &key_pem), alpn.clone()).is_ok());
    assert!(build_quic_server_config(&ServerTlsIdentity::SelfSigned, alpn.clone()).is_ok());
    assert!(matches!(
        build_quic_server_config_from_pem(&cert_pem, &other_key_pem, alpn.clone()),
        Err(TlsError::InvalidTlsConfig)
    ));
    assert!(matches!(
        build_quic_server_config_from_pem(b"", &key_pem, alpn.clone()),
        Err(TlsError::NoCertificate)
    ));
    assert!(matches!(
        build_quic_server_config_from_pem(&other_cert_pem, b"", alpn),
        Err(TlsError::NoPrivateKey)
    ));
}

#[test]
fn pem_pairs_come_back_and_self_signed_pairs_are_made() {
    let identity = provided(b"cert", b"key");
    assert_eq!(identity.pem_pair().unwrap(), (b"cert".to_vec(), b"key".to_vec()));
    let (cert_pem, key_pem) = ServerTlsIdentity::SelfSigned.pem_pair().unwrap();
    assert!(build_quic_server_config_from_pem(&cert_pem, &key_pem, Vec::new()).is_ok());
    assert_eq!(server_identity_validity(&ServerTlsIdentity::SelfSigned), Ok(None));
    assert_eq!(validate_server_identity_time(&ServerTlsIdentity::SelfSigned), Ok(()));
}

#[test]
fn validity_windows_are_read_to_the_second() {
    let (cert_pem, key_pem) = cert_with_validity((2024, 2, 29), (2051, 3, 1));
    let identity = provided(&cert_pem, &key_pem);
    let window = server_identity_validity(&identity).unwrap().unwrap();
    assert_eq!(window.not_before_unix_seconds, 1_709_164_800);
    assert_eq!(window.not_after_unix_seconds, 2_561_241_600);
    assert_eq!(
        validate_server_identity_at(&identity, Some(1_709_164_799)),
        Err(TlsError::NotYetValid { index: 0 })
    );
    assert_eq!(validate_server_identity_at(&identity, Some(1_709_164_800)), Ok(()));
    assert_eq!(validate_server_identity_at(&identity, Some(2_561_241_600)), Ok(()));
    assert_eq!(
        validate_server_identity_at(&identity, Some(2_561_241_601)),
        Err(TlsError::Expired { index: 0 })
    );
    assert_eq!(
        validate_server_identity_at(&identity, None),
        Err(TlsError::ClockBeforeEpoch)
    );
    assert_eq!(validate_server_identity_time(&identity), Ok(()));
}

#[test]
fn a_chain_is_valid_while_all_of_it_is() {
    let der = |not_before, not_after| {
        let (pem, _) = cert_with_validity(not_before, not_after);
        let mut reader = pem.as_slice();
        let section = rustls_pemfile::certs(&mut reader).next().unwrap().unwrap();
        Some(section.to_vec())
    };
    let chain = vec![
        der((2020, 1, 1), (2040, 1, 1)),
        der((2021, 1, 1), (2030, 1, 1)),
    ];
    let window = effective_validity(&chain).unwrap();
    assert_eq!(window.not_before_unix_seconds, 1_609_459_200);
    assert_eq!(window.not_after_unix_seconds, 1_893_456_000);
    assert_eq!(
        validate_chain_at(&chain, 1_609_459_199),
        Err(TlsError::NotYetValid { index: 1 })
    );
    assert_eq!(validate_chain_at(&chain, 1_700_000_000), Ok(()));
    assert_eq!(
        validate_chain_at(&chain, 1_893_456_001),
        Err(TlsError::Expired { index: 1 })
    );
    assert_eq!(
        validate_chain_at(&vec![None], 1_700_000_000),
        Err(TlsError::InvalidCertificatePem)
    );
    assert_eq!(validate_chain_at(&Vec::new(), 0), Err(TlsError::NoCertificate));
}

#[test]
fn der_elements_are_read_one_after_the_other() {
    let input = [0x02, 0x01, 0x05, 0x04, 0x81, 0x02, 0xaa, 0xbb];
    let mut reader = DerReader::new(&input);
    assert_eq!(reader.peek_tag(), Some(0x02));
    assert_eq!(reader.read(0x02), Ok(&[0x05u8][..]));
    assert_eq!(reader.read(0x02), Err(TlsError::UnexpectedDerTag));
    let mut again = DerReader::new(&input[3..]);
    assert_eq!(again.read(0x04), Ok(&[0xaau8, 0xbb][..]));
    assert_eq!(again.peek_tag(), None);
    assert_eq!(DerReader::new(&[0x02]).read(0x02), Err(TlsError::MissingDerLength));
    let mut refused = DerReader::new(&[0x30, 0x82, 0x30]);
    assert_eq!(refused.read(0x30), Err(TlsError::TruncatedDerLength));
    assert_eq!(refused.peek_tag(), Some(0x30));
    assert_eq!(refused.read(0x30), Err(TlsError::MissingDerLength));
    assert_eq!(refused.peek_tag(), None);
    assert_eq!(
        DerReader::new(&[0x02, 0x80]).read(0x02),
        Err(TlsError::UnsupportedDerLength)
    );
    assert_eq!(
        DerReader::new(&[0x02, 0x85, 1, 1, 1, 1, 1]).read(0x02),
        Err(TlsError::UnsupportedDerLength)
    );
    assert_eq!(
        DerReader::new(&[0x02, 0x82, 0x01]).read(0x02),
        Err(TlsError::TruncatedDerLength)
    );
    assert_eq!(
        DerReader::new(&[0x02, 0x03, 0x01]).read(0x02),
        Err(TlsError::TruncatedDerValue)
    );
}

#[test]
fn der_times_are_seconds_from_1970() {
    let time = |tag: u8, text: &str| {
        let mut input = vec![tag, text.len() as u8];
        input.extend_from_slice(text.as_bytes());
        read_der_time(&mut DerReader::new(&input))
    };
    assert_eq!(time(0x17, "700101000000Z"), Ok(0));
    assert_eq!(time(0x17, "491231235959Z"), Ok(2_524_607_999));
    assert_eq!(time(0x17, "500101000000Z"), Ok(-631_152_000));
    assert_eq!(time(0x18, "20500101000000Z"), Ok(2_524_608_000));
    assert_eq!(time(0x18, "20240229120000Z"), Ok(1_709_208_000));
    assert_eq!(time(0x17, "7001010000Z"), Err(TlsError::InvalidUtcTime));
    assert_eq!(time(0x18, "700101000000Z"), Err(TlsError::InvalidGeneralizedTime));
    assert_eq!(time(0x19, "700101000000Z"), Err(TlsError::InvalidTimeTag));
    assert_eq!(time(0x17, "7001010000000"), Err(TlsError::TimeNotUtc));
    assert_eq!(time(0x17, "70x101000000Z"), Err(TlsError::InvalidDecimal));
    assert_eq!(time(0x17, "701301000000Z"), Err(TlsError::InvalidMonth));
    assert!(read_der_time(&mut DerReader::new(&[])).is_err());
}

#[test]
fn decimals_and_days_are_counted() {
    assert_eq!(parse_decimal(b"0042"), Ok(42));
    assert_eq!(parse_decimal(b"4x"), Err(TlsError::InvalidDecimal));
    assert_eq!(parse_decimal(b"99999999999999999999"), Err(TlsError::DecimalOverflow));
    assert_eq!(days_from_civil(1970, 1, 1), 0);
    assert_eq!(days_from_civil(2000, 3, 1), 11_017);
    assert_eq!(days_from_civil(1969, 12, 31), -1);
}

#[test]
fn certificates_that_are_none_have_no_window() {
    assert!(parse_certificate_validity(b"").is_err());
    assert!(parse_certificate_validity(&[0x30, 0x00]).is_err());
    assert!(server_identity_validity(&provided(b"no pem", b"key")).is_err());
}

#[test]
fn paths_of_one_directory_come_from_one_generation() {
    assert_eq!(check_identity_paths(found()), Ok(()));
    assert_eq!(
        check_identity_paths(IdentityPaths { cert_resolves: false, ..found() }),
        Err(TlsError::CertPathUnresolved)
    );
    assert_eq!(
        check_identity_paths(IdentityPaths { key_resolves: false, ..found() }),
        Err(TlsError::KeyPathUnresolved)
    );
    assert_eq!(
        check_identity_paths(IdentityPaths { same_resolved_directory: false, ..found() }),
        Err(TlsError::MixedGenerations)
    );
    assert_eq!(
        check_identity_paths(IdentityPaths {
            same_directory: false,
            same_resolved_directory: false,
            ..found()
        }),
        Ok(())
    );
    assert_eq!(read_trust_bundle(false, contents(b"")), Err(TlsError::TrustPathUnresolved));
    assert_eq!(read_trust_bundle(true, FileRead::Unreadable), Err(TlsError::Unreadable));
    assert_eq!(read_trust_bundle(true, contents(b"")), Err(TlsError::EmptyTrustBundle));
}

#[test]
fn a_rejected_identity_keeps_the_last_one_in_use() {
    let (first_cert, first_key) = generate_self_signed_cert().unwrap();
    let (second_cert, second_key) = generate_self_signed_cert().unwrap();
    let mut reloader =
        ServerIdentityReloader::load(read_identity(&first_cert, &first_key)).unwrap();

    let mixed = || identity_attempt(&second_cert, &first_key);
    assert_eq!(reloader.load_candidate(mixed()), Err(TlsError::InvalidTlsConfig));
    assert!(reloader.has_suppressed_rejection());
    assert_eq!(reloader.load_candidate(mixed()), Ok(None));
    assert_eq!(reloader.current_identity(), &provided(&first_cert, &first_key));

    assert_eq!(
        reloader.load_candidate(identity_attempt(&second_cert, &second_key)),
        Ok(Some(provided(&second_cert, &second_key)))
    );
    assert!(!reloader.has_suppressed_rejection());
    assert_eq!(reloader.current_identity(), &provided(&first_cert, &first_key));
}

#[test]
fn expiries_decide_on_readiness() {
    assert_eq!(identity_expiry(None), NO_EXPIRY);
    assert_eq!(shown_expiry(NO_EXPIRY), None);
    assert_eq!(shown_expiry(12), Some(12));
    assert!(identity_is_ready(NO_EXPIRY, None));
    assert!(identity_is_ready(100, Some(100)));
    assert!(!identity_is_ready(100, Some(101)));
    assert!(!identity_is_ready(-1, Some(0)));
    assert!(!identity_is_ready(100, None));
    assert_eq!(check_reload_interval(0), Err(TlsError::ZeroReloadInterval));
    assert_eq!(check_reload_interval(10), Ok(()));
}

#[test]
fn rotations_activate_valid_material_only() {
    let (first_cert, first_key) = generate_self_signed_cert().unwrap();
    let (second_cert, second_key) = cert_with_validity((2020, 1, 1), (2040, 1, 1));
    let reloader = ServerIdentityReloader::load(read_identity(&first_cert, &first_key)).unwrap();
    let mut rotation = ServerIdentityRotation::new(reloader).unwrap();
    assert!(matches!(
        rotation.rotate(identity_attempt(&second_cert, &first_key), Vec::new()),
        IdentityRotation::Rejected { error: TlsError::InvalidTlsConfig }
    ));
    assert!(matches!(
        rotation.rotate(identity_attempt(&first_cert, &first_key), Vec::new()),
        IdentityRotation::Unchanged
    ));
    assert!(matches!(
        rotation.rotate(identity_attempt(&second_cert, &second_key), Vec::new()),
        IdentityRotation::Activated { .. }
    ));
    assert_eq!(rotation.expiry(), 2_208_988_800);
    assert_eq!(rotation.current_identity(), &provided(&second_cert, &second_key));
}

#[test]
fn trust_rotations_count_generations() {
    let (first_cert, _) = generate_self_signed_cert().unwrap();
    let (second_cert, _) = generate_self_signed_cert().unwrap();
    let reloader =
        ClientTrustReloader::load(read_trust_bundle(true, contents(&first_cert))).unwrap();
    let mut rotation = ClientTrustRotation::new(reloader);
    let generation = rotation.generation();
    assert!(matches!(
        rotation.prepare(trust_attempt(&first_cert), Vec::new()),
        TrustRotation::Unchanged
    ));
    let candidate = match rotation.prepare(trust_attempt(&second_cert), Vec::new()) {
        TrustRotation::Prepared { candidate, .. } => candidate,
        _ => panic!("a replacement should be offered"),
    };
    assert_eq!(rotation.current_pem(), first_cert);
    assert!(rotation.finish(candidate.clone(), false).is_none());
    assert_eq!(rotation.generation(), generation);
    assert_eq!(rotation.finish(candidate, true), Some("TLS trust configuration replaced"));
    assert_eq!(rotation.generation(), generation + 1);
    assert_eq!(rotation.current_pem(), second_cert);
}
