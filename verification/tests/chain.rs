//! End-to-end verification of generated certificate chains.

use std::sync::Arc;
use std::time::Duration;

use rcgen::BasicConstraints;
use rcgen::Certificate;
use rcgen::CertificateParams;
use rcgen::IsCa;
use rcgen::KeyPair;
use rcgen::date_time_ymd;

use rustls::RootCertStore;
use rustls::crypto::CryptoProvider;
use rustls::pki_types::CertificateDer;
use rustls::pki_types::ServerName;
use rustls::pki_types::UnixTime;

use shim_verifier::ErrorKind;
use shim_verifier::ServerVerifier;
use shim_verifier::VerifyMode;
use shim_verifier::X509_V_ERR_CERT_HAS_EXPIRED;
use shim_verifier::X509_V_ERR_CERT_NOT_YET_VALID;
use shim_verifier::X509_V_ERR_HOSTNAME_MISMATCH;
use shim_verifier::X509_V_ERR_UNABLE_TO_GET_ISSUER_CERT_LOCALLY;
use shim_verifier::X509_V_ERR_UNSPECIFIED;
use shim_verifier::X509_V_OK;

fn test_now() -> UnixTime {
    UnixTime::since_unix_epoch(Duration::from_secs(1_700_000_000))
}

fn provider() -> Arc<CryptoProvider> {
    Arc::new(rustls::crypto::ring::default_provider())
}

fn new_named_ca(common_name: &str) -> (Certificate, KeyPair) {
    let mut params = CertificateParams::new(Vec::<String>::new()).unwrap();
    params.is_ca = IsCa::Ca(BasicConstraints::Unconstrained);
    let mut dn = rcgen::DistinguishedName::new();
    dn.push(rcgen::DnType::CommonName, common_name);
    params.distinguished_name = dn;
    let key = KeyPair::generate().unwrap();
    let cert = params.self_signed(&key).unwrap();
    (cert, key)
}

fn new_ca() -> (Certificate, KeyPair) {
    new_named_ca("test trust anchor")
}

fn new_leaf(
    ca: &(Certificate, KeyPair),
    names: &[&str],
    not_before: (i32, u8, u8),
    not_after: (i32, u8, u8),
) -> CertificateDer<'static> {
    let names: Vec<String> = names.iter().map(|n| String::from(*n)).collect();
    let mut params = CertificateParams::new(names).unwrap();
    params.not_before = date_time_ymd(not_before.0, not_before.1, not_before.2);
    params.not_after = date_time_ymd(not_after.0, not_after.1, not_after.2);
    let key = KeyPair::generate().unwrap();
    let cert = params.signed_by(&key, &ca.0, &ca.1).unwrap();
    cert.der().clone()
}

fn roots_of(ca: &(Certificate, KeyPair)) -> Arc<RootCertStore> {
    let mut store = RootCertStore::empty();
    store.add(ca.0.der().clone()).unwrap();
    Arc::new(store)
}

fn expected(name: &str) -> Option<ServerName<'static>> {
    Some(ServerName::try_from(String::from(name)).unwrap())
}

fn transport_name() -> ServerName<'static> {
    ServerName::try_from(String::from("transport.test")).unwrap()
}

#[test]
fn trusted_chain_with_matching_hostname_reports_ok() {
    let ca = new_ca();
    let leaf = new_leaf(&ca, &["server.example"], (2020, 1, 1), (2040, 1, 1));
    let mut v = ServerVerifier::new(
        roots_of(&ca),
        provider(),
        VerifyMode::Mandatory,
        &expected("server.example"),
    );
    let decision = v.verify_server_cert(&leaf, &[], &transport_name(), &[], test_now());
    assert!(decision.is_ok());
    assert_eq!(v.last_result(), X509_V_OK);
}

#[test]
fn trusted_chain_with_absent_hostname_reports_ok() {
    let ca = new_ca();
    let leaf = new_leaf(&ca, &["server.example"], (2020, 1, 1), (2040, 1, 1));
    let mut v = ServerVerifier::new(roots_of(&ca), provider(), VerifyMode::Mandatory, &None);
    let decision = v.verify_server_cert(&leaf, &[], &transport_name(), &[], test_now());
    assert!(decision.is_ok());
    assert_eq!(v.last_result(), X509_V_OK);
}

#[test]
fn unrelated_name_passes_when_hostname_unset() {
    // The certificate is valid only for a name unrelated to what the
    // transport believes it connected to; with no expected name configured
    // the hostname check is skipped entirely.
    let ca = new_ca();
    let leaf = new_leaf(&ca, &["unrelated.example"], (2020, 1, 1), (2040, 1, 1));
    let mut v = ServerVerifier::new(roots_of(&ca), provider(), VerifyMode::Mandatory, &None);
    let decision = v.verify_server_cert(&leaf, &[], &transport_name(), &[], test_now());
    assert!(decision.is_ok());
    assert_eq!(v.last_result(), X509_V_OK);
}

#[test]
fn expired_leaf_fails_mandatory_and_reports_expired() {
    let ca = new_ca();
    let leaf = new_leaf(&ca, &["server.example"], (1995, 1, 1), (2000, 1, 1));
    let mut v = ServerVerifier::new(
        roots_of(&ca),
        provider(),
        VerifyMode::Mandatory,
        &expected("server.example"),
    );
    let decision = v.verify_server_cert(&leaf, &[], &transport_name(), &[], test_now());
    match decision {
        Err(kind) => assert_eq!(kind, ErrorKind::Expired),
        Ok(_) => panic!("an expired leaf must fail under the mandatory mode"),
    }
    assert_eq!(v.last_result(), X509_V_ERR_CERT_HAS_EXPIRED);
}

#[test]
fn expired_leaf_passes_advisory_but_reports_expired() {
    let ca = new_ca();
    let leaf = new_leaf(&ca, &["server.example"], (1995, 1, 1), (2000, 1, 1));
    let mut v = ServerVerifier::new(
        roots_of(&ca),
        provider(),
        VerifyMode::Advisory,
        &expected("server.example"),
    );
    let decision = v.verify_server_cert(&leaf, &[], &transport_name(), &[], test_now());
    assert!(decision.is_ok());
    assert_eq!(v.last_result(), X509_V_ERR_CERT_HAS_EXPIRED);
}

#[test]
fn not_yet_valid_leaf_reports_its_code() {
    let ca = new_ca();
    let leaf = new_leaf(&ca, &["server.example"], (3000, 1, 1), (3010, 1, 1));
    let mut v = ServerVerifier::new(roots_of(&ca), provider(), VerifyMode::Mandatory, &None);
    let decision = v.verify_server_cert(&leaf, &[], &transport_name(), &[], test_now());
    match decision {
        Err(kind) => assert_eq!(kind, ErrorKind::NotYetValid),
        Ok(_) => panic!("a not-yet-valid leaf must fail under the mandatory mode"),
    }
    assert_eq!(v.last_result(), X509_V_ERR_CERT_NOT_YET_VALID);
}

#[test]
fn unknown_issuer_reports_issuer_code() {
    let ca = new_ca();
    let other_ca = new_named_ca("unrelated trust anchor");
    let leaf = new_leaf(&ca, &["server.example"], (2020, 1, 1), (2040, 1, 1));
    let mut v = ServerVerifier::new(roots_of(&other_ca), provider(), VerifyMode::Mandatory, &None);
    let decision = v.verify_server_cert(&leaf, &[], &transport_name(), &[], test_now());
    match decision {
        Err(kind) => assert_eq!(kind, ErrorKind::UnknownIssuer),
        Ok(_) => panic!("an untrusted chain must fail under the mandatory mode"),
    }
    assert_eq!(v.last_result(), X509_V_ERR_UNABLE_TO_GET_ISSUER_CERT_LOCALLY);
}

#[test]
fn mismatched_hostname_fails_mandatory_and_reports_mismatch() {
    let ca = new_ca();
    let leaf = new_leaf(&ca, &["server.example"], (2020, 1, 1), (2040, 1, 1));
    let mut v = ServerVerifier::new(
        roots_of(&ca),
        provider(),
        VerifyMode::Mandatory,
        &expected("other.example"),
    );
    let decision = v.verify_server_cert(&leaf, &[], &transport_name(), &[], test_now());
    match decision {
        Err(kind) => assert_eq!(kind, ErrorKind::HostnameMismatch),
        Ok(_) => panic!("a mismatched hostname must fail under the mandatory mode"),
    }
    assert_eq!(v.last_result(), X509_V_ERR_HOSTNAME_MISMATCH);
}

#[test]
fn mismatched_hostname_passes_advisory_but_reports_mismatch() {
    let ca = new_ca();
    let leaf = new_leaf(&ca, &["server.example"], (2020, 1, 1), (2040, 1, 1));
    let mut v = ServerVerifier::new(
        roots_of(&ca),
        provider(),
        VerifyMode::Advisory,
        &expected("other.example"),
    );
    let decision = v.verify_server_cert(&leaf, &[], &transport_name(), &[], test_now());
    assert!(decision.is_ok());
    assert_eq!(v.last_result(), X509_V_ERR_HOSTNAME_MISMATCH);
}

#[test]
fn malformed_leaf_reports_generic_code() {
    let ca = new_ca();
    let garbage = CertificateDer::from(vec![0x30u8, 0x03, 0x01, 0x01, 0xff]);
    let mut v = ServerVerifier::new(roots_of(&ca), provider(), VerifyMode::Mandatory, &None);
    let decision = v.verify_server_cert(&garbage, &[], &transport_name(), &[], test_now());
    match decision {
        Err(kind) => assert_eq!(kind, ErrorKind::Parse),
        Ok(_) => panic!("a malformed leaf must fail under the mandatory mode"),
    }
    assert_eq!(v.last_result(), X509_V_ERR_UNSPECIFIED);
}

#[test]
fn repeated_reads_observe_the_recorded_code() {
    let ca = new_ca();
    let leaf = new_leaf(&ca, &["server.example"], (1995, 1, 1), (2000, 1, 1));
    let mut v = ServerVerifier::new(roots_of(&ca), provider(), VerifyMode::Advisory, &None);
    let decision = v.verify_server_cert(&leaf, &[], &transport_name(), &[], test_now());
    assert!(decision.is_ok());
    assert_eq!(v.last_result(), X509_V_ERR_CERT_HAS_EXPIRED);
    assert_eq!(v.last_result(), X509_V_ERR_CERT_HAS_EXPIRED);
}

#[test]
fn supported_schemes_mirror_the_provider() {
    let ca = new_ca();
    let provider = provider();
    let v = ServerVerifier::new(
        roots_of(&ca),
        provider.clone(),
        VerifyMode::Mandatory,
        &None,
    );
    let declared = provider
        .signature_verification_algorithms
        .supported_schemes();
    assert!(!declared.is_empty());
    assert_eq!(v.supported_verify_schemes(), declared);
}
