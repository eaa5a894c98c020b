use accountcat::ca::{save_load_roundtrip, CertificateAuthority, CertificateIssuer, IssueError,
    LoadError};
use accountcat::timeutil::now_unix;
use rustls_pki_types::{CertificateDer, UnixTime};
use webpki::{anchor_from_trusted_cert, Cert, EndEntityCert, Error, KeyUsage,
    ALL_VERIFICATION_ALGS};

#[test]
fn test_save_load() {
    let ca = CertificateAuthority::generate().unwrap();
    let plan = ca.save_plan();
    assert_eq!("key.p8", plan.key_path);
    assert_eq!("ca.crt", plan.cert_path);
    assert_eq!(0o600, plan.key_mode & 0o777);
    let loaded = CertificateAuthority::load_from_files(&plan.key_pem, plan.cert_der).unwrap();
    assert!(ca == loaded);
}

#[test]
fn test_roundtrip_law() {
    let ca = CertificateAuthority::generate().unwrap();
    let loaded = save_load_roundtrip(&ca).unwrap();
    assert!(ca == loaded);
}

#[test]
fn test_load_malformed_keypair() {
    let ca = CertificateAuthority::generate().unwrap();
    let plan = ca.save_plan();
    let result = CertificateAuthority::load_from_files("no key here", plan.cert_der);
    assert!(matches!(result, Err(LoadError::MalformedKeyPair(_))));
}

#[test]
fn test_load_malformed_certificate() {
    let ca = CertificateAuthority::generate().unwrap();
    let plan = ca.save_plan();
    let result = CertificateAuthority::load_from_files(&plan.key_pem, vec![1, 2, 3]);
    assert!(matches!(result, Err(LoadError::MalformedCertificate)));
}

#[test]
fn test_issue() {
    let ca = CertificateAuthority::generate().unwrap();
    let issued = ca.issue("testing subject", 10).unwrap();
    let ca_der_bytes = ca.save_plan().cert_der;
    let ca_der = CertificateDer::from_slice(&ca_der_bytes);
    let trust_anchor = anchor_from_trusted_cert(&ca_der).unwrap();
    let trust_anchors = [trust_anchor];

    let issued_der = issued.der();
    let end_entity_der = CertificateDer::from_slice(&issued_der);
    let end_entity = EndEntityCert::try_from(&end_entity_der).unwrap();
    let verified_path = end_entity
        .verify_for_usage(
            ALL_VERIFICATION_ALGS,
            &trust_anchors,
            &[],
            UnixTime::now(),
            KeyUsage::server_auth(),
            None,
            None,
        )
        .unwrap();
    assert!(verified_path.intermediate_certificates().next().is_none());

    let (_, ca_certificate) = x509_parser::parse_x509_certificate(&ca_der_bytes).unwrap();
    let (_, x509) = x509_parser::parse_x509_certificate(&issued_der).unwrap();
    assert!(!x509.is_ca());
    assert_eq!(&x509.issuer, ca_certificate.subject());
}

#[test]
fn test_issue_expired() {
    let ca = CertificateAuthority::generate().unwrap();
    let now = now_unix();
    let issued = ca
        .issue_with_date("testing subject", now - 7200, now - 3600)
        .unwrap();
    let ca_der_bytes = ca.save_plan().cert_der;
    let ca_der = CertificateDer::from_slice(&ca_der_bytes);
    let trust_anchor = anchor_from_trusted_cert(&ca_der).unwrap();
    let trust_anchors = [trust_anchor];

    let issued_der = issued.der();
    let end_entity_der = CertificateDer::from_slice(&issued_der);
    let end_entity = EndEntityCert::try_from(&end_entity_der).unwrap();
    let verify_error = end_entity
        .verify_for_usage(
            ALL_VERIFICATION_ALGS,
            &trust_anchors,
            &[],
            UnixTime::now(),
            KeyUsage::server_auth(),
            None,
            None,
        )
        .map(|path| path.intermediate_certificates().collect::<Vec<&Cert>>().len())
        .expect_err("should be a invalid certificate");
    assert!(
        matches!(verify_error, Error::CertExpired { .. }),
        "{verify_error:?}"
    );
    let (_, ca_certificate) = x509_parser::parse_x509_certificate(&ca_der_bytes).unwrap();
    let (_, x509) = x509_parser::parse_x509_certificate(&issued_der).unwrap();
    assert!(!x509.is_ca());
    assert_eq!(&x509.issuer, ca_certificate.subject());
}

#[test]
fn test_issue_window_overflow() {
    let ca = CertificateAuthority::generate().unwrap();
    let result = ca.issue("overflowing", i64::MAX);
    assert!(matches!(result, Err(IssueError::InvalidNotBefore)));
}

#[test]
fn test_issue_validity_span() {
    let ca = CertificateAuthority::generate().unwrap();
    let issued = ca.issue("span subject", 90 * 86400).unwrap();
    let issued_der = issued.der();
    let (_, x509) = x509_parser::parse_x509_certificate(&issued_der).unwrap();
    let not_before = x509.validity().not_before.timestamp();
    let not_after = x509.validity().not_after.timestamp();
    assert_eq!(90 * 86400, not_after - not_before);
}

#[test]
fn test_key_matches_certificate() {
    let ca = CertificateAuthority::generate().unwrap();
    assert!(ca.check_key_matches_certificate());
}

#[test]
fn test_mismatched_pair_detected() {
    let first = CertificateAuthority::generate().unwrap();
    let second = CertificateAuthority::generate().unwrap();
    let mismatched = CertificateAuthority::load_from_files(
        &second.save_plan().key_pem,
        first.save_plan().cert_der,
    )
    .unwrap();
    assert!(!mismatched.check_key_matches_certificate());
}

#[test]
fn test_days_to_seconds() {
    assert_eq!(Some(90 * 86400), accountcat::timeutil::days_to_seconds(90));
    assert_eq!(None, accountcat::timeutil::days_to_seconds(i64::MAX));
}
