use accountcat::ca::CertificateAuthority;
use accountcat::ledger::{Ledger, TrackedCertificateIssuer, TrackedIssueError};

#[test]
fn test_store_issued_certificate() {
    let ca = CertificateAuthority::generate().unwrap();
    let mut wrapped = TrackedCertificateIssuer::new(Ledger::new(), ca);
    wrapped.issue("testing client", 60).unwrap();
    assert_eq!(1, wrapped.ledger().len());
}

#[test]
fn test_tracked_issue_records_certificate_fields() {
    let ca = CertificateAuthority::generate().unwrap();
    let mut wrapped = TrackedCertificateIssuer::new(Ledger::new(), ca);
    let issued = wrapped.issue("service-a", 90 * 86400).unwrap();
    let issued_der = issued.der();
    let (_, parsed) = x509_parser::parse_x509_certificate(&issued_der).unwrap();
    let rows = wrapped.ledger().entries();
    assert_eq!(1, rows.len());
    let row = &rows[0];
    assert_eq!(Some("service-a".to_owned()), row.common_name);
    assert_eq!(Some("TW".to_owned()), row.country);
    assert_eq!(None, row.state);
    assert_eq!(parsed.serial.to_bytes_be(), row.serial);
    assert_eq!(parsed.validity().not_before.timestamp(), row.not_before);
    assert_eq!(parsed.validity().not_after.timestamp(), row.not_after);
    assert_eq!(90 * 86400, row.not_after - row.not_before);
}

#[test]
fn test_tracked_issue_inner_failure_records_nothing() {
    let ca = CertificateAuthority::generate().unwrap();
    let mut wrapped = TrackedCertificateIssuer::new(Ledger::new(), ca);
    let result = wrapped.issue("too long", i64::MAX);
    assert!(matches!(result, Err(TrackedIssueError::Issue(_))));
    assert_eq!(0, wrapped.ledger().len());
}

#[test]
fn test_listing_order() {
    let ca = CertificateAuthority::generate().unwrap();
    let mut wrapped = TrackedCertificateIssuer::new(Ledger::new(), ca);
    wrapped.issue("first", 3600).unwrap();
    wrapped.issue("second", 3 * 3600).unwrap();
    wrapped.issue("third", 2 * 3600).unwrap();
    let rows = wrapped.ledger().entries();
    assert_eq!(3, rows.len());
    assert!(rows[0].not_after >= rows[1].not_after);
    assert!(rows[1].not_after >= rows[2].not_after);
    let names: Vec<Option<String>> = rows.iter().map(|r| r.common_name.clone()).collect();
    assert!(names.contains(&Some("first".to_owned())));
    assert!(names.contains(&Some("second".to_owned())));
    assert!(names.contains(&Some("third".to_owned())));
}

#[test]
fn test_render_dn() {
    let ca = CertificateAuthority::generate().unwrap();
    let mut wrapped = TrackedCertificateIssuer::new(Ledger::new(), ca);
    wrapped.issue("render me", 60).unwrap();
    let rows = wrapped.ledger().entries();
    assert_eq!(
        "C=TW,ST=,L=,O=Accountcat project,OU=,CN=render me",
        rows[0].render_dn()
    );
}
