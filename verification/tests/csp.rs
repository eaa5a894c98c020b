use accountcat::csp::build_csp;
use accountcat::testing::{test_claims, DummyIdClaimExtractor};

#[test]
fn csp_without_nonce() {
    let expected = "script-src 'self' https://accounts.google.com/gsi/client ; \
        style-src 'self' https://accounts.google.com/gsi/style \
        'sha256-ZAdCRDnStGum6I/Iqtz5uunKn4HysAVC/9iXTVObQr8=' ; \
        connect-src 'self' https://accounts.google.com/gsi/status; \
        frame-src https://accounts.google.com/gsi ; \
        default-src 'self' 'unsafe-inline';";
    assert_eq!(expected, build_csp(None));
}

#[test]
fn csp_with_nonce() {
    let policy = build_csp(Some("abc123"));
    assert!(policy.contains("script-src 'self' https://accounts.google.com/gsi/client 'nonce-abc123';"));
    assert!(policy.contains("frame-src https://accounts.google.com/gsi 'nonce-abc123';"));
    assert!(policy.ends_with("default-src 'self' 'unsafe-inline';"));
}

#[test]
fn test_claims_carry_only_the_subject() {
    let claims = test_claims("user-1".to_string());
    assert_eq!("user-1", claims.sub);
    assert_eq!("", claims.iss);
    assert_eq!("", claims.name);
    assert_eq!(0, claims.exp);
}

#[test]
fn dummy_extractor_hands_out_its_claims() {
    let extractor = DummyIdClaimExtractor::new("google-sub-9".to_string());
    assert_eq!("google-sub-9", extractor.claims().sub);
    assert_eq!("", extractor.claims().aud);
}
