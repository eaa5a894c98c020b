use accountcat::bundle::{generate, BundleError, PkiArgs};
use accountcat::ca::{CertificateAuthority, CertificateIssuer};
use openssl::nid::Nid;
use openssl::pkcs12::Pkcs12;

fn read_common_name(cert: &openssl::x509::X509Ref) -> String {
    cert.subject_name()
        .entries_by_nid(Nid::COMMONNAME)
        .next()
        .and_then(|entry| entry.data().as_utf8().ok())
        .map(|data| data.to_string())
        .expect("certificate missing common name")
}

#[test]
fn generates_pkcs12_bundles_with_expected_metadata() {
    let args = PkiArgs {
        out_dir: "artifacts".to_string(),
        ca_common_name: "Accountcat Test CA".to_string(),
        server_common_name: "Accountcat Test Server".to_string(),
        server_sans: vec!["example.local".to_string()],
        client_common_name: "Accountcat Test Client".to_string(),
        client_sans: vec!["client.example.local".to_string()],
        pkcs12_password: Some("secret".to_string()),
    };

    let artifacts = generate(&args).unwrap();

    // Server PKCS#12 bundle contains expected CN, SAN, and CA chain.
    let server = Pkcs12::from_der(&artifacts.server_p12)
        .unwrap()
        .parse2("secret")
        .unwrap();
    let server_cert = server.cert.expect("server certificate missing");
    assert_eq!("Accountcat Test Server", read_common_name(&server_cert));
    let server_sans = server_cert
        .subject_alt_names()
        .expect("server certificate missing SAN");
    let dns_names: Vec<_> = server_sans
        .iter()
        .filter_map(|name| name.dnsname())
        .collect();
    assert!(dns_names.contains(&"example.local"));
    let ca_chain = server.ca.expect("server certificate missing CA chain");
    assert_eq!("Accountcat Test CA", read_common_name(&ca_chain[0]));

    // Client PKCS#12 bundle contains expected CN and SAN.
    let client = Pkcs12::from_der(&artifacts.client_p12)
        .unwrap()
        .parse2("secret")
        .unwrap();
    let client_cert = client.cert.expect("client certificate missing");
    assert_eq!("Accountcat Test Client", read_common_name(&client_cert));
    let client_sans = client_cert
        .subject_alt_names()
        .expect("client certificate missing SAN");
    let client_dns: Vec<_> = client_sans
        .iter()
        .filter_map(|name| name.dnsname())
        .collect();
    assert!(client_dns.contains(&"client.example.local"));

    // CA artifacts exist for trust store distribution.
    assert!(!artifacts.ca_cert_pem.is_empty());
    assert!(!artifacts.ca_key_pem.is_empty());
}

#[test]
fn bundle_requires_server_san() {
    let args = PkiArgs {
        server_sans: Vec::new(),
        ..PkiArgs::default()
    };
    assert!(matches!(generate(&args), Err(BundleError::MissingServerSan)));
}

#[test]
fn bundle_default_args() {
    let args = PkiArgs::default();
    assert_eq!("pki", args.out_dir);
    assert_eq!("Accountcat Local CA", args.ca_common_name);
    assert_eq!("accountcat-server", args.server_common_name);
    assert_eq!(vec!["localhost".to_string()], args.server_sans);
    assert_eq!("accountcat-client", args.client_common_name);
    assert!(args.client_sans.is_empty());
    assert!(args.pkcs12_password.is_none());
}

#[test]
fn bundle_rejects_embedded_nul() {
    let args = PkiArgs {
        server_common_name: "bad\0name".to_string(),
        ..PkiArgs::default()
    };
    assert!(matches!(generate(&args), Err(BundleError::EmbeddedNul)));
    let args = PkiArgs {
        pkcs12_password: Some("se\0cret".to_string()),
        ..PkiArgs::default()
    };
    assert!(matches!(generate(&args), Err(BundleError::EmbeddedNul)));
}

#[test]
fn certificate_pem_encodes_the_der() {
    let ca = CertificateAuthority::generate().unwrap();
    let issued = ca.issue("pem subject", 3600).unwrap();
    let reparsed = openssl::x509::X509::from_pem(issued.pem().as_bytes()).unwrap();
    assert_eq!(issued.der(), reparsed.to_der().unwrap());
}
