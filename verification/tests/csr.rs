use accountcat::ca::CertificateAuthority;
use accountcat::csr::ToBeSignedCertificate;
use accountcat::timeutil::now_unix;

#[test]
fn test_csr() {
    let now = now_unix();
    let tbs = ToBeSignedCertificate::create("testing", now, now + 10).unwrap();
    let ca = CertificateAuthority::generate().expect("generate ca keypair");
    let plan = ca.save_plan();
    let ca_key = rcgen::KeyPair::from_pem(&plan.key_pem).unwrap();
    let issued = tbs.signed_by(&plan.cert_der, &ca_key).unwrap();
    let issued_der = issued.der();
    let (_, parsed) = x509_parser::parse_x509_certificate(&issued_der).unwrap();
    let rdn: Vec<String> = parsed
        .subject()
        .iter_rdn()
        .flat_map(|rdn| {
            rdn.iter().map(|a| {
                format!(
                    "{}={}",
                    {
                        let oid = a.attr_type();
                        String::from(match oid.to_id_string().as_str() {
                            "2.5.4.3" => "CN",
                            "2.5.4.6" => "C",
                            "2.5.4.10" => "OU",
                            x => x,
                        })
                    },
                    a.as_str().unwrap()
                )
            })
        })
        .collect();
    assert_eq!(vec!["CN=testing", "C=TW", "OU=Accountcat project"], rdn);
}
