//! Certificate-parameter construction and signing, behind trusted wrappers.
//!
//! A parameter set is opaque to the verifier; `params_model_of` names what
//! it holds, each builder states exactly what it put there, and the signing
//! wrappers state how the produced certificate parses back.

use vstd::prelude::*;

use crate::keys::{cert_der_of, key_der_of, key_spki_of};
use crate::timeutil::ts_in_range;
use crate::x509::{parse_cert, CertModel, DnAttr, DnKind, DnModel};

verus! {

/// What a certificate-parameter set holds, as far as the contracts need:
/// the subject name (as first-value attributes and in certificate order),
/// the validity window in seconds, the CA flag, the DNS-typed subject
/// alternative names, and the key-usage and extended-key-usage flags.
pub ghost struct ParamsModel {
    pub dn: DnModel,
    pub subject_attrs: Seq<DnAttr>,
    pub not_before: i64,
    pub not_after: i64,
    pub is_ca: bool,
    pub dns_sans: Seq<Seq<char>>,
    pub ku_digital_signature: bool,
    pub ku_key_encipherment: bool,
    pub ku_key_cert_sign: bool,
    pub ku_crl_sign: bool,
    pub eku_server_auth: bool,
    pub eku_client_auth: bool,
}

/// The contents of an opaque rcgen::CertificateParams value.
pub uninterp spec fn params_model_of(p: rcgen::CertificateParams) -> ParamsModel;

/// The distinguished name every leaf request carries: the project's fixed
/// country and organization, and the subject as common name.
pub open spec fn leaf_dn(subject: Seq<char>) -> DnModel {
    DnModel {
        country: Some("TW"@),
        state: None,
        locality: None,
        organization: Some("Accountcat project"@),
        organizational_unit: None,
        common_name: Some(subject),
    }
}

/// The leaf request's subject attributes in certificate order. The common
/// name stands first: the parameter set starts from a stock name whose
/// common-name slot is replaced in place, so it keeps the first position.
pub open spec fn leaf_attrs(subject: Seq<char>) -> Seq<DnAttr> {
    seq![
        DnAttr { kind: DnKind::CommonName, value: subject },
        DnAttr { kind: DnKind::Country, value: "TW"@ },
        DnAttr { kind: DnKind::Organization, value: "Accountcat project"@ },
    ]
}

/// A distinguished name holding only a common name, as the bundle flow uses.
pub open spec fn cn_only_dn(common_name: Seq<char>) -> DnModel {
    DnModel {
        country: None,
        state: None,
        locality: None,
        organization: None,
        organizational_unit: None,
        common_name: Some(common_name),
    }
}

/// A common-name-only subject, in certificate order.
pub open spec fn cn_only_attrs(common_name: Seq<char>) -> Seq<DnAttr> {
    seq![DnAttr { kind: DnKind::CommonName, value: common_name }]
}

/// How a signed certificate parses back relative to the parameters it was
/// signed over: same subject (first-value attributes, and attribute order),
/// a singular subject (one attribute per relative name, no repeated type),
/// the same validity window to the second, the same CA flag, the same
/// DNS names, and the same key-usage and extended-key-usage flags.
pub open spec fn signed_matches_params(m: CertModel, p: ParamsModel) -> bool {
    &&& m.subject == p.dn
    &&& m.subject_attrs == p.subject_attrs
    &&& m.subject_singular == true
    &&& m.not_before == p.not_before
    &&& m.not_after == p.not_after
    &&& m.is_ca == p.is_ca
    &&& m.dns_sans == p.dns_sans
    &&& m.ku_digital_signature == p.ku_digital_signature
    &&& m.ku_key_encipherment == p.ku_key_encipherment
    &&& m.ku_key_cert_sign == p.ku_key_cert_sign
    &&& m.ku_crl_sign == p.ku_crl_sign
    &&& m.eku_server_auth == p.eku_server_auth
    &&& m.eku_client_auth == p.eku_client_auth
}

/// A character that can occur in a textual IP address: a decimal digit, a
/// hexadecimal letter, a colon or a dot.
pub open spec fn is_ip_char(c: char) -> bool {
    ||| c == '.'
    ||| c == ':'
    ||| ('0' as u32) <= (c as u32) <= ('9' as u32)
    ||| ('a' as u32) <= (c as u32) <= ('f' as u32)
    ||| ('A' as u32) <= (c as u32) <= ('F' as u32)
}

/// Whether std's IP-address parser accepts the text. rcgen classifies each
/// subject-alternative name as an IP address exactly when it does.
pub uninterp spec fn parses_as_ip(s: Seq<char>) -> bool;

/// Every character of the text can occur in an IP address.
pub open spec fn all_ip_chars(s: Seq<char>) -> bool {
    forall|j: int| 0 <= j < s.len() ==> is_ip_char(#[trigger] s[j])
}

/// The fixed leaf request profile for a subject and a window: the leaf
/// name (common name first, in certificate order), digital-signature key
/// usage, server- and client-auth extended usages, no CA constraint, no
/// alternative names.
pub open spec fn leaf_profile(
    m: ParamsModel,
    subject: Seq<char>,
    not_before: i64,
    not_after: i64,
) -> bool {
    &&& m.dn == leaf_dn(subject)
    &&& m.subject_attrs == leaf_attrs(subject)
    &&& m.not_before == not_before
    &&& m.not_after == not_after
    &&& m.is_ca == false
    &&& m.dns_sans == Seq::<Seq<char>>::empty()
    &&& m.ku_digital_signature == true
    &&& m.ku_key_encipherment == false
    &&& m.ku_key_cert_sign == false
    &&& m.ku_crl_sign == false
    &&& m.eku_server_auth == true
    &&& m.eku_client_auth == true
}

/// The bundle flow's CA profile: common name only, CA basic constraints,
/// certificate- and CRL-signing plus digital-signature key usages, no
/// extended usages, no alternative names, the stock validity window.
pub open spec fn bundle_ca_profile(m: ParamsModel, common_name: Seq<char>) -> bool {
    &&& m.dn == cn_only_dn(common_name)
    &&& m.subject_attrs == cn_only_attrs(common_name)
    &&& m.not_before == BUNDLE_NOT_BEFORE
    &&& m.not_after == BUNDLE_NOT_AFTER
    &&& m.is_ca == true
    &&& m.dns_sans == Seq::<Seq<char>>::empty()
    &&& m.ku_digital_signature == true
    &&& m.ku_key_encipherment == false
    &&& m.ku_key_cert_sign == true
    &&& m.ku_crl_sign == true
    &&& m.eku_server_auth == false
    &&& m.eku_client_auth == false
}

/// The bundle flow's leaf profile: common name only, digital-signature and
/// key-encipherment usages, server- or client-auth extended usage, no CA
/// constraint, the stock validity window.
pub open spec fn bundle_leaf_profile(m: ParamsModel, common_name: Seq<char>, server: bool) -> bool {
    &&& m.dn == cn_only_dn(common_name)
    &&& m.subject_attrs == cn_only_attrs(common_name)
    &&& m.not_before == BUNDLE_NOT_BEFORE
    &&& m.not_after == BUNDLE_NOT_AFTER
    &&& m.is_ca == false
    &&& m.ku_digital_signature == true
    &&& m.ku_key_encipherment == true
    &&& m.ku_key_cert_sign == false
    &&& m.ku_crl_sign == false
    &&& m.eku_server_auth == server
    &&& m.eku_client_auth == !server
}

/// The first second of 1975, the stock start of a bundle validity window.
pub const BUNDLE_NOT_BEFORE: i64 = 157766400;

/// The first second of year 4096, the stock end of a bundle validity window.
pub const BUNDLE_NOT_AFTER: i64 = 67090118400;

/// Relies on rcgen::CertificateParams and time::OffsetDateTime::from_unix_timestamp:
/// builds the leaf parameter set — fixed country and organization, the subject
/// as common name, digital-signature key usage, server- and client-auth
/// extended usages, no CA constraint, no alternative names, and the given
/// validity window.
#[verifier::external_body]
pub fn make_leaf_params(subject: &str, not_before: i64, not_after: i64) -> (r:
    rcgen::CertificateParams)
    requires
        ts_in_range(not_before),
        ts_in_range(not_after),
    ensures
        leaf_profile(params_model_of(r), subject@, not_before, not_after),
{
    let mut params = rcgen::CertificateParams::default();
    params.distinguished_name.push(rcgen::DnType::CountryName, "TW");
    params.distinguished_name.push(rcgen::DnType::OrganizationName, "Accountcat project");
    params.distinguished_name.push(rcgen::DnType::CommonName, subject);
    params.key_usages.push(rcgen::KeyUsagePurpose::DigitalSignature);
    params.extended_key_usages.push(rcgen::ExtendedKeyUsagePurpose::ServerAuth);
    params.extended_key_usages.push(rcgen::ExtendedKeyUsagePurpose::ClientAuth);
    params.not_before = time::OffsetDateTime::from_unix_timestamp(not_before).unwrap();
    params.not_after = time::OffsetDateTime::from_unix_timestamp(not_after).unwrap();
    params
}

/// Relies on rcgen::CertificateParams: the bundle flow's CA parameter set —
/// common name only, unconstrained CA basic constraints, certificate- and
/// CRL-signing plus digital-signature key usages, the given serial, no
/// alternative names, and the stock validity window.
#[verifier::external_body]
pub fn make_bundle_ca_params(common_name: &str, serial: u64) -> (r: rcgen::CertificateParams)
    ensures
        bundle_ca_profile(params_model_of(r), common_name@),
{
    let mut params = rcgen::CertificateParams::default();
    params.distinguished_name.push(rcgen::DnType::CommonName, common_name);
    params.is_ca = rcgen::IsCa::Ca(rcgen::BasicConstraints::Unconstrained);
    params.key_usages.push(rcgen::KeyUsagePurpose::KeyCertSign);
    params.key_usages.push(rcgen::KeyUsagePurpose::CrlSign);
    params.key_usages.push(rcgen::KeyUsagePurpose::DigitalSignature);
    params.serial_number = Some(rcgen::SerialNumber::from(serial));
    params
}

/// Relies on rcgen::CertificateParams::new, which takes each name as an IP
/// address where std's parser accepts it and as a DNS name otherwise (in
/// order, so the DNS names are exactly the inputs the parser refuses),
/// failing on an invalid DNS name; the rest mirrors the bundle flow's leaf
/// profile — common name only, digital-signature and key-encipherment
/// usages, one extended usage, the given serial, the stock validity window.
/// An IP-address text consists of digits, hexadecimal letters, colons and
/// dots alone.
#[verifier::external_body]
pub fn make_bundle_leaf_params(common_name: &str, sans: &Vec<String>, server: bool, serial: u64)
    -> (r: Result<rcgen::CertificateParams, rcgen::Error>)
    ensures
        r matches Ok(p) ==> {
            &&& bundle_leaf_profile(params_model_of(p), common_name@, server)
            &&& params_model_of(p).dns_sans == sans@.map_values(|t: String| t@).filter(
                |t: Seq<char>| !parses_as_ip(t),
            )
            &&& forall|i: int|
                0 <= i < sans@.len() ==> (params_model_of(p).dns_sans.contains(
                    #[trigger] sans@[i]@,
                ) || parses_as_ip(sans@[i]@))
        },
        r is Ok ==> forall|s: Seq<char>| #[trigger] parses_as_ip(s) ==> all_ip_chars(s),
{
    let mut params = rcgen::CertificateParams::new(sans.clone())?;
    params.distinguished_name.push(rcgen::DnType::CommonName, common_name);
    params.key_usages.push(rcgen::KeyUsagePurpose::DigitalSignature);
    params.key_usages.push(rcgen::KeyUsagePurpose::KeyEncipherment);
    params.extended_key_usages.push(if server {
        rcgen::ExtendedKeyUsagePurpose::ServerAuth
    } else {
        rcgen::ExtendedKeyUsagePurpose::ClientAuth
    });
    params.serial_number = Some(rcgen::SerialNumber::from(serial));
    Ok(params)
}

/// Relies on rand::random: a serial value; nothing is promised of it.
#[verifier::external_body]
pub fn random_serial() -> u64 {
    rand::random()
}

/// Relies on rcgen::CertificateParams::self_signed: signs the parameters
/// with the key as both subject and issuer. The produced DER parses back to
/// the parameter values, carrying the signer's public key. The validity
/// window must be encodable, else the date writer would not return.
#[verifier::external_body]
pub fn self_sign(params: &rcgen::CertificateParams, key: &rcgen::KeyPair) -> (r: Result<
    rcgen::Certificate,
    rcgen::Error,
>)
    requires
        ts_in_range(params_model_of(*params).not_before),
        ts_in_range(params_model_of(*params).not_after),
    ensures
        r matches Ok(c) ==> {
            let m = parse_cert(cert_der_of(c));
            &&& m is Some
            &&& signed_matches_params(m->Some_0, params_model_of(*params))
            &&& m->Some_0.issuer == params_model_of(*params).dn
            &&& m->Some_0.spki == key_spki_of(key_der_of(*key))
        },
{
    params.self_signed(key)
}

/// Relies on rcgen::Issuer::from_ca_cert_der and rcgen::CertificateParams::signed_by:
/// signs the parameters with the issuer's key, naming the issuer
/// certificate's subject as the new certificate's issuer. The produced DER
/// parses back to the parameter values, carrying the leaf's public key.
/// The issuer name is rebuilt from the issuer certificate's parsed subject,
/// keeping one value per attribute type; it equals the parsed subject when
/// that subject is singular. A parsed subject's relative names each hold at
/// least one attribute, so the rebuild cannot hit its empty-name branch.
/// The validity window must be encodable, else the date writer would not
/// return.
#[verifier::external_body]
pub fn sign_leaf(
    params: &rcgen::CertificateParams,
    leaf_key: &rcgen::KeyPair,
    issuer_cert_der: &Vec<u8>,
    issuer_key: &rcgen::KeyPair,
) -> (r: Result<rcgen::Certificate, rcgen::Error>)
    requires
        ts_in_range(params_model_of(*params).not_before),
        ts_in_range(params_model_of(*params).not_after),
    ensures
        r matches Ok(c) ==> {
            let m = parse_cert(cert_der_of(c));
            let ca = parse_cert(issuer_cert_der@);
            &&& m is Some
            &&& ca is Some
            &&& signed_matches_params(m->Some_0, params_model_of(*params))
            &&& (ca->Some_0.subject_singular ==> m->Some_0.issuer == ca->Some_0.subject)
            &&& m->Some_0.spki == key_spki_of(key_der_of(*leaf_key))
        },
{
    let der = rustls_pki_types::CertificateDer::from_slice(issuer_cert_der.as_slice());
    let issuer = rcgen::Issuer::from_ca_cert_der(&der, issuer_key)?;
    params.signed_by(leaf_key, &issuer)
}

} // verus!
