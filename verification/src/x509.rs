//! A mathematical model of parsed certificates, and trusted wrappers over
//! the X.509 parser that extract its fields.
//!
//! Parsing is a function of the DER bytes alone, so the model is a single
//! named function `parse_cert`; every wrapper and every signing contract
//! speaks in terms of it.

use vstd::prelude::*;

verus! {

/// The attribute kinds a distinguished name in this model distinguishes.
pub ghost enum DnKind {
    Country,
    State,
    Locality,
    Organization,
    OrganizationalUnit,
    CommonName,
    Other,
}

/// One attribute of a distinguished name: its kind and its text.
pub ghost struct DnAttr {
    pub kind: DnKind,
    pub value: Seq<char>,
}

/// The distinguished-name attributes the ledger records. Each holds the
/// value of the first matching relative distinguished name, if any.
pub ghost struct DnModel {
    pub country: Option<Seq<char>>,
    pub state: Option<Seq<char>>,
    pub locality: Option<Seq<char>>,
    pub organization: Option<Seq<char>>,
    pub organizational_unit: Option<Seq<char>>,
    pub common_name: Option<Seq<char>>,
}

/// What parsing a DER certificate reveals: serial, subject and issuer
/// names, the raw subject bytes, the subject's attributes in certificate
/// order, the validity window in seconds, the basic-constraints CA flag,
/// the subject's public-key SPKI bytes, the DNS-typed subject alternative
/// names in order, and the key-usage and extended-key-usage flags (false
/// where the extension is absent).
pub ghost struct CertModel {
    pub serial: Seq<u8>,
    pub subject: DnModel,
    pub subject_raw: Seq<u8>,
    /// The subject's attributes in the order the certificate carries them.
    pub subject_attrs: Seq<DnAttr>,
    /// Every subject relative distinguished name holds exactly one
    /// attribute, and no attribute type repeats across them.
    pub subject_singular: bool,
    pub issuer: DnModel,
    pub not_before: i64,
    pub not_after: i64,
    pub is_ca: bool,
    pub spki: Seq<u8>,
    /// The DNS-typed subject alternative names, in certificate order.
    pub dns_sans: Seq<Seq<char>>,
    pub ku_digital_signature: bool,
    pub ku_key_encipherment: bool,
    pub ku_key_cert_sign: bool,
    pub ku_crl_sign: bool,
    pub eku_server_auth: bool,
    pub eku_client_auth: bool,
}

/// What x509_parser::parse_x509_certificate makes of the bytes: `None`
/// exactly where parsing fails. The serial is the big-endian minimal form
/// of the certificate's serial number.
pub uninterp spec fn parse_cert(der: Seq<u8>) -> Option<CertModel>;

/// The view of an optional owned string as an optional character sequence.
pub open spec fn opt_view(s: Option<String>) -> Option<Seq<char>> {
    match s {
        Some(x) => Some(x@),
        None => None,
    }
}

/// The characters of an optional string, empty when absent.
pub open spec fn opt_chars(o: Option<String>) -> Seq<char> {
    match o {
        Some(s) => s@,
        None => Seq::empty(),
    }
}

/// Serial, validity and CA data of a parsed certificate, as plain values.
pub struct CertCore {
    pub serial: Vec<u8>,
    pub not_before: i64,
    pub not_after: i64,
    pub is_ca: bool,
    pub spki: Vec<u8>,
}

impl CertCore {
    /// Whether these fields are the ones `parse_cert` gives the bytes.
    pub open spec fn matches(&self, m: CertModel) -> bool {
        &&& self.serial@ == m.serial
        &&& self.not_before == m.not_before
        &&& self.not_after == m.not_after
        &&& self.is_ca == m.is_ca
        &&& self.spki@ == m.spki
    }
}

/// One distinguished name of a parsed certificate, as plain values.
pub struct DnFields {
    pub raw: Vec<u8>,
    pub country: Option<String>,
    pub state: Option<String>,
    pub locality: Option<String>,
    pub organization: Option<String>,
    pub organizational_unit: Option<String>,
    pub common_name: Option<String>,
}

impl DnFields {
    /// The attribute values these fields hold.
    pub open spec fn dn(&self) -> DnModel {
        DnModel {
            country: opt_view(self.country),
            state: opt_view(self.state),
            locality: opt_view(self.locality),
            organization: opt_view(self.organization),
            organizational_unit: opt_view(self.organizational_unit),
            common_name: opt_view(self.common_name),
        }
    }
}

/// Relies on x509_parser::parse_x509_certificate: the serial (big-endian),
/// validity window in seconds, basic-constraints CA flag and subject SPKI
/// bytes of a DER certificate; `None` exactly where parsing fails.
#[verifier::external_body]
pub fn parse_cert_core(der: &[u8]) -> (r: Option<CertCore>)
    ensures
        r is Some <==> parse_cert(der@) is Some,
        r matches Some(c) ==> c.matches(parse_cert(der@)->Some_0),
{
    match x509_parser::parse_x509_certificate(der) {
        Ok((_, x509)) => Some(CertCore {
            serial: x509.serial.to_bytes_be(),
            not_before: x509.validity().not_before.timestamp(),
            not_after: x509.validity().not_after.timestamp(),
            is_ca: x509.is_ca(),
            spki: x509.tbs_certificate.subject_pki.raw.to_vec(),
        }),
        Err(_) => None,
    }
}

/// Relies on x509_parser::parse_x509_certificate and X509Name::as_raw: the
/// raw bytes of the subject name; `None` exactly where parsing fails.
#[verifier::external_body]
fn parse_cert_subject_raw(der: &[u8]) -> (r: Option<Vec<u8>>)
    ensures
        r is Some <==> parse_cert(der@) is Some,
        r matches Some(raw) ==> raw@ == parse_cert(der@)->Some_0.subject_raw,
{
    match x509_parser::parse_x509_certificate(der) {
        Ok((_, c)) => Some(c.subject().as_raw().to_vec()),
        Err(_) => None,
    }
}

/// Relies on x509_parser::parse_x509_certificate and the X509Name attribute
/// iterators: the first country, state and locality values of the subject;
/// `None` exactly where parsing fails.
#[verifier::external_body]
fn parse_cert_subject_location(der: &[u8]) -> (r: Option<
    (Option<String>, Option<String>, Option<String>),
>)
    ensures
        r is Some <==> parse_cert(der@) is Some,
        r matches Some(t) ==> {
            let d = parse_cert(der@)->Some_0.subject;
            &&& opt_view(t.0) == d.country
            &&& opt_view(t.1) == d.state
            &&& opt_view(t.2) == d.locality
        },
{
    match x509_parser::parse_x509_certificate(der) {
        Ok((_, c)) => Some((
            c.subject().iter_country().next().and_then(|a| a.as_str().ok()).map(String::from),
            c.subject().iter_state_or_province().next().and_then(|a| a.as_str().ok()).map(
                String::from,
            ),
            c.subject().iter_locality().next().and_then(|a| a.as_str().ok()).map(String::from),
        )),
        Err(_) => None,
    }
}

/// Relies on x509_parser::parse_x509_certificate and the X509Name attribute
/// iterators: the first organization, organizational-unit and common-name
/// values of the subject; `None` exactly where parsing fails.
#[verifier::external_body]
fn parse_cert_subject_names(der: &[u8]) -> (r: Option<
    (Option<String>, Option<String>, Option<String>),
>)
    ensures
        r is Some <==> parse_cert(der@) is Some,
        r matches Some(t) ==> {
            let d = parse_cert(der@)->Some_0.subject;
            &&& opt_view(t.0) == d.organization
            &&& opt_view(t.1) == d.organizational_unit
            &&& opt_view(t.2) == d.common_name
        },
{
    match x509_parser::parse_x509_certificate(der) {
        Ok((_, c)) => Some((
            c.subject().iter_organization().next().and_then(|a| a.as_str().ok()).map(String::from),
            c.subject().iter_organizational_unit().next().and_then(|a| a.as_str().ok()).map(
                String::from,
            ),
            c.subject().iter_common_name().next().and_then(|a| a.as_str().ok()).map(String::from),
        )),
        Err(_) => None,
    }
}

/// The subject name's raw bytes and first attribute values, assembled from
/// the parser; `None` exactly where parsing fails.
pub fn parse_cert_subject(der: &[u8]) -> (r: Option<DnFields>)
    ensures
        r is Some <==> parse_cert(der@) is Some,
        r matches Some(d) ==> {
            &&& d.dn() == parse_cert(der@)->Some_0.subject
            &&& d.raw@ == parse_cert(der@)->Some_0.subject_raw
        },
{
    let raw = match parse_cert_subject_raw(der) {
        Some(raw) => raw,
        None => {
            return None;
        },
    };
    let (country, state, locality) = match parse_cert_subject_location(der) {
        Some(t) => t,
        None => {
            return None;
        },
    };
    let (organization, organizational_unit, common_name) = match parse_cert_subject_names(der) {
        Some(t) => t,
        None => {
            return None;
        },
    };
    Some(DnFields { raw, country, state, locality, organization, organizational_unit, common_name })
}

} // verus!
