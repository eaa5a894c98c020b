//! The certificate authority: a signing key pair and its self-signed root
//! certificate, with generation, persistence planning, loading and issuance.

use vstd::prelude::*;

use crate::bytes::{bytes_equal, copy_bytes};
use crate::crt::IssuedCertificate;
use crate::csr::{CreateError, ToBeSignedCertificate};
use crate::keys::{cert_der_of, generate_ed25519_keypair, key_der_of, key_pem_of, key_spki_of,
    keypair_der, keypair_from_pem, keypair_pem, keypair_public_der, pem_to_key_der};
use crate::sign::{leaf_attrs, leaf_dn};
use crate::timeutil::{now_unix, ts_in_range, CLOCK_TS_MIN, UNIX_TS_MAX, UNIX_TS_MIN};
use crate::x509::{parse_cert, parse_cert_core, CertModel};

verus! {

/// How long a fresh root identity stays valid: ten years of days, in seconds.
pub const ROOT_VALIDITY_SECONDS: i64 = 315360000;

/// The root identity: a signing key pair and the DER bytes of its
/// self-signed certificate. Never mutated after creation; rotation means
/// generating a new authority.
pub struct CertificateAuthority {
    keypair: rcgen::KeyPair,
    certificate_der: Vec<u8>,
}

/// Why saving the authority failed.
#[derive(Debug)]
pub enum SaveError {
    /// The target is not a directory.
    NotDirectory,
    /// Writing a file failed; holds the operating system's message.
    IO(String),
}

/// Why loading an authority failed.
#[derive(Debug)]
pub enum LoadError {
    /// The source is not a directory.
    NotDirectory,
    /// The key-pair file is missing or inaccessible; holds its path.
    MissingKeyPair(String),
    /// The certificate file is missing or inaccessible; holds its path.
    MissingCertificate(String),
    /// The key-pair file does not parse as a PEM private key.
    MalformedKeyPair(rcgen::Error),
    /// The certificate file does not parse as a DER certificate.
    MalformedCertificate,
    /// Reading a file failed; holds the operating system's message.
    IO(String),
}

/// Why generating a fresh authority failed.
#[derive(Debug)]
pub enum GenerateError {
    /// The root request could not be built.
    SignCertificate(CreateError),
    /// Key generation or self-signing failed.
    GenerateKeyPair(rcgen::Error),
}

/// Why issuing a certificate failed.
#[derive(Debug)]
pub enum IssueError {
    /// The leaf request could not be built.
    Create(CreateError),
    /// Signing the request failed.
    Sign(rcgen::Error),
    /// The requested validity window leaves the representable time range.
    InvalidNotBefore,
}

/// The files a `save` must write: the private key as PEM under a restrictive
/// mode, and the certificate's raw DER bytes, as two siblings of one
/// directory.
pub struct SavePlan {
    /// File name of the private key, relative to the target directory.
    pub key_path: String,
    /// PEM text of the private key.
    pub key_pem: String,
    /// Permission bits for the private-key file: owner read/write only.
    pub key_mode: u32,
    /// File name of the certificate, relative to the target directory.
    pub cert_path: String,
    /// Raw DER bytes of the certificate.
    pub cert_der: Vec<u8>,
}

impl CertificateAuthority {
    /// The PKCS#8 DER bytes of the signing key.
    pub closed spec fn key_der(&self) -> Seq<u8> {
        key_der_of(self.keypair)
    }

    /// The DER bytes of the root certificate.
    pub closed spec fn cert_der(&self) -> Seq<u8> {
        self.certificate_der@
    }

    /// What the root certificate parses to.
    pub open spec fn cert_model(&self) -> Option<CertModel> {
        parse_cert(self.cert_der())
    }

    /// A usable authority: its certificate parses.
    pub open spec fn wf(&self) -> bool {
        self.cert_model() is Some
    }

    /// The invariant of the identity: the signing key's public key is the
    /// one embedded in the certificate.
    pub open spec fn key_matches_certificate(&self) -> bool {
        self.wf() && self.cert_model()->Some_0.spki == key_spki_of(self.key_der())
    }

    /// Everything issuance promises of one produced certificate: it parses,
    /// carries the fixed leaf profile for `subject` — its name in
    /// certificate order, digital-signature key usage, server- and
    /// client-auth extended usages, no alternative names, no CA constraint —
    /// names this authority's subject as issuer (whenever the authority's
    /// own subject names each attribute once, as every generated one does),
    /// carries exactly the requested window, and embeds the leaf key. The
    /// signed parameters carry the same window.
    pub open spec fn issued_ok(
        &self,
        ic: IssuedCertificate,
        subject: Seq<char>,
        not_before: i64,
        not_after: i64,
    ) -> bool {
        let m = parse_cert(cert_der_of(ic.certificate));
        &&& m is Some
        &&& m->Some_0.subject == leaf_dn(subject)
        &&& m->Some_0.subject_attrs == leaf_attrs(subject)
        &&& m->Some_0.subject_singular == true
        &&& (self.cert_model()->Some_0.subject_singular ==> m->Some_0.issuer
            == self.cert_model()->Some_0.subject)
        &&& m->Some_0.not_before == not_before
        &&& m->Some_0.not_after == not_after
        &&& m->Some_0.is_ca == false
        &&& m->Some_0.dns_sans == Seq::<Seq<char>>::empty()
        &&& m->Some_0.ku_digital_signature == true
        &&& m->Some_0.ku_key_encipherment == false
        &&& m->Some_0.ku_key_cert_sign == false
        &&& m->Some_0.ku_crl_sign == false
        &&& m->Some_0.eku_server_auth == true
        &&& m->Some_0.eku_client_auth == true
        &&& m->Some_0.spki == key_spki_of(key_der_of(ic.key))
        &&& ic.model().not_before == not_before
        &&& ic.model().not_after == not_after
    }

    /// Creates a fresh identity: a new Ed25519 key pair and a self-signed
    /// certificate for "Root CA" valid for ten years (clamped to the
    /// encodable range; a clock before year 0 is raised to the earliest
    /// second a certificate can carry).
    pub fn generate() -> (r: Result<Self, GenerateError>)
        ensures
            r matches Ok(ca) ==> {
                let m = parse_cert(ca.cert_der())->Some_0;
                &&& ca.wf()
                &&& ca.key_matches_certificate()
                &&& m.subject == leaf_dn("Root CA"@)
                &&& m.subject_attrs == leaf_attrs("Root CA"@)
                &&& m.subject_singular == true
                &&& m.issuer == leaf_dn("Root CA"@)
                &&& m.is_ca == false
                &&& ts_in_range(m.not_before)
                &&& ts_in_range(m.not_after)
                &&& m.not_before + ROOT_VALIDITY_SECONDS <= UNIX_TS_MAX ==> m.not_after
                    == m.not_before + ROOT_VALIDITY_SECONDS
                &&& m.not_before + ROOT_VALIDITY_SECONDS > UNIX_TS_MAX ==> m.not_after
                    == UNIX_TS_MAX
            },
    {
        let keypair = match generate_ed25519_keypair() {
            Ok(k) => k,
            Err(e) => {
                return Err(GenerateError::GenerateKeyPair(e));
            },
        };
        let now = now_unix();
        let not_before: i64 = if now < UNIX_TS_MIN {
            UNIX_TS_MIN
        } else {
            now
        };
        let not_after: i64 = if not_before <= UNIX_TS_MAX - ROOT_VALIDITY_SECONDS {
            not_before + ROOT_VALIDITY_SECONDS
        } else {
            UNIX_TS_MAX
        };
        let tbs = match ToBeSignedCertificate::create("Root CA", not_before, not_after) {
            Ok(t) => t,
            Err(e) => {
                return Err(GenerateError::SignCertificate(e));
            },
        };
        let certificate = match tbs.self_signed(&keypair) {
            Ok(c) => c,
            Err(e) => {
                return Err(GenerateError::GenerateKeyPair(e));
            },
        };
        let der = crate::keys::certificate_der(&certificate);
        Ok(CertificateAuthority { keypair, certificate_der: der })
    }

    /// The two files a save writes: the key PEM under `key.p8` with owner-only
    /// permission bits, and the certificate DER under `ca.crt`.
    pub fn save_plan(&self) -> (r: SavePlan)
        ensures
            r.key_path@ == "key.p8"@,
            r.key_pem@ == key_pem_of(self.key_der()),
            pem_to_key_der(r.key_pem@) == Some(self.key_der()),
            r.key_mode == 0o600u32,
            r.cert_path@ == "ca.crt"@,
            r.cert_der@ == self.cert_der(),
    {
        SavePlan {
            key_path: "key.p8".to_owned(),
            key_pem: keypair_pem(&self.keypair),
            key_mode: 0o600,
            cert_path: "ca.crt".to_owned(),
            cert_der: copy_bytes(self.certificate_der.as_slice()),
        }
    }

    /// Rebuilds an authority from the two saved artifacts: the key PEM text
    /// and the certificate DER bytes. Succeeds exactly when the key parses
    /// and the certificate parses.
    pub fn load_from_files(key_pem: &str, cert_der: Vec<u8>) -> (r: Result<Self, LoadError>)
        ensures
            r is Ok <==> (pem_to_key_der(key_pem@) is Some && parse_cert(cert_der@) is Some),
            r matches Ok(ca) ==> {
                &&& pem_to_key_der(key_pem@) == Some(ca.key_der())
                &&& ca.cert_der() == cert_der@
                &&& ca.wf()
            },
            r matches Err(e) ==> {
                &&& (e is MalformedKeyPair <==> pem_to_key_der(key_pem@) is None)
                &&& (e is MalformedCertificate ==> parse_cert(cert_der@) is None)
                &&& (e is MalformedKeyPair || e is MalformedCertificate)
            },
    {
        let keypair = match keypair_from_pem(key_pem) {
            Ok(k) => k,
            Err(e) => {
                return Err(LoadError::MalformedKeyPair(e));
            },
        };
        match parse_cert_core(cert_der.as_slice()) {
            Some(_) => Ok(CertificateAuthority { keypair, certificate_der: cert_der }),
            None => Err(LoadError::MalformedCertificate),
        }
    }

    /// Whether the signing key's public key is the one embedded in the
    /// certificate: the identity's invariant, checkable on any loaded pair.
    pub fn check_key_matches_certificate(&self) -> (r: bool)
        requires
            self.wf(),
        ensures
            r == self.key_matches_certificate(),
    {
        let spki = keypair_public_der(&self.keypair);
        match parse_cert_core(self.certificate_der.as_slice()) {
            Some(core) => bytes_equal(spki.as_slice(), core.spki.as_slice()),
            None => false,
        }
    }

    /// Builds a request for `subject` with the given window and signs it
    /// with this authority as issuer.
    pub fn issue_with_date(&self, subject: &str, not_before: i64, not_after: i64) -> (r: Result<
        IssuedCertificate,
        IssueError,
    >)
        requires
            self.wf(),
            ts_in_range(not_before),
            ts_in_range(not_after),
        ensures
            r matches Ok(ic) ==> self.issued_ok(ic, subject@, not_before, not_after),
            r matches Err(e) ==> (e is Create || e is Sign),
    {
        let tbs = match ToBeSignedCertificate::create(subject, not_before, not_after) {
            Ok(t) => t,
            Err(e) => {
                return Err(IssueError::Create(e));
            },
        };
        match tbs.signed_by(&self.certificate_der, &self.keypair) {
            Ok(ic) => Ok(ic),
            Err(e) => Err(IssueError::Sign(e)),
        }
    }
}

/// Law: saving an authority and loading the saved artifacts yields an
/// authority with the same private-key bytes, and the same certificate
/// bytes, as the original; it always succeeds on a usable authority.
pub fn save_load_roundtrip(ca: &CertificateAuthority) -> (r: Result<
    CertificateAuthority,
    LoadError,
>)
    requires
        ca.wf(),
    ensures
        r is Ok,
        r matches Ok(c2) ==> {
            &&& c2.key_der() == ca.key_der()
            &&& c2.cert_der() == ca.cert_der()
            &&& c2.wf()
        },
{
    let plan = ca.save_plan();
    CertificateAuthority::load_from_files(plan.key_pem.as_str(), plan.cert_der)
}

/// A certificate whose validity window ended before `t` is expired at `t`.
pub open spec fn expired_at(m: CertModel, t: i64) -> bool {
    m.not_after < t
}

/// Law (issuance validity): an issued certificate is itself no authority
/// and names the issuing authority's subject as its issuer, with the
/// subject's common name as requested — for any authority whose own
/// subject names each attribute once, as every generated authority's does.
/// That its signature verifies against the authority as sole trust anchor
/// is the outside verifier's judgment.
pub proof fn lemma_issued_chain_facts(
    ca: CertificateAuthority,
    ic: IssuedCertificate,
    subject: Seq<char>,
    not_before: i64,
    not_after: i64,
)
    requires
        ca.issued_ok(ic, subject, not_before, not_after),
        ca.cert_model()->Some_0.subject_singular,
    ensures
        ({
            let m = parse_cert(cert_der_of(ic.certificate))->Some_0;
            &&& !m.is_ca
            &&& m.issuer == ca.cert_model()->Some_0.subject
            &&& m.subject.common_name == Some(subject)
        }),
{
}

/// Law (expiry): a certificate issued with `not_after` in the past is
/// expired at the current time, while the chain facts still hold — the
/// issuer name is the authority's subject and the certificate is no CA.
pub proof fn lemma_issued_expired(
    ca: CertificateAuthority,
    ic: IssuedCertificate,
    subject: Seq<char>,
    not_before: i64,
    not_after: i64,
    now: i64,
)
    requires
        ca.issued_ok(ic, subject, not_before, not_after),
        ca.cert_model()->Some_0.subject_singular,
        not_after < now,
    ensures
        ({
            let m = parse_cert(cert_der_of(ic.certificate))->Some_0;
            &&& expired_at(m, now)
            &&& m.issuer == ca.cert_model()->Some_0.subject
            &&& !m.is_ca
        }),
{
}

impl PartialEq for CertificateAuthority {
    /// Equality of identities: the serialized private keys hold the same
    /// bytes (the algorithm is a function of those bytes; certificate
    /// content is not compared).
    fn eq(&self, other: &Self) -> (r: bool) {
        let a = keypair_der(&self.keypair);
        let b = keypair_der(&other.keypair);
        bytes_equal(a.as_slice(), b.as_slice())
    }
}

impl vstd::std_specs::cmp::PartialEqSpecImpl for CertificateAuthority {
    open spec fn obeys_eq_spec() -> bool {
        true
    }

    open spec fn eq_spec(&self, other: &Self) -> bool {
        self.key_der() == other.key_der()
    }
}

impl Eq for CertificateAuthority {}

/// The capability to issue a certificate for a subject, valid for a
/// duration from now. Implemented by the authority itself; the tracked
/// issuer wraps any implementation by composition.
pub trait CertificateIssuer: Sized {
    /// Whether this issuer is ready to issue.
    spec fn issuer_wf(&self) -> bool;

    /// The DER bytes of the issuing certificate.
    spec fn issuer_cert_der(&self) -> Seq<u8>;

    /// Issues a certificate for `subject`, valid for `duration_seconds`
    /// from the time of the call. An error is a failure to build the
    /// request, a failure to sign it, or a window outside the encodable
    /// time range.
    fn issue(&self, subject: &str, duration_seconds: i64) -> (r: Result<
        IssuedCertificate,
        IssueError,
    >)
        requires
            self.issuer_wf(),
        ensures
            r matches Ok(ic) ==> issued_cert_ok(self.issuer_cert_der(), ic, subject@,
                duration_seconds),
            r matches Err(e) ==> (e is Create || e is Sign || e is InvalidNotBefore),
    ;
}

/// A window starting at `not_before` and lasting `duration_seconds` that a
/// certificate can carry: both ends within the encodable range.
pub open spec fn issuable_window(not_before: i64, duration_seconds: i64) -> bool {
    &&& ts_in_range(not_before)
    &&& UNIX_TS_MIN <= not_before + duration_seconds <= UNIX_TS_MAX
}

/// What every issuer promises of a produced certificate: it parses, carries
/// the subject as common name, names the issuing certificate's subject as
/// issuer (whenever that certificate's subject names each attribute once),
/// spans exactly the requested duration, and is no CA. The signed
/// parameters carry the same window as the certificate.
pub open spec fn issued_cert_ok(
    ca_der: Seq<u8>,
    ic: IssuedCertificate,
    subject: Seq<char>,
    duration_seconds: i64,
) -> bool {
    let m = parse_cert(cert_der_of(ic.certificate));
    &&& m is Some
    &&& parse_cert(ca_der) is Some
    &&& m->Some_0.subject.common_name == Some(subject)
    &&& m->Some_0.subject_singular == true
    &&& (parse_cert(ca_der)->Some_0.subject_singular ==> m->Some_0.issuer == parse_cert(
        ca_der,
    )->Some_0.subject)
    &&& m->Some_0.is_ca == false
    &&& m->Some_0.not_after - m->Some_0.not_before == duration_seconds
    &&& ic.model().not_before == m->Some_0.not_before
    &&& ic.model().not_after == m->Some_0.not_after
}

impl CertificateIssuer for CertificateAuthority {
    open spec fn issuer_wf(&self) -> bool {
        self.wf()
    }

    open spec fn issuer_cert_der(&self) -> Seq<u8> {
        self.cert_der()
    }

    /// Issues with `not_before` now and `not_after` the duration later,
    /// failing when the window leaves the encodable time range. The window
    /// error names a clock sample on which the window was not encodable.
    fn issue(&self, subject: &str, duration_seconds: i64) -> (r: Result<
        IssuedCertificate,
        IssueError,
    >)
        ensures
            r matches Err(e) && e is InvalidNotBefore ==> exists|now: i64|
                {
                    &&& CLOCK_TS_MIN <= now <= UNIX_TS_MAX
                    &&& !(#[trigger] issuable_window(now, duration_seconds))
                },
    {
        let not_before = now_unix();
        let not_after = match not_before.checked_add(duration_seconds) {
            Some(na) => na,
            None => {
                proof {
                    assert(!issuable_window(not_before, duration_seconds));
                }
                return Err(IssueError::InvalidNotBefore);
            },
        };
        if not_before < UNIX_TS_MIN || not_after < UNIX_TS_MIN || not_after > UNIX_TS_MAX {
            proof {
                assert(!issuable_window(not_before, duration_seconds));
            }
            return Err(IssueError::InvalidNotBefore);
        }
        self.issue_with_date(subject, not_before, not_after)
    }
}

} // verus!
