//! The standalone bundle generator: one root, one server leaf, one client
//! leaf, exported as PEM texts and password-protected PKCS#12 archives.
//!
//! This flow keeps no ledger; it is a one-shot bootstrap tool. Building the
//! artifacts is pure computation and verified here; writing them to the
//! output directory is the caller's concern.

use vstd::prelude::*;

use crate::keys::{cert_pem_of, certificate_der, certificate_pem, generate_ecdsa_keypair,
    keypair_der, keypair_pem};
use crate::sign::{all_ip_chars, cn_only_dn, make_bundle_ca_params, make_bundle_leaf_params,
    parses_as_ip, random_serial, self_sign, sign_leaf, BUNDLE_NOT_AFTER, BUNDLE_NOT_BEFORE};
use crate::strutil::{check_nul_free, nul_free};
use crate::timeutil::ts_in_range;
use crate::x509::{opt_chars, parse_cert};

verus! {

#[verifier::external_type_specification]
#[verifier::external_body]
pub struct ExErrorStack(openssl::error::ErrorStack);

/// What the bundle generator builds from.
pub struct PkiArgs {
    /// Directory where the artifacts are written.
    pub out_dir: String,
    /// Common name of the generated certificate authority.
    pub ca_common_name: String,
    /// Common name of the server certificate.
    pub server_common_name: String,
    /// Subject alternative names of the server certificate; at least one
    /// is required.
    pub server_sans: Vec<String>,
    /// Common name of the client certificate.
    pub client_common_name: String,
    /// Subject alternative names of the client certificate; optional.
    pub client_sans: Vec<String>,
    /// Password applied to the PKCS#12 archives; empty when absent.
    pub pkcs12_password: Option<String>,
}

impl Default for PkiArgs {
    /// The stock configuration: artifacts under "pki", local names, one
    /// "localhost" server name, no client names, no password.
    fn default() -> (r: Self)
        ensures
            r.out_dir@ == "pki"@,
            r.ca_common_name@ == "Accountcat Local CA"@,
            r.server_common_name@ == "accountcat-server"@,
            r.server_sans@.len() == 1,
            r.server_sans@[0]@ == "localhost"@,
            r.client_common_name@ == "accountcat-client"@,
            r.client_sans@.len() == 0,
            r.pkcs12_password is None,
    {
        let mut server_sans: Vec<String> = Vec::new();
        server_sans.push("localhost".to_owned());
        PkiArgs {
            out_dir: "pki".to_owned(),
            ca_common_name: "Accountcat Local CA".to_owned(),
            server_common_name: "accountcat-server".to_owned(),
            server_sans,
            client_common_name: "accountcat-client".to_owned(),
            client_sans: Vec::new(),
            pkcs12_password: None,
        }
    }
}

/// Why the bundle export failed.
#[derive(Debug)]
pub enum BundleError {
    /// The server certificate needs at least one subject alternative name.
    MissingServerSan,
    /// A leaf common name or the password holds a NUL character, which the
    /// archive builder's C-string boundary cannot carry.
    EmbeddedNul,
    /// Key generation or certificate building failed.
    Build(rcgen::Error),
    /// Constructing a PKCS#12 archive failed.
    Archive(openssl::error::ErrorStack),
}

/// What opening a PKCS#12 archive with its password reveals, as far as the
/// contracts pin it: the contained certificate's DER, the chain
/// certificates' DER in order, and the friendly name. The archive also
/// carries the private key; its re-encoded bytes are not modeled.
pub ghost struct Pkcs12Model {
    pub cert_der: Seq<u8>,
    pub chain: Seq<Seq<u8>>,
    pub friendly_name: Seq<char>,
}

/// What openssl's PKCS#12 parser makes of the bytes under a password:
/// `None` where the bytes are no archive or the password is wrong. A
/// function of the bytes and the password alone.
pub uninterp spec fn parse_pkcs12(bytes: Seq<u8>, password: Seq<char>) -> Option<Pkcs12Model>;

/// Everything the export writes: the authority's certificate and key, and
/// for each of server and client the certificate, its key, and a protected
/// archive. The DER forms carry the verified facts about each certificate.
pub struct BundleArtifacts {
    pub ca_cert_pem: String,
    pub ca_key_pem: String,
    pub ca_cert_der: Vec<u8>,
    pub server_cert_pem: String,
    pub server_key_pem: String,
    pub server_p12: Vec<u8>,
    pub server_cert_der: Vec<u8>,
    pub client_cert_pem: String,
    pub client_key_pem: String,
    pub client_p12: Vec<u8>,
    pub client_cert_der: Vec<u8>,
}

/// Relies on openssl's Pkcs12 builder: a password-protected archive holding
/// the private key, the certificate, and the CA certificate as the sole
/// chain entry, under the friendly name. Certificates and the name are
/// stored verbatim and recovered by openssl's parser under the same
/// password; the archive's raw bytes vary with fresh salts, so only its
/// parse is pinned. The name and the password cross a C-string boundary
/// that cannot carry an interior NUL, so those inputs are excluded.
#[verifier::external_body]
fn build_pkcs12(
    key_der: &Vec<u8>,
    cert_der: &Vec<u8>,
    ca_der: &Vec<u8>,
    password: &str,
    friendly_name: &str,
) -> (r: Result<Vec<u8>, openssl::error::ErrorStack>)
    requires
        nul_free(password@),
        nul_free(friendly_name@),
    ensures
        r matches Ok(bytes) ==> parse_pkcs12(bytes@, password@) == Some(Pkcs12Model {
            cert_der: cert_der@,
            chain: seq![ca_der@],
            friendly_name: friendly_name@,
        }),
{
    let pkey = openssl::pkey::PKey::private_key_from_der(key_der.as_slice())?;
    let cert = openssl::x509::X509::from_der(cert_der.as_slice())?;
    let ca = openssl::x509::X509::from_der(ca_der.as_slice())?;
    let mut chain = openssl::stack::Stack::new()?;
    chain.push(ca)?;
    let mut builder = openssl::pkcs12::Pkcs12::builder();
    builder.name(friendly_name).pkey(&pkey).cert(&cert).ca(chain);
    builder.build2(password)?.to_der()
}

/// Builds one leaf: fresh key, parameters for the common name and names,
/// signature by the authority, and the protected archive.
fn build_leaf(
    common_name: &str,
    sans: &Vec<String>,
    server: bool,
    ca_der: &Vec<u8>,
    ca_key: &rcgen::KeyPair,
    password: &str,
) -> (r: Result<(String, String, Vec<u8>, Vec<u8>), BundleError>)
    requires
        parse_cert(ca_der@) is Some,
        parse_cert(ca_der@)->Some_0.subject_singular,
        nul_free(common_name@),
        nul_free(password@),
    ensures
        r matches Ok(t) ==> {
            let m = parse_cert(t.3@);
            &&& m is Some
            &&& m->Some_0.subject == cn_only_dn(common_name@)
            &&& m->Some_0.is_ca == false
            &&& m->Some_0.issuer == parse_cert(ca_der@)->Some_0.subject
            &&& m->Some_0.eku_server_auth == server
            &&& m->Some_0.eku_client_auth == !server
            &&& m->Some_0.ku_digital_signature && m->Some_0.ku_key_encipherment
            &&& forall|i: int|
                0 <= i < sans@.len() ==> (m->Some_0.dns_sans.contains(#[trigger] sans@[i]@)
                    || parses_as_ip(sans@[i]@))
            &&& forall|s: Seq<char>| #[trigger] parses_as_ip(s) ==> all_ip_chars(s)
            &&& t.0@ == cert_pem_of(t.3@)
            &&& parse_pkcs12(t.2@, password@) == Some(Pkcs12Model {
                cert_der: t.3@,
                chain: seq![ca_der@],
                friendly_name: common_name@,
            })
        },
        r matches Err(e) ==> (e is Build || e is Archive),
{
    let key = match generate_ecdsa_keypair() {
        Ok(k) => k,
        Err(e) => {
            return Err(BundleError::Build(e));
        },
    };
    let params = match make_bundle_leaf_params(common_name, sans, server, random_serial()) {
        Ok(p) => p,
        Err(e) => {
            return Err(BundleError::Build(e));
        },
    };
    proof {
        assert(ts_in_range(BUNDLE_NOT_BEFORE));
        assert(ts_in_range(BUNDLE_NOT_AFTER));
    }
    let cert = match sign_leaf(&params, &key, ca_der, ca_key) {
        Ok(c) => c,
        Err(e) => {
            return Err(BundleError::Build(e));
        },
    };
    let cert_der = certificate_der(&cert);
    let key_der = keypair_der(&key);
    let p12 = match build_pkcs12(&key_der, &cert_der, ca_der, password, common_name) {
        Ok(p) => p,
        Err(e) => {
            return Err(BundleError::Archive(e));
        },
    };
    Ok((certificate_pem(&cert), keypair_pem(&key), p12, cert_der))
}

/// Generates the mutual-TLS artifacts: a CA, a server leaf carrying the
/// server names, and a client leaf, each leaf packed with its key and the
/// CA chain into a password-protected archive under the leaf's common
/// name. Fails fast when the server has no subject alternative name, or
/// when a leaf common name or the password holds a NUL character.
pub fn generate(args: &PkiArgs) -> (r: Result<BundleArtifacts, BundleError>)
    ensures
        args.server_sans@.len() == 0 <==> (r matches Err(e) && e is MissingServerSan),
        (r matches Err(e) && e is EmbeddedNul) <==> (args.server_sans@.len() > 0 && !(nul_free(
            args.server_common_name@,
        ) && nul_free(args.client_common_name@) && nul_free(opt_chars(args.pkcs12_password)))),
        r matches Ok(b) ==> {
            let ca = parse_cert(b.ca_cert_der@);
            let server = parse_cert(b.server_cert_der@);
            let client = parse_cert(b.client_cert_der@);
            let password = opt_chars(args.pkcs12_password);
            &&& ca is Some
            &&& ca->Some_0.subject == cn_only_dn(args.ca_common_name@)
            &&& ca->Some_0.issuer == cn_only_dn(args.ca_common_name@)
            &&& ca->Some_0.is_ca == true
            &&& ca->Some_0.ku_key_cert_sign && ca->Some_0.ku_crl_sign
            &&& b.ca_cert_pem@ == cert_pem_of(b.ca_cert_der@)
            &&& server is Some
            &&& server->Some_0.subject == cn_only_dn(args.server_common_name@)
            &&& server->Some_0.is_ca == false
            &&& server->Some_0.issuer == ca->Some_0.subject
            &&& server->Some_0.eku_server_auth
            &&& forall|i: int|
                0 <= i < args.server_sans@.len() ==> (server->Some_0.dns_sans.contains(
                    #[trigger] args.server_sans@[i]@,
                ) || parses_as_ip(args.server_sans@[i]@))
            &&& b.server_cert_pem@ == cert_pem_of(b.server_cert_der@)
            &&& parse_pkcs12(b.server_p12@, password) == Some(Pkcs12Model {
                cert_der: b.server_cert_der@,
                chain: seq![b.ca_cert_der@],
                friendly_name: args.server_common_name@,
            })
            &&& client is Some
            &&& client->Some_0.subject == cn_only_dn(args.client_common_name@)
            &&& client->Some_0.is_ca == false
            &&& client->Some_0.issuer == ca->Some_0.subject
            &&& client->Some_0.eku_client_auth
            &&& forall|i: int|
                0 <= i < args.client_sans@.len() ==> (client->Some_0.dns_sans.contains(
                    #[trigger] args.client_sans@[i]@,
                ) || parses_as_ip(args.client_sans@[i]@))
            &&& b.client_cert_pem@ == cert_pem_of(b.client_cert_der@)
            &&& parse_pkcs12(b.client_p12@, password) == Some(Pkcs12Model {
                cert_der: b.client_cert_der@,
                chain: seq![b.ca_cert_der@],
                friendly_name: args.client_common_name@,
            })
            &&& forall|s: Seq<char>| #[trigger] parses_as_ip(s) ==> all_ip_chars(s)
        },
{
    if args.server_sans.len() == 0 {
        return Err(BundleError::MissingServerSan);
    }
    let password: &str = match &args.pkcs12_password {
        Some(p) => p.as_str(),
        None => "",
    };
    proof {
        reveal_strlit("");
        assert(password@ =~= opt_chars(args.pkcs12_password));
    }
    if !(check_nul_free(args.server_common_name.as_str()) && check_nul_free(
        args.client_common_name.as_str(),
    ) && check_nul_free(password)) {
        return Err(BundleError::EmbeddedNul);
    }
    let ca_key = match generate_ecdsa_keypair() {
        Ok(k) => k,
        Err(e) => {
            return Err(BundleError::Build(e));
        },
    };
    let ca_params = make_bundle_ca_params(args.ca_common_name.as_str(), random_serial());
    proof {
        assert(ts_in_range(BUNDLE_NOT_BEFORE));
        assert(ts_in_range(BUNDLE_NOT_AFTER));
    }
    let ca_cert = match self_sign(&ca_params, &ca_key) {
        Ok(c) => c,
        Err(e) => {
            return Err(BundleError::Build(e));
        },
    };
    let ca_cert_der = certificate_der(&ca_cert);
    let server = match build_leaf(args.server_common_name.as_str(), &args.server_sans, true,
        &ca_cert_der, &ca_key, password) {
        Ok(t) => t,
        Err(e) => {
            return Err(e);
        },
    };
    let client = match build_leaf(args.client_common_name.as_str(), &args.client_sans, false,
        &ca_cert_der, &ca_key, password) {
        Ok(t) => t,
        Err(e) => {
            return Err(e);
        },
    };
    let (server_cert_pem, server_key_pem, server_p12, server_cert_der) = server;
    let (client_cert_pem, client_key_pem, client_p12, client_cert_der) = client;
    Ok(BundleArtifacts {
        ca_cert_pem: certificate_pem(&ca_cert),
        ca_key_pem: keypair_pem(&ca_key),
        ca_cert_der,
        server_cert_pem,
        server_key_pem,
        server_p12,
        server_cert_der,
        client_cert_pem,
        client_key_pem,
        client_p12,
        client_cert_der,
    })
}

} // verus!
