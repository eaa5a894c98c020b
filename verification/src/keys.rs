//! Trusted boundary around rcgen's key-pair and certificate values.
//!
//! The signing backend's types are opaque to the verifier; each is declared
//! here together with named functions for the bytes it holds, and thin
//! wrappers whose contracts state what the backend's documentation and
//! source promise.

use vstd::prelude::*;

verus! {

#[verifier::external_type_specification]
#[verifier::external_body]
pub struct ExKeyPair(rcgen::KeyPair);

#[verifier::external_type_specification]
#[verifier::external_body]
pub struct ExCertificate(rcgen::Certificate);

#[verifier::external_type_specification]
#[verifier::external_body]
pub struct ExCertificateParams(rcgen::CertificateParams);

#[verifier::external_type_specification]
#[verifier::external_body]
pub struct ExRcgenError(rcgen::Error);

/// The PKCS#8 DER bytes a key pair holds (what `serialize_der` returns).
pub uninterp spec fn key_der_of(kp: rcgen::KeyPair) -> Seq<u8>;

/// The PEM text `serialize_pem` gives to a key with these DER bytes.
pub uninterp spec fn key_pem_of(der: Seq<u8>) -> Seq<char>;

/// The DER bytes `KeyPair::from_pem` recovers from a PEM text, `None`
/// exactly where that call fails.
pub uninterp spec fn pem_to_key_der(pem: Seq<char>) -> Option<Seq<u8>>;

/// The subject-public-key-info DER derived from a private key with these
/// PKCS#8 DER bytes.
pub uninterp spec fn key_spki_of(der: Seq<u8>) -> Seq<u8>;

/// The DER bytes of a signed certificate (what `Certificate::der` returns).
pub uninterp spec fn cert_der_of(c: rcgen::Certificate) -> Seq<u8>;

/// The PEM text `Certificate::pem` gives to a certificate with these DER bytes.
pub uninterp spec fn cert_pem_of(der: Seq<u8>) -> Seq<char>;

/// Relies on rcgen::KeyPair::generate_for with the Ed25519 algorithm: a
/// fresh random key pair. Nothing is promised of its value.
#[verifier::external_body]
pub fn generate_ed25519_keypair() -> (r: Result<rcgen::KeyPair, rcgen::Error>) {
    rcgen::KeyPair::generate_for(&rcgen::PKCS_ED25519)
}

/// Relies on rcgen::KeyPair::generate_for with the ECDSA P-256 algorithm: a
/// fresh random key pair whose PKCS#8 form other toolchains can read.
/// Nothing is promised of its value.
#[verifier::external_body]
pub fn generate_ecdsa_keypair() -> (r: Result<rcgen::KeyPair, rcgen::Error>) {
    rcgen::KeyPair::generate_for(&rcgen::PKCS_ECDSA_P256_SHA256)
}

/// Relies on rcgen::KeyPair::serialize_der: the key pair's PKCS#8 DER bytes.
#[verifier::external_body]
pub fn keypair_der(kp: &rcgen::KeyPair) -> (r: Vec<u8>)
    ensures
        r@ == key_der_of(*kp),
{
    kp.serialize_der()
}

/// Relies on rcgen::KeyPair::serialize_pem: the PEM encoding of exactly the
/// key pair's PKCS#8 DER bytes, which `KeyPair::from_pem` decodes back to
/// the same DER (rcgen keeps the decoded PEM contents as the serialized key).
#[verifier::external_body]
pub fn keypair_pem(kp: &rcgen::KeyPair) -> (r: String)
    ensures
        r@ == key_pem_of(key_der_of(*kp)),
        pem_to_key_der(r@) == Some(key_der_of(*kp)),
{
    kp.serialize_pem()
}

/// Relies on rcgen::KeyPair::from_pem: parses a PEM private key, keeping the
/// PEM's DER contents as the key pair's serialized bytes.
#[verifier::external_body]
pub fn keypair_from_pem(pem: &str) -> (r: Result<rcgen::KeyPair, rcgen::Error>)
    ensures
        match r {
            Ok(kp) => pem_to_key_der(pem@) == Some(key_der_of(kp)),
            Err(_) => pem_to_key_der(pem@) is None,
        },
{
    rcgen::KeyPair::from_pem(pem)
}

/// Relies on rcgen's PublicKeyData::subject_public_key_info for KeyPair:
/// the public key's SPKI DER, a function of the private key alone.
#[verifier::external_body]
pub fn keypair_public_der(kp: &rcgen::KeyPair) -> (r: Vec<u8>)
    ensures
        r@ == key_spki_of(key_der_of(*kp)),
{
    rcgen::PublicKeyData::subject_public_key_info(kp)
}

/// Relies on rcgen::Certificate::der: the certificate's DER bytes.
#[verifier::external_body]
pub fn certificate_der(c: &rcgen::Certificate) -> (r: Vec<u8>)
    ensures
        r@ == cert_der_of(*c),
{
    c.der().as_ref().to_vec()
}

/// Relies on rcgen::Certificate::pem: the PEM encoding of the DER bytes.
#[verifier::external_body]
pub fn certificate_pem(c: &rcgen::Certificate) -> (r: String)
    ensures
        r@ == cert_pem_of(cert_der_of(*c)),
{
    c.pem()
}

} // verus!
