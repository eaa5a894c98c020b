//! Construction of a to-be-signed certificate: the unsigned parameter set
//! for a subject, with a fresh leaf key pair.

use vstd::prelude::*;

use crate::crt::IssuedCertificate;
use crate::keys::{cert_der_of, generate_ed25519_keypair, key_der_of, key_spki_of};
use crate::sign::{leaf_profile, make_leaf_params, params_model_of, self_sign, sign_leaf,
    signed_matches_params, ParamsModel};
use crate::timeutil::ts_in_range;
use crate::x509::parse_cert;

verus! {

/// The unsigned parameter set describing a subject, its fresh key and its
/// validity window, prior to signing. Consumed by signing.
pub struct ToBeSignedCertificate {
    pub key: rcgen::KeyPair,
    pub params: rcgen::CertificateParams,
}

/// Why building a to-be-signed certificate failed.
#[derive(Debug)]
pub enum CreateError {
    /// The leaf key pair could not be generated.
    Keypair(rcgen::Error),
    /// The request could not be serialized.
    Serialize(rcgen::Error),
}

impl ToBeSignedCertificate {
    /// The parameter set this request will be signed over.
    pub open spec fn model(&self) -> ParamsModel {
        params_model_of(self.params)
    }

    /// Builds the fixed leaf profile for `subject` with the given window and
    /// a fresh key pair. Fails only when key generation fails.
    pub fn create(subject: &str, not_before: i64, not_after: i64) -> (r: Result<
        Self,
        CreateError,
    >)
        requires
            ts_in_range(not_before),
            ts_in_range(not_after),
        ensures
            r matches Ok(tbs) ==> leaf_profile(tbs.model(), subject@, not_before, not_after),
            r matches Err(e) ==> e is Keypair,
    {
        let key = match generate_ed25519_keypair() {
            Ok(k) => k,
            Err(e) => {
                return Err(CreateError::Keypair(e));
            },
        };
        let params = make_leaf_params(subject, not_before, not_after);
        Ok(ToBeSignedCertificate { key, params })
    }

    /// Signs the parameters with `key` as both subject and issuer; used only
    /// for root creation.
    pub fn self_signed(&self, key: &rcgen::KeyPair) -> (r: Result<rcgen::Certificate, rcgen::Error>)
        requires
            ts_in_range(self.model().not_before),
            ts_in_range(self.model().not_after),
        ensures
            r matches Ok(c) ==> {
                let m = parse_cert(cert_der_of(c));
                &&& m is Some
                &&& signed_matches_params(m->Some_0, self.model())
                &&& m->Some_0.issuer == self.model().dn
                &&& m->Some_0.spki == key_spki_of(key_der_of(*key))
            },
    {
        self_sign(&self.params, key)
    }

    /// Signs the parameters with an external issuer identity, bundling the
    /// leaf key, the parameters actually used and the certificate.
    pub fn signed_by(self, issuer_cert_der: &Vec<u8>, issuer_key: &rcgen::KeyPair) -> (r: Result<
        IssuedCertificate,
        rcgen::Error,
    >)
        requires
            ts_in_range(self.model().not_before),
            ts_in_range(self.model().not_after),
        ensures
            r matches Ok(ic) ==> {
                let m = parse_cert(cert_der_of(ic.certificate));
                let ca = parse_cert(issuer_cert_der@);
                &&& ic.model() == self.model()
                &&& m is Some
                &&& ca is Some
                &&& signed_matches_params(m->Some_0, self.model())
                &&& (ca->Some_0.subject_singular ==> m->Some_0.issuer == ca->Some_0.subject)
                &&& m->Some_0.spki == key_spki_of(key_der_of(ic.key))
            },
    {
        match sign_leaf(&self.params, &self.key, issuer_cert_der, issuer_key) {
            Ok(certificate) => Ok(IssuedCertificate { key: self.key, params: self.params, certificate }),
            Err(e) => Err(e),
        }
    }
}

} // verus!
