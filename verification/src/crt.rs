//! The output of one issuance: the leaf key, the parameters that were
//! signed, and the resulting certificate.

use vstd::prelude::*;

use crate::keys::{cert_der_of, cert_pem_of, certificate_der, certificate_pem, key_der_of,
    keypair_der};
use crate::sign::{params_model_of, ParamsModel};
use crate::x509::{parse_cert, CertModel};

verus! {

/// A signed leaf certificate together with its private key and the
/// parameters actually used for signing. Ownership passes to the caller;
/// the issuer retains nothing.
pub struct IssuedCertificate {
    pub key: rcgen::KeyPair,
    pub params: rcgen::CertificateParams,
    pub certificate: rcgen::Certificate,
}

impl IssuedCertificate {
    /// The parameters this certificate was signed over.
    pub open spec fn model(&self) -> ParamsModel {
        params_model_of(self.params)
    }

    /// What the signed certificate's DER parses to.
    pub open spec fn cert_model(&self) -> Option<CertModel> {
        parse_cert(cert_der_of(self.certificate))
    }

    /// The signed certificate's DER bytes.
    pub fn der(&self) -> (r: Vec<u8>)
        ensures
            r@ == cert_der_of(self.certificate),
    {
        certificate_der(&self.certificate)
    }

    /// The signed certificate's PEM text.
    pub fn pem(&self) -> (r: String)
        ensures
            r@ == cert_pem_of(cert_der_of(self.certificate)),
    {
        certificate_pem(&self.certificate)
    }

    /// The leaf private key's PKCS#8 DER bytes.
    pub fn key_der(&self) -> (r: Vec<u8>)
        ensures
            r@ == key_der_of(self.key),
    {
        keypair_der(&self.key)
    }
}

} // verus!
