//! A private certificate authority and certificate-issuance ledger.
//!
//! The crate generates a self-signed root identity, issues leaf
//! certificates for named subjects, records every issuance in an
//! append-only ledger, and exports deployable bundles for operators.

pub mod auth;
pub mod bundle;
pub mod bytes;
pub mod ca;
pub mod cli;
pub mod config;
pub mod crt;
pub mod csp;
pub mod csr;
pub mod jwtutils;
pub mod keys;
pub mod ledger;
pub mod serial;
pub mod server;
pub mod sign;
pub mod strutil;
pub mod testing;
pub mod timeutil;
pub mod x509;
