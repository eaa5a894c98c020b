//! The identity claims a verified login token carries.
//!
//! Fetching key sets and checking token signatures is network work and
//! stays with the caller; the claim record itself is plain data.

use vstd::prelude::*;

verus! {

/// The claims of an identity token.
pub struct Claims {
    pub iss: String,
    pub azp: String,
    pub aud: String,
    pub sub: String,
    pub iat: u64,
    pub exp: u64,
    pub picture: String,
    pub given_name: String,
    pub family_name: String,
    pub name: String,
}

} // verus!
