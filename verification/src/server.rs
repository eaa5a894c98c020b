//! Plain data the server binary is driven by.

use vstd::prelude::*;

verus! {

/// The session key under which a login's claims are stored.
pub const SESSION_KEY_CLAIMS: &'static str = "claims";

/// How the server binary was asked to start.
#[derive(Default)]
pub struct ServerArg {
    /// Run the database migration before serving.
    pub auto_migrate: bool,
}

} // verus!
