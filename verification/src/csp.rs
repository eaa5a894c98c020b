//! The content-security-policy line the server attaches to responses, and
//! the data carried by the middleware layers that attach it.
//!
//! The policy text is computed here; generating a nonce and attaching
//! headers is the transport layer's concern.

use vstd::prelude::*;
use vstd::string::StringExecFns;

verus! {

/// The nonce directive token: `'nonce-<value>'`, or nothing.
pub open spec fn nonce_token(nonce: Option<&str>) -> Seq<char> {
    match nonce {
        Some(n) => "'nonce-"@ + n@ + "'"@,
        None => Seq::empty(),
    }
}

/// The full policy line for an optional nonce: the script, style, connect,
/// frame and default source directives, semicolon-separated.
pub open spec fn csp_policy(nonce: Option<&str>) -> Seq<char> {
    "script-src 'self' https://accounts.google.com/gsi/client "@ + nonce_token(nonce)
        + "; style-src 'self' https://accounts.google.com/gsi/style 'sha256-ZAdCRDnStGum6I/Iqtz5uunKn4HysAVC/9iXTVObQr8=' "@
        + nonce_token(nonce) + "; connect-src 'self' https://accounts.google.com/gsi/status; frame-src https://accounts.google.com/gsi "@
        + nonce_token(nonce) + "; default-src 'self' 'unsafe-inline';"@
}

/// Appends the nonce directive token, or nothing.
fn append_nonce(s: &mut String, nonce: Option<&str>)
    ensures
        final(s)@ == old(s)@ + nonce_token(nonce),
{
    match nonce {
        Some(n) => {
            s.append("'nonce-");
            s.append(n);
            s.append("'");
            proof {
                assert(s@ =~= old(s)@ + nonce_token(nonce));
            }
        },
        None => {
            proof {
                assert(s@ =~= old(s)@ + nonce_token(nonce));
            }
        },
    }
}

/// Builds the policy line for an optional nonce.
pub fn build_csp(nonce: Option<&str>) -> (r: String)
    ensures
        r@ == csp_policy(nonce),
{
    let mut s = String::from_str("script-src 'self' https://accounts.google.com/gsi/client ");
    append_nonce(&mut s, nonce);
    s.append(
        "; style-src 'self' https://accounts.google.com/gsi/style 'sha256-ZAdCRDnStGum6I/Iqtz5uunKn4HysAVC/9iXTVObQr8=' ",
    );
    append_nonce(&mut s, nonce);
    s.append(
        "; connect-src 'self' https://accounts.google.com/gsi/status; frame-src https://accounts.google.com/gsi ",
    );
    append_nonce(&mut s, nonce);
    s.append("; default-src 'self' 'unsafe-inline';");
    proof {
        assert(s@ =~= csp_policy(nonce));
    }
    s
}

/// The layer that gives each request a fresh nonce.
pub struct NonceLayer;

/// The service a `NonceLayer` wraps around an inner service.
pub struct NonceService<S> {
    pub inner: S,
}

impl NonceLayer {
    /// Wraps an inner service.
    pub fn layer<S>(&self, inner: S) -> (r: NonceService<S>)
        ensures
            r.inner == inner,
    {
        NonceService { inner }
    }
}

/// The layer that attaches the policy header to each response.
pub struct CspLayer;

/// The service a `CspLayer` wraps around an inner service: the inner
/// service and the name of the header to attach.
pub struct CspService<S> {
    pub inner: S,
    pub header_name: String,
}

impl CspLayer {
    /// Wraps an inner service, naming the policy header.
    pub fn layer<S>(&self, inner: S) -> (r: CspService<S>)
        ensures
            r.inner == inner,
            r.header_name@ == "content-security-policy"@,
    {
        CspService { inner, header_name: "content-security-policy".to_owned() }
    }
}

} // verus!
