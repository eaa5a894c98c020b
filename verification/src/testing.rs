//! Fixtures for exercising identity-dependent code without a login flow.

use vstd::prelude::*;

use crate::jwtutils::Claims;

verus! {

/// A claim record for `sub` with every other field empty.
pub fn test_claims(sub: String) -> (r: Claims)
    ensures
        r.sub == sub,
        r.iss@ == Seq::<char>::empty(),
        r.azp@ == Seq::<char>::empty(),
        r.aud@ == Seq::<char>::empty(),
        r.iat == 0,
        r.exp == 0,
        r.picture@ == Seq::<char>::empty(),
        r.given_name@ == Seq::<char>::empty(),
        r.family_name@ == Seq::<char>::empty(),
        r.name@ == Seq::<char>::empty(),
{
    Claims {
        iss: String::new(),
        azp: String::new(),
        aud: String::new(),
        sub,
        iat: 0,
        exp: 0,
        picture: String::new(),
        given_name: String::new(),
        family_name: String::new(),
        name: String::new(),
    }
}

/// An extractor that hands out one fixed claim record.
pub struct DummyIdClaimExtractor {
    claims: Claims,
}

impl DummyIdClaimExtractor {
    /// The fixed claims this extractor hands out.
    pub closed spec fn spec_claims(&self) -> Claims {
        self.claims
    }

    /// An extractor whose claims name `google_sub` and nothing else:
    /// every other field is empty or zero.
    pub fn new(google_sub: String) -> (r: Self)
        ensures
            r.spec_claims().sub == google_sub,
            r.spec_claims().iss@ == Seq::<char>::empty(),
            r.spec_claims().azp@ == Seq::<char>::empty(),
            r.spec_claims().aud@ == Seq::<char>::empty(),
            r.spec_claims().iat == 0,
            r.spec_claims().exp == 0,
            r.spec_claims().picture@ == Seq::<char>::empty(),
            r.spec_claims().given_name@ == Seq::<char>::empty(),
            r.spec_claims().family_name@ == Seq::<char>::empty(),
            r.spec_claims().name@ == Seq::<char>::empty(),
    {
        DummyIdClaimExtractor { claims: test_claims(google_sub) }
    }

    /// The claims, as every request would receive them.
    pub fn claims(&self) -> (r: &Claims)
        ensures
            r == self.spec_claims(),
    {
        &self.claims
    }
}

} // verus!
