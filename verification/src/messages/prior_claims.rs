//! The rotation claim: the assertion that a sender has moved from a prior
//! identity to a new one.

use vstd::prelude::*;
use super::texts::copy_optional_text;

verus! {

/// A claim that the identity `current` has replaced the identity `prior`.
///
/// The claim is signed independently by the key of the prior identity;
/// a message only carries it and hands it out.
#[derive(Debug, PartialEq, Eq)]
pub struct PriorClaims {
    iss: String,
    sub: String,
    iat: usize,
    jti: Option<String>,
}

/// What a rotation claim says.
pub struct PriorClaimsView {
    /// The identity that was rotated away from.
    pub prior: Seq<char>,
    /// The identity that was rotated to.
    pub current: Seq<char>,
    /// When the claim was issued, in seconds since the epoch.
    pub issued_at: usize,
    /// The identifier of the claim, if it has one.
    pub claim_id: Option<Seq<char>>,
}

impl View for PriorClaims {
    type V = PriorClaimsView;

    closed spec fn view(&self) -> PriorClaimsView {
        PriorClaimsView {
            prior: self.iss@,
            current: self.sub@,
            issued_at: self.iat,
            claim_id: self.jti.deep_view(),
        }
    }
}

impl PriorClaims {
    /// A claim without an identifier.
    pub fn new(prior: String, current: String, issued_at: usize) -> (r: PriorClaims)
        ensures
            r@ == (PriorClaimsView {
                prior: prior@,
                current: current@,
                issued_at,
                claim_id: None,
            }),
    {
        PriorClaims { iss: prior, sub: current, iat: issued_at, jti: None }
    }

    /// The same claim under the identifier `claim_id`.
    pub fn with_claim_id(self, claim_id: String) -> (r: PriorClaims)
        ensures
            r@ == (PriorClaimsView { claim_id: Some(claim_id@), ..self@ }),
    {
        PriorClaims { iss: self.iss, sub: self.sub, iat: self.iat, jti: Some(claim_id) }
    }

    /// The identity that was rotated away from.
    pub fn prior(&self) -> (r: &String)
        ensures
            r@ == self@.prior,
    {
        &self.iss
    }

    /// The identity that was rotated to.
    pub fn current(&self) -> (r: &String)
        ensures
            r@ == self@.current,
    {
        &self.sub
    }

    /// When the claim was issued, in seconds since the epoch.
    pub fn issued_at(&self) -> (r: usize)
        ensures
            r == self@.issued_at,
    {
        self.iat
    }

    /// The identifier of the claim, if it has one.
    pub fn claim_id(&self) -> (r: &Option<String>)
        ensures
            r.deep_view() == self@.claim_id,
    {
        &self.jti
    }
}

impl Clone for PriorClaims {
    fn clone(&self) -> (r: PriorClaims)
        ensures
            r@ == self@,
    {
        PriorClaims {
            iss: self.iss.clone(),
            sub: self.sub.clone(),
            iat: self.iat,
            jti: copy_optional_text(&self.jti),
        }
    }
}

} // verus!
