use vstd::prelude::*;

use crate::session::Session;

verus! {

/// The outcome of validating an access token.
#[derive(Debug)]
pub enum AuthDecision {
    Valid(Session),
    Expired,
    Revoked,
    Invalid,
}

impl Clone for AuthDecision {
    fn clone(&self) -> (r: Self)
        ensures
            r == *self,
    {
        match self {
            AuthDecision::Valid(s) => AuthDecision::Valid(s.clone()),
            AuthDecision::Expired => AuthDecision::Expired,
            AuthDecision::Revoked => AuthDecision::Revoked,
            AuthDecision::Invalid => AuthDecision::Invalid,
        }
    }
}

} // verus!
