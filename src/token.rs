use vstd::prelude::*;

use crate::session::SessionId;

verus! {

/// A bearer credential presented on each request.
///
/// In this core its content names the session directly; empty content names
/// nothing.
#[derive(Debug)]
pub struct AccessToken(pub String);

/// The identifier of one rotation generation of a session's refresh token.
#[derive(Debug, Eq, Hash)]
pub struct RefreshTokenId(pub String);

/// A refresh credential: the session it belongs to and its generation.
#[derive(Debug)]
pub struct RefreshToken {
    pub session_id: SessionId,
    pub refresh_token_id: RefreshTokenId,
}

impl View for RefreshTokenId {
    type V = Seq<char>;

    open spec fn view(&self) -> Seq<char> {
        self.0@
    }
}

impl PartialEq for RefreshTokenId {
    fn eq(&self, other: &RefreshTokenId) -> (r: bool) {
        self.0 == other.0
    }
}

impl vstd::std_specs::cmp::PartialEqSpecImpl for RefreshTokenId {
    open spec fn obeys_eq_spec() -> bool {
        true
    }

    open spec fn eq_spec(&self, other: &RefreshTokenId) -> bool {
        self@ == other@
    }
}

impl Clone for RefreshTokenId {
    fn clone(&self) -> (r: Self)
        ensures
            r == *self,
    {
        RefreshTokenId(self.0.clone())
    }
}

impl Clone for AccessToken {
    fn clone(&self) -> (r: Self)
        ensures
            r == *self,
    {
        AccessToken(self.0.clone())
    }
}

impl Clone for RefreshToken {
    fn clone(&self) -> (r: Self)
        ensures
            r == *self,
    {
        RefreshToken {
            session_id: self.session_id.clone(),
            refresh_token_id: self.refresh_token_id.clone(),
        }
    }
}

impl AccessToken {
    /// The session identifier that the token claims, if it claims one.
    pub open spec fn claimed_session(&self) -> Option<Seq<char>> {
        if self.0@.len() == 0 {
            None
        } else {
            Some(self.0@)
        }
    }

    /// Extracts the session identifier carried by the token: `None` for empty
    /// content, else the content itself.
    pub fn session_id(&self) -> (r: Option<String>)
        ensures
            r matches Some(s) ==> self.claimed_session() == Some(s@),
            r is None ==> self.claimed_session() is None,
    {
        if self.0.as_str().is_empty() {
            None
        } else {
            Some(self.0.clone())
        }
    }
}

} // verus!
