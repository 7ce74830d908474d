use vstd::prelude::*;

use crate::time::Timestamp;
use crate::token::RefreshTokenId;

verus! {

/// The unique identifier of a session; a store is keyed by it.
#[derive(Debug, Eq, Hash)]
pub struct SessionId(pub String);

/// The server-side record of an authenticated principal's continued access.
#[derive(Debug)]
pub struct Session {
    pub id: SessionId,
    pub subject: String,
    pub created_at: Timestamp,
    pub expires_at: Timestamp,
    pub revoked_at: Option<Timestamp>,
    /// The currently valid refresh token identifier.
    /// Any mismatch indicates reuse or forgery.
    pub current_refresh_token_id: RefreshTokenId,
}

impl View for SessionId {
    type V = Seq<char>;

    open spec fn view(&self) -> Seq<char> {
        self.0@
    }
}

impl PartialEq for SessionId {
    fn eq(&self, other: &SessionId) -> (r: bool) {
        self.0 == other.0
    }
}

impl vstd::std_specs::cmp::PartialEqSpecImpl for SessionId {
    open spec fn obeys_eq_spec() -> bool {
        true
    }

    open spec fn eq_spec(&self, other: &SessionId) -> bool {
        self@ == other@
    }
}

impl Clone for SessionId {
    fn clone(&self) -> (r: Self)
        ensures
            r == *self,
    {
        SessionId(self.0.clone())
    }
}

impl Clone for Session {
    fn clone(&self) -> (r: Self)
        ensures
            r == *self,
    {
        Session {
            id: self.id.clone(),
            subject: self.subject.clone(),
            created_at: self.created_at,
            expires_at: self.expires_at,
            revoked_at: self.revoked_at,
            current_refresh_token_id: self.current_refresh_token_id.clone(),
        }
    }
}

impl Session {
    /// The session carries a revocation time.
    pub open spec fn revoked(&self) -> bool {
        self.revoked_at is Some
    }

    /// The session has expired at `now`; the boundary itself counts as expired.
    pub open spec fn expired(&self, now: Timestamp) -> bool {
        now.0 >= self.expires_at.0
    }

    /// The session is neither revoked nor expired at `now`.
    pub open spec fn active(&self, now: Timestamp) -> bool {
        !self.revoked() && !self.expired(now)
    }

    /// The session as it stands after a revocation: an existing revocation
    /// time is kept, else the expiry time is recorded.
    pub open spec fn with_revocation(self) -> Session {
        Session {
            revoked_at: if self.revoked_at is Some { self.revoked_at } else { Some(self.expires_at) },
            ..self
        }
    }

    /// Returns true if the session has been explicitly revoked.
    pub fn is_revoked(&self) -> (r: bool)
        ensures
            r == self.revoked(),
    {
        self.revoked_at.is_some()
    }

    /// Returns true if the session has expired at the given time.
    pub fn is_expired(&self, now: Timestamp) -> (r: bool)
        ensures
            r == self.expired(now),
    {
        now.0 >= self.expires_at.0
    }

    /// Returns true if the session is neither revoked nor expired at the given
    /// time.
    ///
    /// This does not mean authenticated: only that the session has not
    /// expired and has not been revoked.
    pub fn is_active(&self, now: Timestamp) -> (r: bool)
        ensures
            r == self.active(now),
    {
        !self.is_revoked() && !self.is_expired(now)
    }
}

} // verus!
