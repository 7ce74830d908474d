use vstd::prelude::*;

use crate::decision::AuthDecision;
use crate::error::AuthError;
use crate::session::{Session, SessionId};
use crate::store::{revoked_model, SessionStore};
use crate::time::Timestamp;
use crate::token::{AccessToken, RefreshToken, RefreshTokenId};

verus! {

/// The decision for a token that claims `claimed` when the store holds
/// `sessions` and the time is `now`.
pub open spec fn decision_for(
    sessions: Map<Seq<char>, Session>,
    claimed: Option<Seq<char>>,
    now: Timestamp,
) -> AuthDecision {
    match claimed {
        None => AuthDecision::Invalid,
        Some(id) => if !sessions.contains_key(id) {
            AuthDecision::Invalid
        } else if sessions[id].revoked() {
            AuthDecision::Revoked
        } else if sessions[id].expired(now) {
            AuthDecision::Expired
        } else {
            AuthDecision::Valid(sessions[id])
        },
    }
}

/// Why presenting `token` at `now` cannot refresh its session, or `None` when
/// it can.
pub open spec fn refresh_failure(
    sessions: Map<Seq<char>, Session>,
    token: RefreshToken,
    now: Timestamp,
) -> Option<AuthError> {
    let id = token.session_id@;
    if !sessions.contains_key(id) {
        Some(AuthError::InvalidRefreshToken)
    } else if sessions[id].revoked() {
        Some(AuthError::SessionRevoked)
    } else if sessions[id].expired(now) {
        Some(AuthError::SessionExpired)
    } else if token.refresh_token_id@ != sessions[id].current_refresh_token_id@ {
        Some(AuthError::RefreshTokenReused)
    } else {
        None
    }
}

/// The stored sessions after a failed refresh: a reused token revokes its
/// session, any other failure changes nothing.
pub open spec fn after_failure(
    sessions: Map<Seq<char>, Session>,
    id: Seq<char>,
    e: AuthError,
) -> Map<Seq<char>, Session> {
    if e == AuthError::RefreshTokenReused {
        revoked_model(sessions, id)
    } else {
        sessions
    }
}

/// The stored sessions after the session `id` rotated to `fresh`.
pub open spec fn after_rotation(
    sessions: Map<Seq<char>, Session>,
    id: Seq<char>,
    fresh: RefreshTokenId,
) -> Map<Seq<char>, Session> {
    sessions.insert(id, Session { current_refresh_token_id: fresh, ..sessions[id] })
}

/// The outcome of refreshing with `token` at `now` when the new generation is
/// `fresh`: the result, and the sessions stored afterwards.
pub open spec fn refresh_outcome(
    sessions: Map<Seq<char>, Session>,
    token: RefreshToken,
    now: Timestamp,
    fresh: RefreshTokenId,
    r: Result<(AccessToken, RefreshToken), AuthError>,
    after: Map<Seq<char>, Session>,
) -> bool {
    match refresh_failure(sessions, token, now) {
        Some(e) => r == Err::<(AccessToken, RefreshToken), AuthError>(e) && after == after_failure(
            sessions,
            token.session_id@,
            e,
        ),
        None => {
            &&& r matches Ok((access, refresh)) && {
                &&& access.0@ == token.session_id@
                &&& refresh.session_id@ == token.session_id@
                &&& refresh.refresh_token_id == fresh
            }
            &&& after == after_rotation(sessions, token.session_id@, fresh)
        },
    }
}

/// Relies on uuid::Uuid::new_v4 for a random identifier, written out by its
/// Display impl in the hyphenated lower-case form of 36 characters.
/// new_v4 panics only when the operating system's random source fails.
#[verifier::external_body]
fn random_uuid_text() -> (r: String)
    ensures
        r@.len() == 36,
{
    uuid::Uuid::new_v4().to_string()
}

/// A new refresh token identifier: `rt-` followed by a random UUID.
fn new_refresh_token_id() -> (r: RefreshTokenId)
    ensures
        r@.len() == 39,
        r@.subrange(0, 3) == "rt-"@,
{
    let u = random_uuid_text();
    let mut s = String::from_str("rt-");
    s.append(u.as_str());
    proof {
        reveal_strlit("rt-");
        assert(s@.subrange(0, 3) =~= "rt-"@);
    }
    RefreshTokenId(s)
}

/// Validates tokens and rotates refresh tokens against one owned store.
pub struct Authenticator<S: SessionStore> {
    pub store: S,
}

impl<S: SessionStore> Authenticator<S> {
    /// An authenticator that owns `store`.
    pub fn new(store: S) -> (r: Self)
        ensures
            r.store == store,
    {
        Authenticator { store }
    }

    /// Decides whether the access token names a usable session at `now`.
    /// Revocation is checked before expiry. Nothing is changed.
    pub fn validate_access_token(&self, token: &AccessToken, now: Timestamp) -> (r: AuthDecision)
        requires
            self.store.well_formed(),
        ensures
            r == decision_for(self.store.sessions(), token.claimed_session(), now),
    {
        let session_id = match token.session_id() {
            Some(id) => SessionId(id),
            None => return AuthDecision::Invalid,
        };
        let session = match self.store.load(&session_id) {
            Some(session) => session,
            None => return AuthDecision::Invalid,
        };
        if session.is_revoked() {
            return AuthDecision::Revoked;
        }
        if session.is_expired(now) {
            return AuthDecision::Expired;
        }
        AuthDecision::Valid(session)
    }

    /// Revokes a session (server-side logout). This operation is idempotent.
    pub fn revoke_session(&mut self, session_id: &SessionId)
        requires
            old(self).store.well_formed(),
        ensures
            final(self).store.well_formed(),
            final(self).store.sessions() == revoked_model(old(self).store.sessions(), session_id@),
    {
        self.store.revoke(session_id);
    }

    /// Runs the checks of a refresh: the session must exist, be neither
    /// revoked nor expired, and hold `refresh_token` as its current
    /// generation. A stale generation revokes the session.
    fn check_refresh(&mut self, refresh_token: &RefreshToken, now: Timestamp) -> (r: Result<
        Session,
        AuthError,
    >)
        requires
            old(self).store.well_formed(),
        ensures
            final(self).store.well_formed(),
            match refresh_failure(old(self).store.sessions(), *refresh_token, now) {
                Some(e) => r == Err::<Session, AuthError>(e) && final(self).store.sessions()
                    == after_failure(old(self).store.sessions(), refresh_token.session_id@, e),
                None => r == Ok::<Session, AuthError>(
                    old(self).store.sessions()[refresh_token.session_id@],
                ) && final(self).store.sessions() == old(self).store.sessions(),
            },
    {
        let session = match self.store.load(&refresh_token.session_id) {
            Some(s) => s,
            None => return Err(AuthError::InvalidRefreshToken),
        };
        if session.is_revoked() {
            return Err(AuthError::SessionRevoked);
        }
        if session.is_expired(now) {
            return Err(AuthError::SessionExpired);
        }
        proof {
            self.store.lemma_keyed_by_id();
        }
        if refresh_token.refresh_token_id != session.current_refresh_token_id {
            self.store.revoke(&session.id);
            return Err(AuthError::RefreshTokenReused);
        }
        Ok(session)
    }

    /// Moves `session` to the generation `fresh`, stores it, and issues the
    /// new credential pair.
    fn rotate(&mut self, session: Session, fresh: RefreshTokenId) -> (r: (
        AccessToken,
        RefreshToken,
    ))
        requires
            old(self).store.well_formed(),
        ensures
            final(self).store.well_formed(),
            final(self).store.sessions() == old(self).store.sessions().insert(
                session.id@,
                Session { current_refresh_token_id: fresh, ..session },
            ),
            r.0.0@ == session.id@,
            r.1.session_id@ == session.id@,
            r.1.refresh_token_id == fresh,
    {
        let mut session = session;
        session.current_refresh_token_id = fresh.clone();
        let access_token = AccessToken(session.id.0.clone());
        let session_id = session.id.clone();
        self.store.save(session);
        let new_refresh_token = RefreshToken { session_id, refresh_token_id: fresh };
        (access_token, new_refresh_token)
    }

    /// Refreshes with `refresh_token` at `now`, moving the session to the
    /// generation `fresh` on success.
    pub fn refresh_session_with_id(
        &mut self,
        refresh_token: &RefreshToken,
        now: Timestamp,
        fresh: RefreshTokenId,
    ) -> (r: Result<(AccessToken, RefreshToken), AuthError>)
        requires
            old(self).store.well_formed(),
        ensures
            final(self).store.well_formed(),
            refresh_outcome(
                old(self).store.sessions(),
                *refresh_token,
                now,
                fresh,
                r,
                final(self).store.sessions(),
            ),
    {
        proof {
            self.store.lemma_keyed_by_id();
        }
        let session = match self.check_refresh(refresh_token, now) {
            Ok(s) => s,
            Err(e) => return Err(e),
        };
        Ok(self.rotate(session, fresh))
    }

    /// Refreshes with `refresh_token` at `now`: on success the session moves
    /// to a new random generation, which is returned with a new access token.
    /// A stale refresh token revokes the session.
    pub fn refresh_session(&mut self, refresh_token: &RefreshToken, now: Timestamp) -> (r: Result<
        (AccessToken, RefreshToken),
        AuthError,
    >)
        requires
            old(self).store.well_formed(),
        ensures
            final(self).store.well_formed(),
            match r {
                Ok((_, refresh)) => {
                    &&& refresh.refresh_token_id@.len() == 39
                    &&& refresh.refresh_token_id@.subrange(0, 3) == "rt-"@
                    &&& refresh_outcome(
                        old(self).store.sessions(),
                        *refresh_token,
                        now,
                        refresh.refresh_token_id,
                        r,
                        final(self).store.sessions(),
                    )
                },
                Err(e) => {
                    &&& refresh_failure(old(self).store.sessions(), *refresh_token, now) == Some(e)
                    &&& final(self).store.sessions() == after_failure(
                        old(self).store.sessions(),
                        refresh_token.session_id@,
                        e,
                    )
                },
            },
    {
        proof {
            self.store.lemma_keyed_by_id();
        }
        let session = match self.check_refresh(refresh_token, now) {
            Ok(s) => s,
            Err(e) => return Err(e),
        };
        let fresh = new_refresh_token_id();
        Ok(self.rotate(session, fresh))
    }
}

} // verus!
