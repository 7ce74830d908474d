use vstd::prelude::*;

use crate::auth::{decision_for, refresh_failure, refresh_outcome};
use crate::decision::AuthDecision;
use crate::error::AuthError;
use crate::session::Session;
use crate::store::revoked_model;
use crate::time::Timestamp;
use crate::token::{AccessToken, RefreshToken, RefreshTokenId};

verus! {

/// Once a session has been revoked, a token naming it is reported `Revoked`
/// at every point in time, before its expiry as well as after.
pub proof fn revoked_session_reports_revoked(
    sessions: Map<Seq<char>, Session>,
    token: AccessToken,
    now: Timestamp,
)
    requires
        token.claimed_session() matches Some(id) && sessions.contains_key(id),
    ensures
        decision_for(
            revoked_model(sessions, token.0@),
            token.claimed_session(),
            now,
        ) == AuthDecision::Revoked,
{
}

/// Revocation is permanent: no later revocation and no later refresh attempt,
/// whatever its token, time, new generation and outcome, clears it, so the
/// session is never reported `Valid` again.
pub proof fn revocation_is_permanent(
    sessions: Map<Seq<char>, Session>,
    id: Seq<char>,
    other: Seq<char>,
    token: RefreshToken,
    now: Timestamp,
    fresh: RefreshTokenId,
    r: Result<(AccessToken, RefreshToken), AuthError>,
    after: Map<Seq<char>, Session>,
)
    requires
        sessions.contains_key(id),
        sessions[id].revoked(),
        refresh_outcome(sessions, token, now, fresh, r, after),
    ensures
        revoked_model(sessions, other).contains_key(id),
        revoked_model(sessions, other)[id].revoked(),
        revoked_model(sessions, other)[id].revoked_at == sessions[id].revoked_at,
        after.contains_key(id),
        after[id].revoked(),
        after[id].revoked_at == sessions[id].revoked_at,
{
}

/// A session that has expired at `now` is reported `Expired`, unless it is
/// revoked, in which case `Revoked` wins.
pub proof fn expired_session_reports_expired(
    sessions: Map<Seq<char>, Session>,
    token: AccessToken,
    now: Timestamp,
)
    requires
        token.claimed_session() matches Some(id) && sessions.contains_key(id) && sessions[id].expired(
            now,
        ),
    ensures
        decision_for(sessions, token.claimed_session(), now) == if sessions[token.0@].revoked() {
            AuthDecision::Revoked
        } else {
            AuthDecision::Expired
        },
{
}

/// A token naming a session that is not stored is reported `Invalid`.
pub proof fn missing_session_reports_invalid(
    sessions: Map<Seq<char>, Session>,
    token: AccessToken,
    now: Timestamp,
)
    requires
        token.claimed_session() matches Some(id) && !sessions.contains_key(id),
    ensures
        decision_for(sessions, token.claimed_session(), now) == AuthDecision::Invalid,
{
}

/// A token with empty content is reported `Invalid` whatever the store holds.
pub proof fn empty_token_reports_invalid(
    sessions: Map<Seq<char>, Session>,
    other_sessions: Map<Seq<char>, Session>,
    token: AccessToken,
    now: Timestamp,
)
    requires
        token.0@.len() == 0,
    ensures
        decision_for(sessions, token.claimed_session(), now) == AuthDecision::Invalid,
        decision_for(other_sessions, token.claimed_session(), now) == AuthDecision::Invalid,
{
}

/// Revoking twice leaves the same stored state as revoking once.
pub proof fn revoke_is_idempotent(sessions: Map<Seq<char>, Session>, id: Seq<char>)
    ensures
        revoked_model(revoked_model(sessions, id), id) == revoked_model(sessions, id),
{
    assert(revoked_model(revoked_model(sessions, id), id) =~= revoked_model(sessions, id));
}

/// A successful refresh returns a generation different from the one
/// presented, and the presented one is rejected afterwards: as reused while
/// the session lasts, as expired after.
pub proof fn rotation_rejects_old_generation(
    sessions: Map<Seq<char>, Session>,
    token: RefreshToken,
    now: Timestamp,
    fresh: RefreshTokenId,
    r: Result<(AccessToken, RefreshToken), AuthError>,
    after: Map<Seq<char>, Session>,
    later: Timestamp,
)
    requires
        refresh_outcome(sessions, token, now, fresh, r, after),
        r is Ok,
        fresh@ != token.refresh_token_id@,
    ensures
        r matches Ok((_, refresh)) && refresh.refresh_token_id@ != token.refresh_token_id@,
        refresh_failure(after, token, later) == if after[token.session_id@].expired(later) {
            Some(AuthError::SessionExpired)
        } else {
            Some(AuthError::RefreshTokenReused)
        },
{
}

/// Replaying a stale refresh token fails with `RefreshTokenReused` and
/// revokes the session at once: afterwards every access token naming it is
/// reported `Revoked`.
pub proof fn stale_replay_revokes_session(
    sessions: Map<Seq<char>, Session>,
    token: RefreshToken,
    now: Timestamp,
    fresh: RefreshTokenId,
    r: Result<(AccessToken, RefreshToken), AuthError>,
    after: Map<Seq<char>, Session>,
    access: AccessToken,
    later: Timestamp,
)
    requires
        refresh_outcome(sessions, token, now, fresh, r, after),
        sessions.contains_key(token.session_id@),
        !sessions[token.session_id@].revoked(),
        !sessions[token.session_id@].expired(now),
        token.refresh_token_id@ != sessions[token.session_id@].current_refresh_token_id@,
        access.claimed_session() == Some(token.session_id@),
    ensures
        r == Err::<(AccessToken, RefreshToken), AuthError>(AuthError::RefreshTokenReused),
        decision_for(after, access.claimed_session(), later) == AuthDecision::Revoked,
{
}

/// Rotating with a generation different from the presented one and then
/// presenting the old refresh token again fails with `RefreshTokenReused`,
/// after which the session is reported `Revoked`.
pub proof fn refresh_then_replay_revokes_session(
    sessions: Map<Seq<char>, Session>,
    token: RefreshToken,
    now: Timestamp,
    fresh: RefreshTokenId,
    r1: Result<(AccessToken, RefreshToken), AuthError>,
    middle: Map<Seq<char>, Session>,
    fresh2: RefreshTokenId,
    r2: Result<(AccessToken, RefreshToken), AuthError>,
    after: Map<Seq<char>, Session>,
    access: AccessToken,
    later: Timestamp,
)
    requires
        refresh_outcome(sessions, token, now, fresh, r1, middle),
        r1 is Ok,
        fresh@ != token.refresh_token_id@,
        refresh_outcome(middle, token, now, fresh2, r2, after),
        access.claimed_session() == Some(token.session_id@),
    ensures
        r2 == Err::<(AccessToken, RefreshToken), AuthError>(AuthError::RefreshTokenReused),
        decision_for(after, access.claimed_session(), later) == AuthDecision::Revoked,
{
    rotation_rejects_old_generation(sessions, token, now, fresh, r1, middle, now);
    stale_replay_revokes_session(middle, token, now, fresh2, r2, after, access, later);
}

} // verus!
