use vstd::prelude::*;

use crate::session::{Session, SessionId};

pub mod memory;

pub use memory::InMemorySessionStore;

verus! {

/// Every stored session sits under its own identifier.
pub open spec fn keyed_by_id(sessions: Map<Seq<char>, Session>) -> bool {
    forall|k: Seq<char>| #[trigger] sessions.contains_key(k) ==> sessions[k].id@ == k
}

/// The stored sessions after revoking `id`: a present session gets a
/// revocation time if it has none; anything else is left as it is.
pub open spec fn revoked_model(sessions: Map<Seq<char>, Session>, id: Seq<char>) -> Map<
    Seq<char>,
    Session,
> {
    if sessions.contains_key(id) {
        sessions.insert(id, sessions[id].with_revocation())
    } else {
        sessions
    }
}

/// The session stored under `id`, if any.
pub open spec fn lookup(sessions: Map<Seq<char>, Session>, id: Seq<char>) -> Option<Session> {
    if sessions.contains_key(id) {
        Some(sessions[id])
    } else {
        None
    }
}

/// Persistence of sessions, keyed by their identifier.
pub trait SessionStore {
    /// The stored sessions, by identifier.
    spec fn sessions(&self) -> Map<Seq<char>, Session>;

    /// The store's internal invariant.
    spec fn well_formed(&self) -> bool;

    /// A well-formed store keeps each session under its own identifier.
    proof fn lemma_keyed_by_id(&self)
        requires
            self.well_formed(),
        ensures
            keyed_by_id(self.sessions()),
    ;

    /// The current state of the session `id`, or `None` if absent.
    fn load(&self, id: &SessionId) -> (r: Option<Session>)
        requires
            self.well_formed(),
        ensures
            r == lookup(self.sessions(), id@),
    ;

    /// Stores `session` under its identifier, replacing any earlier state.
    fn save(&mut self, session: Session)
        requires
            old(self).well_formed(),
        ensures
            final(self).well_formed(),
            final(self).sessions() == old(self).sessions().insert(session.id@, session),
    ;

    /// Sets the revocation time of the session `id` if it is unset; otherwise,
    /// or if there is no such session, does nothing.
    fn revoke(&mut self, id: &SessionId)
        requires
            old(self).well_formed(),
        ensures
            final(self).well_formed(),
            final(self).sessions() == revoked_model(old(self).sessions(), id@),
    ;
}

} // verus!
