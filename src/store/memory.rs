use vstd::prelude::*;

use crate::session::{Session, SessionId};
use crate::store::{keyed_by_id, lookup, revoked_model, SessionStore};

verus! {

/// A process-local store that keeps its sessions in a vector with distinct
/// identifiers.
pub struct InMemorySessionStore {
    sessions: Vec<Session>,
}

/// No two entries share an identifier.
pub open spec fn distinct_ids(s: Seq<Session>) -> bool {
    forall|i: int, j: int|
        0 <= i < s.len() && 0 <= j < s.len() && i != j ==> (#[trigger] s[i]).id@ != (#[trigger] s[j]).id@
}

/// Some entry carries the identifier `k`.
pub open spec fn holds_id(s: Seq<Session>, k: Seq<char>) -> bool {
    exists|i: int| 0 <= i < s.len() && (#[trigger] s[i]).id@ == k
}

/// The entries as a map from identifier to session.
pub open spec fn entries_map(s: Seq<Session>) -> Map<Seq<char>, Session> {
    Map::new(
        |k: Seq<char>| holds_id(s, k),
        |k: Seq<char>| s[choose|i: int| 0 <= i < s.len() && (#[trigger] s[i]).id@ == k],
    )
}

proof fn lemma_entry_at(s: Seq<Session>, i: int)
    requires
        distinct_ids(s),
        0 <= i < s.len(),
    ensures
        entries_map(s).contains_key(s[i].id@),
        entries_map(s)[s[i].id@] == s[i],
{
    let k = s[i].id@;
    assert(holds_id(s, k));
    let j = choose|j: int| 0 <= j < s.len() && (#[trigger] s[j]).id@ == k;
    assert(i == j);
}

proof fn lemma_keyed(s: Seq<Session>)
    ensures
        keyed_by_id(entries_map(s)),
{
    assert forall|k: Seq<char>| #[trigger] entries_map(s).contains_key(k) implies entries_map(
        s,
    )[k].id@ == k by {
        let j = choose|j: int| 0 <= j < s.len() && (#[trigger] s[j]).id@ == k;
    }
}

proof fn lemma_update(s: Seq<Session>, i: int, v: Session)
    requires
        distinct_ids(s),
        0 <= i < s.len(),
        v.id@ == s[i].id@,
    ensures
        distinct_ids(s.update(i, v)),
        entries_map(s.update(i, v)) == entries_map(s).insert(v.id@, v),
{
    let t = s.update(i, v);
    assert forall|a: int, b: int|
        0 <= a < t.len() && 0 <= b < t.len() && a != b implies (#[trigger] t[a]).id@ != (
        #[trigger] t[b]).id@ by {
        assert(t[a].id@ == s[a].id@);
        assert(t[b].id@ == s[b].id@);
    }
    let m = entries_map(s).insert(v.id@, v);
    assert forall|k: Seq<char>| #[trigger] entries_map(t).contains_key(k) <==> m.contains_key(k) by {
        if holds_id(t, k) {
            let j = choose|j: int| 0 <= j < t.len() && (#[trigger] t[j]).id@ == k;
            assert(s[j].id@ == k);
        }
        if holds_id(s, k) {
            let j = choose|j: int| 0 <= j < s.len() && (#[trigger] s[j]).id@ == k;
            assert(t[j].id@ == k);
        }
        if k == v.id@ {
            assert(t[i].id@ == k);
        }
    }
    assert forall|k: Seq<char>| #[trigger] entries_map(t).contains_key(k) implies entries_map(t)[k]
        == m[k] by {
        let j = choose|j: int| 0 <= j < t.len() && (#[trigger] t[j]).id@ == k;
        lemma_entry_at(t, j);
        if j != i {
            lemma_entry_at(s, j);
        }
    }
    assert(entries_map(t) =~= m);
}

proof fn lemma_push(s: Seq<Session>, v: Session)
    requires
        distinct_ids(s),
        !holds_id(s, v.id@),
    ensures
        distinct_ids(s.push(v)),
        entries_map(s.push(v)) == entries_map(s).insert(v.id@, v),
{
    let t = s.push(v);
    assert forall|a: int, b: int|
        0 <= a < t.len() && 0 <= b < t.len() && a != b implies (#[trigger] t[a]).id@ != (
        #[trigger] t[b]).id@ by {
        if a == s.len() {
            assert(s[b] == t[b]);
        } else if b == s.len() {
            assert(s[a] == t[a]);
        } else {
            assert(s[a] == t[a] && s[b] == t[b]);
        }
    }
    let m = entries_map(s).insert(v.id@, v);
    assert forall|k: Seq<char>| #[trigger] entries_map(t).contains_key(k) <==> m.contains_key(k) by {
        if holds_id(t, k) {
            let j = choose|j: int| 0 <= j < t.len() && (#[trigger] t[j]).id@ == k;
            if j < s.len() {
                assert(s[j] == t[j]);
            }
        }
        if holds_id(s, k) {
            let j = choose|j: int| 0 <= j < s.len() && (#[trigger] s[j]).id@ == k;
            assert(t[j] == s[j]);
        }
        if k == v.id@ {
            assert(t[s.len() as int] == v);
        }
    }
    assert forall|k: Seq<char>| #[trigger] entries_map(t).contains_key(k) implies entries_map(t)[k]
        == m[k] by {
        let j = choose|j: int| 0 <= j < t.len() && (#[trigger] t[j]).id@ == k;
        lemma_entry_at(t, j);
        if j < s.len() {
            assert(s[j] == t[j]);
            lemma_entry_at(s, j);
        }
    }
    assert(entries_map(t) =~= m);
}

impl InMemorySessionStore {
    /// An empty store.
    pub fn new() -> (r: Self)
        ensures
            r.well_formed(),
            r.sessions() == Map::<Seq<char>, Session>::empty(),
    {
        let r = InMemorySessionStore { sessions: Vec::new() };
        assert(r.sessions() =~= Map::<Seq<char>, Session>::empty());
        r
    }

    /// The position of the session `id`, if it is stored.
    fn position(&self, id: &SessionId) -> (r: Option<usize>)
        requires
            self.well_formed(),
        ensures
            match r {
                Some(i) => i < self.sessions@.len() && self.sessions@[i as int].id@ == id@,
                None => !holds_id(self.sessions@, id@),
            },
    {
        let mut i: usize = 0;
        while i < self.sessions.len()
            invariant
                i <= self.sessions@.len(),
                forall|j: int| 0 <= j < i ==> (#[trigger] self.sessions@[j]).id@ != id@,
            decreases self.sessions@.len() - i,
        {
            if self.sessions[i].id == *id {
                return Some(i);
            }
            i = i + 1;
        }
        None
    }
}

impl SessionStore for InMemorySessionStore {
    closed spec fn sessions(&self) -> Map<Seq<char>, Session> {
        entries_map(self.sessions@)
    }

    closed spec fn well_formed(&self) -> bool {
        distinct_ids(self.sessions@)
    }

    proof fn lemma_keyed_by_id(&self) {
        lemma_keyed(self.sessions@);
    }

    fn load(&self, id: &SessionId) -> (r: Option<Session>) {
        match self.position(id) {
            Some(i) => {
                proof {
                    lemma_entry_at(self.sessions@, i as int);
                }
                Some(self.sessions[i].clone())
            },
            None => None,
        }
    }

    fn save(&mut self, session: Session) {
        match self.position(&session.id) {
            Some(i) => {
                proof {
                    lemma_update(self.sessions@, i as int, session);
                }
                self.sessions.set(i, session);
            },
            None => {
                proof {
                    lemma_push(self.sessions@, session);
                }
                self.sessions.push(session);
            },
        }
    }

    fn revoke(&mut self, id: &SessionId) {
        if let Some(i) = self.position(id) {
            proof {
                lemma_entry_at(self.sessions@, i as int);
            }
            if self.sessions[i].revoked_at.is_none() {
                let mut s = self.sessions[i].clone();
                s.revoked_at = Some(s.expires_at);
                proof {
                    lemma_update(self.sessions@, i as int, s);
                }
                self.sessions.set(i, s);
            } else {
                assert(self.sessions@[i as int].with_revocation() == self.sessions@[i as int]);
                assert(self.sessions() =~= revoked_model(self.sessions(), id@));
            }
        }
    }
}

} // verus!
