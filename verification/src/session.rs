//! The session store: the worker's private map from conversation identifiers
//! to conversation history.
//!
//! In this design every inbound request is a fresh, stateless conversation:
//! the worker creates a session immediately before invoking the engine and
//! destroys it immediately after the reply is produced. Well-formedness
//! therefore bounds the store at one live session, identifiers are never
//! reused, and the store is empty at every request boundary — it cannot grow
//! across requests.

use vstd::prelude::*;

verus! {

/// One transient conversation: an identifier and the ordered turns so far.
pub struct Session {
    pub id: u64,
    pub history: Vec<String>,
}

/// The worker's store of live sessions.
pub struct SessionStore {
    sessions: Vec<Session>,
    next_id: u64,
}

impl SessionStore {
    /// The live sessions, in creation order.
    pub closed spec fn live(self) -> Seq<Session> {
        self.sessions@
    }

    /// The identifier the next created session will receive.
    pub closed spec fn fresh_id(self) -> u64 {
        self.next_id
    }

    /// How many sessions are live.
    pub open spec fn live_count(self) -> nat {
        self.live().len()
    }

    /// No session is live; the store is at a request boundary.
    pub open spec fn is_idle(self) -> bool {
        self.live_count() == 0
    }

    /// Whether a session with this identifier is live.
    pub open spec fn contains_id(self, id: u64) -> bool {
        exists|k: int| 0 <= k < self.live().len() && self.live()[k].id == id
    }

    /// At most one session is ever live, and every live identifier was
    /// handed out before the next fresh one — identifiers are never reused.
    pub open spec fn wf(self) -> bool {
        &&& self.live_count() <= 1
        &&& forall|k: int| 0 <= k < self.live().len() ==> self.live()[k].id < self.fresh_id()
    }

    /// An empty store.
    pub fn new() -> (s: SessionStore)
        ensures
            s.wf(),
            s.is_idle(),
            s.fresh_id() == 0,
    {
        SessionStore { sessions: Vec::new(), next_id: 0 }
    }

    /// How many sessions are live.
    pub fn count(&self) -> (n: usize)
        ensures
            n == self.live_count(),
    {
        self.sessions.len()
    }

    /// Whether a session with this identifier is live.
    pub fn contains(&self, id: u64) -> (b: bool)
        ensures
            b == self.contains_id(id),
    {
        let mut k: usize = 0;
        let n = self.sessions.len();
        let mut found = false;
        while k < n && !found
            invariant
                n == self.live().len(),
                k <= n,
                found ==> k < n && self.live()[k as int].id == id,
                !found ==> forall|j: int| 0 <= j < k ==> self.live()[j].id != id,
            decreases n - k + (if found { 0int } else { 1int }),
        {
            if self.sessions[k].id == id {
                found = true;
            } else {
                k += 1;
            }
        }
        found
    }

    /// Create a fresh session seeded with the request's prompt. Only ever
    /// called at a request boundary: the store must be idle, so the new
    /// session is the only live one.
    pub fn create(&mut self, prompt: String) -> (id: u64)
        requires
            old(self).wf(),
            old(self).is_idle(),
            old(self).fresh_id() < u64::MAX,
        ensures
            final(self).wf(),
            final(self).live_count() == 1,
            id == old(self).fresh_id(),
            final(self).contains_id(id),
            final(self).live()[0].id == id,
            final(self).live()[0].history@ =~= seq![prompt],
            final(self).fresh_id() == old(self).fresh_id() + 1,
    {
        let id = self.next_id;
        self.next_id = self.next_id + 1;
        let mut history: Vec<String> = Vec::new();
        history.push(prompt);
        self.sessions.push(Session { id, history });
        proof {
            assert(self.live()[0].id == id);
            assert(self.contains_id(id));
        }
        id
    }

    /// Destroy the session with this identifier, if it is live; any other
    /// session is kept. After the call no session with this identifier
    /// remains.
    pub fn remove(&mut self, id: u64)
        requires
            old(self).wf(),
        ensures
            final(self).wf(),
            !final(self).contains_id(id),
            final(self).fresh_id() == old(self).fresh_id(),
            old(self).contains_id(id) ==> final(self).is_idle(),
            !old(self).contains_id(id) ==> final(self).live() == old(self).live(),
    {
        if self.sessions.len() > 0 && self.sessions[0].id == id {
            self.sessions.clear();
        } else {
            proof {
                assert(forall|k: int|
                    0 <= k < self.live().len() ==> self.live()[k].id != id);
            }
        }
    }
}

/// Exclusivity: a well-formed store never holds two live sessions at once.
/// Construction yields a well-formed store and every operation preserves
/// well-formedness, so at no reachable instant do two conversation sessions
/// coexist — and the strictly sequential worker invokes the engine only
/// between creating and destroying the single live session.
pub proof fn lemma_session_exclusivity(s: SessionStore)
    requires
        s.wf(),
    ensures
        s.live_count() <= 1,
{
}

} // verus!
