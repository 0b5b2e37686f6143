//! Running-process session identities and lifecycle state.
use vstd::prelude::*;

use crate::route::{InstanceRef, RefView};
use crate::seqs::{
    first_index, lemma_filter_full_means_all, lemma_filter_keeps_all, lemma_first_index, position_by,
    retain_by,
};

verus! {

/// The identity of one game process.
#[derive(Clone, Debug, PartialEq, Eq, Hash)]
pub struct SessionId(pub String);

impl SessionId {
    pub fn new(value: &str) -> (r: Self)
        ensures
            r.0@ == value@,
    {
        SessionId(value.to_owned())
    }

    pub fn as_str(&self) -> (r: &str)
        ensures
            r@ == self.0@,
    {
        self.0.as_str()
    }
}

/// One launched game process.
#[derive(Clone, Debug, PartialEq, Eq)]
pub struct SessionSummary {
    pub id: SessionId,
    pub instance: InstanceRef,
    pub started_at: String,
    pub exit_code: Option<i32>,
    pub running: bool,
}

/// The abstract state of a session store.
pub struct SessionStoreView {
    pub sessions: Seq<SessionSummary>,
    pub revision: u64,
}

/// Selects the session with the given id.
pub open spec fn session_with_id(id: Seq<char>) -> spec_fn(SessionSummary) -> bool {
    |s: SessionSummary| s.id.0@ == id
}

/// Selects the running sessions of one instance.
pub open spec fn running_of(instance: RefView) -> spec_fn(SessionSummary) -> bool {
    |s: SessionSummary| s.running && s.instance@ == instance
}

/// Selects the running sessions.
pub open spec fn is_running_session() -> spec_fn(SessionSummary) -> bool {
    |s: SessionSummary| s.running
}

/// Selects the sessions of every other instance.
pub open spec fn session_not_of(instance: RefView) -> spec_fn(SessionSummary) -> bool {
    |s: SessionSummary| s.instance@ != instance
}

/// A session after its process exited with `code`.
pub open spec fn stopped(s: SessionSummary, code: i32) -> SessionSummary {
    SessionSummary { running: false, exit_code: Some(code), ..s }
}

/// Process lifecycle for launched instances. Several sessions may run at once;
/// the revision advances exactly when the sessions change.
#[derive(Default)]
pub struct SessionStore {
    sessions: Vec<SessionSummary>,
    revision: u64,
}

impl View for SessionStore {
    type V = SessionStoreView;

    closed spec fn view(&self) -> SessionStoreView {
        SessionStoreView { sessions: self.sessions@, revision: self.revision }
    }
}

impl SessionStore {
    pub fn new() -> (r: Self)
        ensures
            r@.sessions == Seq::<SessionSummary>::empty(),
            r@.revision == 0,
    {
        SessionStore { sessions: Vec::new(), revision: 0 }
    }

    pub fn all(&self) -> (r: &[SessionSummary])
        ensures
            r@ == self@.sessions,
    {
        self.sessions.as_slice()
    }

    /// The running sessions, in start order.
    pub fn running(&self) -> (r: Vec<&SessionSummary>)
        ensures
            r@.map_values(|s: &SessionSummary| *s) == self@.sessions.filter(is_running_session()),
    {
        let mut r: Vec<&SessionSummary> = Vec::new();
        let mut i: usize = 0;
        while i < self.sessions.len()
            invariant
                i <= self.sessions.len(),
                r@.map_values(|s: &SessionSummary| *s) == self@.sessions.take(i as int).filter(
                    is_running_session(),
                ),
            decreases self.sessions.len() - i,
        {
            let ghost before = r@;
            proof {
                assert(self@.sessions.take(i + 1).drop_last() =~= self@.sessions.take(i as int));
                reveal(Seq::filter);
            }
            if self.sessions[i].running {
                r.push(&self.sessions[i]);
                assert(r@.map_values(|s: &SessionSummary| *s) =~= before.map_values(
                    |s: &SessionSummary| *s,
                ).push(self@.sessions[i as int]));
            }
            i += 1;
        }
        assert(self@.sessions.take(self@.sessions.len() as int) =~= self@.sessions);
        r
    }

    /// The number of running sessions.
    pub fn running_count(&self) -> (r: usize)
        ensures
            r == self@.sessions.filter(is_running_session()).len(),
    {
        self.running().len()
    }

    fn position_running(&self, instance: &InstanceRef) -> (r: Option<usize>)
        ensures
            r matches Some(k) ==> first_index(self@.sessions, running_of(instance@)) == Some(
                k as int,
            ),
            r is None ==> first_index(self@.sessions, running_of(instance@)) is None,
    {
        let ghost t = instance@;
        position_by(
            &self.sessions,
            |s: &SessionSummary| -> (b: bool) ensures b == (s.running && s.instance@ == t) { s.running && s.instance.same(instance) },
            Ghost(running_of(t)),
        )
    }

    fn position_id(&self, id: &SessionId) -> (r: Option<usize>)
        ensures
            r matches Some(k) ==> first_index(self@.sessions, session_with_id(id.0@)) == Some(
                k as int,
            ),
            r is None ==> first_index(self@.sessions, session_with_id(id.0@)) is None,
    {
        let ghost t = id.0@;
        position_by(
            &self.sessions,
            |s: &SessionSummary| -> (b: bool) ensures b == (s.id.0@ == t) { s.id.0 == id.0 },
            Ghost(session_with_id(t)),
        )
    }

    /// Whether the instance has a running session.
    pub fn is_running(&self, instance: &InstanceRef) -> (r: bool)
        ensures
            r == exists|i: int|
                0 <= i < self@.sessions.len() && #[trigger] self@.sessions[i].running
                    && self@.sessions[i].instance@ == instance@,
    {
        proof {
            lemma_first_index(self@.sessions, running_of(instance@));
        }
        self.position_running(instance).is_some()
    }

    /// The first running session of the instance.
    pub fn session_for(&self, instance: &InstanceRef) -> (r: Option<&SessionSummary>)
        ensures
            r matches Some(s) ==> first_index(self@.sessions, running_of(instance@)) matches Some(
                k,
            ) && *s == self@.sessions[k],
            r is None ==> first_index(self@.sessions, running_of(instance@)) is None,
    {
        proof {
            lemma_first_index(self@.sessions, running_of(instance@));
        }
        match self.position_running(instance) {
            Some(k) => Some(&self.sessions[k]),
            None => None,
        }
    }

    /// The session with the given id.
    pub fn get(&self, id: &SessionId) -> (r: Option<&SessionSummary>)
        ensures
            r matches Some(s) ==> first_index(self@.sessions, session_with_id(id.0@)) matches Some(
                k,
            ) && *s == self@.sessions[k],
            r is None ==> first_index(self@.sessions, session_with_id(id.0@)) is None,
    {
        proof {
            lemma_first_index(self@.sessions, session_with_id(id.0@));
        }
        match self.position_id(id) {
            Some(k) => Some(&self.sessions[k]),
            None => None,
        }
    }

    /// Records a new session; a session id that is already known is refused.
    pub fn start(&mut self, session: SessionSummary) -> (r: bool)
        requires
            old(self)@.revision < u64::MAX,
        ensures
            r == (first_index(old(self)@.sessions, session_with_id(session.id.0@)) is None),
            r ==> final(self)@ == (SessionStoreView {
                sessions: old(self)@.sessions.push(session),
                revision: (old(self)@.revision + 1) as u64,
            }),
            !r ==> final(self)@ == old(self)@,
    {
        if self.position_id(&session.id).is_some() {
            return false;
        }
        self.sessions.push(session);
        self.revision += 1;
        true
    }

    /// Records that the session `id` exited with `code`; returns `false` when
    /// there is no such session or that is already recorded.
    pub fn finish(&mut self, id: &SessionId, code: i32) -> (r: bool)
        requires
            old(self)@.revision < u64::MAX,
        ensures
            match first_index(old(self)@.sessions, session_with_id(id.0@)) {
                None => !r && final(self)@ == old(self)@,
                Some(k) => {
                    let s = old(self)@.sessions[k];
                    if !s.running && s.exit_code == Some(code) {
                        !r && final(self)@ == old(self)@
                    } else {
                        r && final(self)@ == (SessionStoreView {
                            sessions: old(self)@.sessions.update(k, stopped(s, code)),
                            revision: (old(self)@.revision + 1) as u64,
                        })
                    }
                },
            },
    {
        proof {
            lemma_first_index(self@.sessions, session_with_id(id.0@));
        }
        match self.position_id(id) {
            None => false,
            Some(k) => {
                if !self.sessions[k].running && self.sessions[k].exit_code == Some(code) {
                    return false;
                }
                let s = &mut self.sessions[k];
                s.running = false;
                s.exit_code = Some(code);
                self.revision += 1;
                true
            },
        }
    }

    /// Stops every running session of an instance, as the Stop action does.
    pub fn stop_instance(&mut self, instance: &InstanceRef, code: i32) -> (r: bool)
        requires
            old(self)@.revision < u64::MAX,
        ensures
            r == exists|i: int|
                0 <= i < old(self)@.sessions.len() && #[trigger] old(self)@.sessions[i].running
                    && old(self)@.sessions[i].instance@ == instance@,
            final(self)@.sessions.len() == old(self)@.sessions.len(),
            forall|i: int|
                0 <= i < old(self)@.sessions.len() ==> #[trigger] final(self)@.sessions[i] == if old(
                    self,
                )@.sessions[i].running && old(self)@.sessions[i].instance@ == instance@ {
                    stopped(old(self)@.sessions[i], code)
                } else {
                    old(self)@.sessions[i]
                },
            final(self)@.revision == if r {
                old(self)@.revision + 1
            } else {
                old(self)@.revision as int
            },
    {
        let mut changed = false;
        let mut i: usize = 0;
        while i < self.sessions.len()
            invariant
                i <= self.sessions.len(),
                self.sessions.len() == old(self).sessions.len(),
                self.revision == old(self).revision,
                changed == exists|j: int|
                    0 <= j < i && #[trigger] old(self)@.sessions[j].running
                        && old(self)@.sessions[j].instance@ == instance@,
                forall|j: int|
                    0 <= j < i ==> #[trigger] self.sessions@[j] == if old(self)@.sessions[j].running
                        && old(self)@.sessions[j].instance@ == instance@ {
                        stopped(old(self)@.sessions[j], code)
                    } else {
                        old(self)@.sessions[j]
                    },
                forall|j: int| i <= j < self.sessions.len() ==> #[trigger] self.sessions@[j] == old(self)@.sessions[j],
            decreases self.sessions.len() - i,
        {
            if self.sessions[i].running && self.sessions[i].instance.same(instance) {
                let s = &mut self.sessions[i];
                s.running = false;
                s.exit_code = Some(code);
                changed = true;
            }
            i += 1;
        }
        if changed {
            self.revision += 1;
        }
        changed
    }

    /// Drops the history of an instance that no longer exists.
    pub fn remove_instance(&mut self, instance: &InstanceRef) -> (r: bool)
        requires
            old(self)@.revision < u64::MAX,
        ensures
            r == exists|i: int|
                0 <= i < old(self)@.sessions.len() && #[trigger] old(self)@.sessions[i].instance@
                    == instance@,
            final(self)@.sessions == old(self)@.sessions.filter(session_not_of(instance@)),
            final(self)@.revision == if r {
                old(self)@.revision + 1
            } else {
                old(self)@.revision as int
            },
    {
        let before = self.sessions.len();
        let ghost t = instance@;
        retain_by(
            &mut self.sessions,
            |s: &SessionSummary| -> (b: bool) ensures b == (s.instance@ != t) { !s.instance.same(instance) },
            Ghost(session_not_of(t)),
        );
        if self.sessions.len() == before {
            proof {
                lemma_filter_full_means_all(old(self)@.sessions, session_not_of(t));
            }
            return false;
        }
        proof {
            if forall|i: int| 0 <= i < old(self)@.sessions.len() ==> #[trigger] old(self)@.sessions[i].instance@ != t {
                lemma_filter_keeps_all(old(self)@.sessions, session_not_of(t));
            }
        }
        self.revision += 1;
        true
    }

    pub fn revision(&self) -> (r: u64)
        ensures
            r == self@.revision,
    {
        self.revision
    }
}

} // verus!
