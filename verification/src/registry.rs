//! The session registry: sessions keyed by id, ids issued consecutively
//! starting at 1, nothing ever deleted.
//!
//! The registry is a single logical resource: callers that share it across
//! threads wrap it in one exclusive lock, so its operations are totally
//! ordered and every snapshot a caller sees is internally consistent. Like
//! the sessions it holds, the registry never reads a clock: each operation
//! takes the caller's monotonic reading `now` in whole seconds.

use std::collections::HashMap;
use vstd::prelude::*;

use crate::session::PomodoroSession;
use crate::session::SessionResponse;
use crate::session::lemma_reconcile_idempotent;
use crate::session::spec_new_session;
use crate::session::spec_pause;
use crate::session::spec_reconcile;
use crate::session::spec_response;
use crate::session::spec_resume;
use crate::session::spec_start;
use crate::session::to_response;

verus! {

broadcast use vstd::std_specs::hash::group_hash_axioms;

/// The one domain error: an operation named a session id the registry has
/// never issued.
#[derive(Clone, Copy, PartialEq, Eq, Structural, Debug)]
pub enum RegistryError {
    NotFound,
}

/// Sessions keyed by id, plus the id counter. `create` issues
/// `next_id + 1`, so ids are exactly `1..=next_id` and are never reused.
pub struct SessionRegistry {
    pub next_id: u64,
    pub sessions: HashMap<u64, PomodoroSession>,
}

impl SessionRegistry {
    /// Internal consistency: the stored ids are exactly `1..=next_id`, each
    /// session sits under its own id, and each session is well formed.
    pub open spec fn wf(self) -> bool {
        &&& (forall|id: u64| #[trigger] self.sessions@.contains_key(id) <==> 1 <= id <= self.next_id)
        &&& (forall|id: u64| #[trigger] self.sessions@.contains_key(id) ==> self.sessions@[id].id == id
            && self.sessions@[id].wf())
    }

    /// An empty registry; the first created session gets id 1.
    pub fn new() -> (r: Self)
        ensures
            r.wf(),
            r.next_id == 0,
            r.sessions@ == Map::<u64, PomodoroSession>::empty(),
    {
        SessionRegistry { next_id: 0, sessions: HashMap::new() }
    }

    /// Allocate the next id, store a fresh `Idle` session under it, and
    /// return its snapshot. The new id was never in the registry before.
    pub fn create(&mut self, work_minutes: u64, break_minutes: u64, now: u64) -> (r:
        SessionResponse)
        requires
            old(self).wf(),
            old(self).next_id < u64::MAX,
        ensures
            final(self).wf(),
            final(self).next_id == old(self).next_id + 1,
            !old(self).sessions@.contains_key(final(self).next_id),
            final(self).sessions@ == old(self).sessions@.insert(
                final(self).next_id,
                spec_new_session(final(self).next_id, work_minutes, break_minutes),
            ),
            r == spec_response(
                spec_new_session(final(self).next_id, work_minutes, break_minutes),
                now,
            ),
    {
        self.next_id = self.next_id + 1;
        let id = self.next_id;
        let session = PomodoroSession::new(id, work_minutes, break_minutes);
        self.sessions.insert(id, session);
        to_response(session, now)
    }

    /// A reconciled snapshot of one session; `NotFound` exactly when the id
    /// has never been issued. A read with a side effect: the reconciliation
    /// is stored, so a session seen as `Finished` stays `Finished`.
    pub fn get(&mut self, id: u64, now: u64) -> (r: Result<SessionResponse, RegistryError>)
        requires
            old(self).wf(),
        ensures
            final(self).wf(),
            final(self).next_id == old(self).next_id,
            old(self).sessions@.contains_key(id) ==> {
                &&& final(self).sessions@ == old(self).sessions@.insert(
                    id,
                    spec_reconcile(old(self).sessions@[id], now),
                )
                &&& r == Ok::<SessionResponse, RegistryError>(
                    spec_response(old(self).sessions@[id], now),
                )
            },
            !old(self).sessions@.contains_key(id) ==> *final(self) == *old(self) && r == Err::<
                SessionResponse,
                RegistryError,
            >(RegistryError::NotFound),
    {
        let mut s: PomodoroSession;
        match self.sessions.get(&id) {
            Some(found) => s = *found,
            None => return Err(RegistryError::NotFound),
        }
        s.update_elapsed(now);
        self.sessions.insert(id, s);
        proof {
            lemma_reconcile_idempotent(old(self).sessions@[id], now);
        }
        Ok(to_response(s, now))
    }

    /// Reconciled snapshots of every stored session, in id order. Like
    /// [`SessionRegistry::get`], the reconciliations are stored.
    pub fn list(&mut self, now: u64) -> (r: Vec<SessionResponse>)
        requires
            old(self).wf(),
        ensures
            final(self).wf(),
            final(self).next_id == old(self).next_id,
            forall|id: u64|
                #[trigger] old(self).sessions@.contains_key(id) ==> final(self).sessions@[id]
                    == spec_reconcile(old(self).sessions@[id], now),
            r@.len() == old(self).next_id as int,
            forall|i: int|
                0 <= i < r@.len() ==> r@[i] == spec_response(
                    old(self).sessions@[(i + 1) as u64],
                    now,
                ),
    {
        let mut out: Vec<SessionResponse> = Vec::new();
        let mut i: u64 = 0;
        while i < self.next_id
            invariant
                self.wf(),
                old(self).wf(),
                self.next_id == old(self).next_id,
                i <= self.next_id,
                forall|id: u64|
                    #[trigger] self.sessions@.contains_key(id) && id > i
                        ==> self.sessions@[id] == old(self).sessions@[id],
                forall|id: u64|
                    #[trigger] self.sessions@.contains_key(id) && id <= i
                        ==> self.sessions@[id] == spec_reconcile(old(self).sessions@[id], now),
                out@.len() == i as int,
                forall|j: int|
                    0 <= j < i as int ==> out@[j] == spec_response(
                        old(self).sessions@[(j + 1) as u64],
                        now,
                    ),
            decreases self.next_id - i,
        {
            let id = i + 1;
            let mut s: PomodoroSession = match self.sessions.get(&id) {
                Some(found) => *found,
                None => vstd::pervasive::unreached(),
            };
            s.update_elapsed(now);
            self.sessions.insert(id, s);
            proof {
                lemma_reconcile_idempotent(old(self).sessions@[id], now);
            }
            out.push(to_response(s, now));
            i = id;
        }
        proof {
            assert forall|id: u64| old(self).sessions@.contains_key(id) implies self.sessions@[id]
                == spec_reconcile(old(self).sessions@[id], now) by {
                assert(self.sessions@.contains_key(id));
            }
        }
        out
    }

    /// Apply [`PomodoroSession::start`] to the stored session, store the
    /// result, and return its reconciled snapshot; `NotFound` exactly when
    /// the id has never been issued (the registry is then unchanged).
    pub fn start(&mut self, id: u64, now: u64) -> (r: Result<SessionResponse, RegistryError>)
        requires
            old(self).wf(),
        ensures
            final(self).wf(),
            final(self).next_id == old(self).next_id,
            old(self).sessions@.contains_key(id) ==> {
                &&& final(self).sessions@ == old(self).sessions@.insert(
                    id,
                    spec_start(old(self).sessions@[id], now),
                )
                &&& r == Ok::<SessionResponse, RegistryError>(
                    spec_response(spec_start(old(self).sessions@[id], now), now),
                )
            },
            !old(self).sessions@.contains_key(id) ==> *final(self) == *old(self) && r == Err::<
                SessionResponse,
                RegistryError,
            >(RegistryError::NotFound),
    {
        let mut s: PomodoroSession;
        match self.sessions.get(&id) {
            Some(found) => s = *found,
            None => return Err(RegistryError::NotFound),
        }
        s.start(now);
        self.sessions.insert(id, s);
        Ok(to_response(s, now))
    }

    /// Apply [`PomodoroSession::pause`] to the stored session, store the
    /// result, and return its reconciled snapshot; `NotFound` exactly when
    /// the id has never been issued (the registry is then unchanged).
    pub fn pause(&mut self, id: u64, now: u64) -> (r: Result<SessionResponse, RegistryError>)
        requires
            old(self).wf(),
        ensures
            final(self).wf(),
            final(self).next_id == old(self).next_id,
            old(self).sessions@.contains_key(id) ==> {
                &&& final(self).sessions@ == old(self).sessions@.insert(
                    id,
                    spec_pause(old(self).sessions@[id], now),
                )
                &&& r == Ok::<SessionResponse, RegistryError>(
                    spec_response(spec_pause(old(self).sessions@[id], now), now),
                )
            },
            !old(self).sessions@.contains_key(id) ==> *final(self) == *old(self) && r == Err::<
                SessionResponse,
                RegistryError,
            >(RegistryError::NotFound),
    {
        let mut s: PomodoroSession;
        match self.sessions.get(&id) {
            Some(found) => s = *found,
            None => return Err(RegistryError::NotFound),
        }
        s.pause(now);
        self.sessions.insert(id, s);
        Ok(to_response(s, now))
    }

    /// Apply [`PomodoroSession::resume`] to the stored session, store the
    /// result, and return its reconciled snapshot; `NotFound` exactly when
    /// the id has never been issued (the registry is then unchanged).
    pub fn resume(&mut self, id: u64, now: u64) -> (r: Result<SessionResponse, RegistryError>)
        requires
            old(self).wf(),
        ensures
            final(self).wf(),
            final(self).next_id == old(self).next_id,
            old(self).sessions@.contains_key(id) ==> {
                &&& final(self).sessions@ == old(self).sessions@.insert(
                    id,
                    spec_resume(old(self).sessions@[id], now),
                )
                &&& r == Ok::<SessionResponse, RegistryError>(
                    spec_response(spec_resume(old(self).sessions@[id], now), now),
                )
            },
            !old(self).sessions@.contains_key(id) ==> *final(self) == *old(self) && r == Err::<
                SessionResponse,
                RegistryError,
            >(RegistryError::NotFound),
    {
        let mut s: PomodoroSession;
        match self.sessions.get(&id) {
            Some(found) => s = *found,
            None => return Err(RegistryError::NotFound),
        }
        s.resume(now);
        self.sessions.insert(id, s);
        Ok(to_response(s, now))
    }
}

impl Default for SessionRegistry {
    /// The same empty registry as [`SessionRegistry::new`].
    fn default() -> (r: Self)
        ensures
            r.wf(),
            r.next_id == 0,
            r.sessions@ == Map::<u64, PomodoroSession>::empty(),
    {
        SessionRegistry::new()
    }
}

} // verus!
