//! A single Pomodoro session: a four-state timer with lazily reconciled
//! elapsed time.
//!
//! The session never reads a clock itself. Every operation that depends on
//! the current time takes `now`, the caller's reading of a monotonic clock in
//! whole seconds. While the session is `Running` it remembers in `started_at`
//! the reading from which time has been accruing; `reconcile` folds the delta
//! since then into `elapsed_secs` and moves `started_at` forward, so no
//! interval is ever counted twice.

use vstd::prelude::*;

verus! {

/// The states a session moves through. `Idle` is initial; `Finished` is
/// entered only by exhausting the work budget while `Running`, and a fresh
/// start leads out of both `Idle` and `Finished`.
#[derive(Clone, Copy, PartialEq, Eq, Structural, Debug)]
pub enum PomodoroState {
    Idle,
    Running,
    Paused,
    Finished,
}

/// One timer. `work_minutes` and `break_minutes` are fixed at creation;
/// `break_minutes` is stored only, and drives no transition here.
#[derive(Clone, Copy, PartialEq, Eq, Debug)]
pub struct PomodoroSession {
    pub id: u64,
    pub work_minutes: u64,
    pub break_minutes: u64,
    pub state: PomodoroState,
    /// The clock reading from which time has been accruing; `Some` exactly
    /// while the state is `Running`.
    pub started_at: Option<u64>,
    /// Seconds already counted; frozen whenever not `Running`.
    pub elapsed_secs: u64,
}

/// The work budget in seconds: `work_minutes * 60`, saturating at `u64::MAX`.
pub open spec fn spec_total_work_secs(work_minutes: u64) -> u64 {
    if work_minutes * 60 <= u64::MAX {
        (work_minutes * 60) as u64
    } else {
        u64::MAX
    }
}

/// Seconds of the clock between `started_at` and `now`, clamped to zero when
/// the clock appears to have gone backwards.
pub open spec fn spec_delta_secs(started_at: u64, now: u64) -> int {
    if now >= started_at {
        now - started_at
    } else {
        0
    }
}

/// `a + b` clamped into `u64`.
pub open spec fn spec_sat_add(a: u64, b: int) -> u64 {
    if a + b <= u64::MAX {
        (a + b) as u64
    } else {
        u64::MAX
    }
}

/// The snapshot of a session handed to callers: its stored fields as of the
/// reconciliation at the time of the read, plus the derived remaining time.
#[derive(Clone, Copy, PartialEq, Eq, Debug)]
pub struct SessionResponse {
    pub id: u64,
    pub work_minutes: u64,
    pub break_minutes: u64,
    pub state: PomodoroState,
    pub elapsed_secs: u64,
    pub remaining_secs: u64,
}

/// What reconciliation does to a session, given the clock reading `now`.
///
/// While `Running`, the seconds since `started_at` (clamped at zero against
/// clock skew, and saturating into `u64`) are folded into `elapsed_secs` and
/// `started_at` moves to `now`, so the next reconciliation adds only the new
/// increment. A session whose accrued time reaches its work budget becomes
/// `Finished`. Any state other than `Running` is left untouched.
pub open spec fn spec_reconcile(s: PomodoroSession, now: u64) -> PomodoroSession {
    match (s.state, s.started_at) {
        (PomodoroState::Running, Some(t)) => {
            let elapsed = spec_sat_add(s.elapsed_secs, spec_delta_secs(t, now));
            if elapsed >= spec_total_work_secs(s.work_minutes) {
                PomodoroSession {
                    state: PomodoroState::Finished,
                    started_at: None,
                    elapsed_secs: elapsed,
                    ..s
                }
            } else {
                PomodoroSession { started_at: Some(now), elapsed_secs: elapsed, ..s }
            }
        },
        _ => s,
    }
}

/// What `start` does. The session is first reconciled at `now` — every
/// operation that depends on the current state is. From `Idle` or
/// `Finished`, a fresh run: elapsed time reset to zero, accrual from `now`;
/// from `Running` or `Paused`, a no-op beyond the reconciliation itself.
pub open spec fn spec_start(s: PomodoroSession, now: u64) -> PomodoroSession {
    let r = spec_reconcile(s, now);
    if r.state == PomodoroState::Idle || r.state == PomodoroState::Finished {
        PomodoroSession {
            state: PomodoroState::Running,
            started_at: Some(now),
            elapsed_secs: 0,
            ..r
        }
    } else {
        r
    }
}

/// What `pause` does. The session is first reconciled at `now`, capturing
/// the elapsed time up to the pause. If still `Running` after that — the
/// work budget not yet exhausted — accrual freezes: state `Paused`,
/// `started_at` cleared. From any other state (a just-`Finished` session
/// among them), a no-op beyond the reconciliation itself.
pub open spec fn spec_pause(s: PomodoroSession, now: u64) -> PomodoroSession {
    let r = spec_reconcile(s, now);
    if r.state == PomodoroState::Running {
        PomodoroSession { state: PomodoroState::Paused, started_at: None, ..r }
    } else {
        r
    }
}

/// What `resume` does. The session is first reconciled at `now` (a no-op on
/// the `Paused` state it acts on). From `Paused`, accrual restarts at `now`
/// from the frozen `elapsed_secs`; from any other state, a no-op beyond the
/// reconciliation itself.
pub open spec fn spec_resume(s: PomodoroSession, now: u64) -> PomodoroSession {
    let r = spec_reconcile(s, now);
    if r.state == PomodoroState::Paused {
        PomodoroSession { state: PomodoroState::Running, started_at: Some(now), ..r }
    } else {
        r
    }
}

/// Seconds of the work budget still ahead of an already reconciled session:
/// `max(0, total_work_secs - elapsed_secs)`.
pub open spec fn spec_remaining_secs(s: PomodoroSession) -> u64 {
    if spec_total_work_secs(s.work_minutes) >= s.elapsed_secs {
        (spec_total_work_secs(s.work_minutes) - s.elapsed_secs) as u64
    } else {
        0
    }
}

/// The session that [`PomodoroSession::new`] builds: `Idle`, nothing accrued.
pub open spec fn spec_new_session(id: u64, work_minutes: u64, break_minutes: u64) -> PomodoroSession {
    PomodoroSession {
        id,
        work_minutes,
        break_minutes,
        state: PomodoroState::Idle,
        started_at: None,
        elapsed_secs: 0,
    }
}

/// The snapshot that [`to_response`] builds: the session as reconciled at
/// `now`, with `remaining_secs` derived from it.
pub open spec fn spec_response(s: PomodoroSession, now: u64) -> SessionResponse {
    let r = spec_reconcile(s, now);
    SessionResponse {
        id: r.id,
        work_minutes: r.work_minutes,
        break_minutes: r.break_minutes,
        state: r.state,
        elapsed_secs: r.elapsed_secs,
        remaining_secs: spec_remaining_secs(r),
    }
}

/// Reconcile a session's own copy at `now` and package it as a snapshot.
/// The caller's stored session is untouched.
pub fn to_response(s: PomodoroSession, now: u64) -> (r: SessionResponse)
    ensures
        r == spec_response(s, now),
{
    let mut s2 = s;
    let remaining = s2.remaining_secs(now);
    SessionResponse {
        id: s2.id,
        work_minutes: s2.work_minutes,
        break_minutes: s2.break_minutes,
        state: s2.state,
        elapsed_secs: s2.elapsed_secs,
        remaining_secs: remaining,
    }
}

impl PomodoroSession {
    /// Internal consistency: `started_at` is `Some` exactly while `Running`,
    /// and a `Finished` session has exhausted its work budget.
    pub open spec fn wf(self) -> bool {
        &&& (self.state == PomodoroState::Running <==> self.started_at is Some)
        &&& (self.state == PomodoroState::Finished ==> self.elapsed_secs
            >= spec_total_work_secs(self.work_minutes))
    }

    /// A fresh `Idle` session with the given id and durations.
    pub fn new(id: u64, work_minutes: u64, break_minutes: u64) -> (s: Self)
        ensures
            s == spec_new_session(id, work_minutes, break_minutes),
            s.wf(),
    {
        PomodoroSession {
            id,
            work_minutes,
            break_minutes,
            state: PomodoroState::Idle,
            started_at: None,
            elapsed_secs: 0,
        }
    }

    /// The work budget in seconds, saturating at `u64::MAX`.
    pub fn total_work_secs(&self) -> (r: u64)
        ensures
            r == spec_total_work_secs(self.work_minutes),
    {
        if self.work_minutes <= u64::MAX / 60 {
            self.work_minutes * 60
        } else {
            u64::MAX
        }
    }

    /// Reconcile elapsed time against the clock reading `now`; see
    /// [`spec_reconcile`] for exactly what changes.
    pub fn update_elapsed(&mut self, now: u64)
        ensures
            *final(self) == spec_reconcile(*old(self), now),
    {
        if self.state == PomodoroState::Running {
            if let Some(t) = self.started_at {
                let delta: u64 = if now >= t {
                    now - t
                } else {
                    0
                };
                self.elapsed_secs = if self.elapsed_secs <= u64::MAX - delta {
                    self.elapsed_secs + delta
                } else {
                    u64::MAX
                };
                if self.elapsed_secs >= self.total_work_secs() {
                    self.state = PomodoroState::Finished;
                    self.started_at = None;
                } else {
                    self.started_at = Some(now);
                }
            }
        }
    }

    /// Reconcile, then report `max(0, total_work_secs - elapsed_secs)`. A
    /// read with a side effect: the session may move to `Finished` here.
    pub fn remaining_secs(&mut self, now: u64) -> (r: u64)
        ensures
            *final(self) == spec_reconcile(*old(self), now),
            r == spec_remaining_secs(*final(self)),
    {
        self.update_elapsed(now);
        let total = self.total_work_secs();
        if total >= self.elapsed_secs {
            total - self.elapsed_secs
        } else {
            0
        }
    }

    /// Reconcile, then begin a fresh run if the session is `Idle` or
    /// `Finished`; otherwise only the reconciliation happens. See
    /// [`spec_start`].
    pub fn start(&mut self, now: u64)
        ensures
            *final(self) == spec_start(*old(self), now),
    {
        self.update_elapsed(now);
        if self.state == PomodoroState::Idle || self.state == PomodoroState::Finished {
            self.elapsed_secs = 0;
            self.started_at = Some(now);
            self.state = PomodoroState::Running;
        }
    }

    /// Reconcile, then freeze accrual if the session is still `Running`;
    /// otherwise only the reconciliation happens. See [`spec_pause`].
    pub fn pause(&mut self, now: u64)
        ensures
            *final(self) == spec_pause(*old(self), now),
    {
        self.update_elapsed(now);
        if self.state == PomodoroState::Running {
            self.state = PomodoroState::Paused;
            self.started_at = None;
        }
    }

    /// Reconcile, then restart accrual at the frozen `elapsed_secs` if the
    /// session is `Paused`; otherwise only the reconciliation happens. See
    /// [`spec_resume`].
    pub fn resume(&mut self, now: u64)
        ensures
            *final(self) == spec_resume(*old(self), now),
    {
        self.update_elapsed(now);
        if self.state == PomodoroState::Paused {
            self.started_at = Some(now);
            self.state = PomodoroState::Running;
        }
    }
}

/// Elapsed time never shrinks between reconciliation points: reconciliation
/// only adds to `elapsed_secs`, and pausing or resuming keeps at least what
/// was already counted.
pub proof fn lemma_elapsed_nondecreasing(s: PomodoroSession, now: u64)
    ensures
        spec_reconcile(s, now).elapsed_secs >= s.elapsed_secs,
        spec_pause(s, now).elapsed_secs >= s.elapsed_secs,
        spec_resume(s, now).elapsed_secs >= s.elapsed_secs,
{
}

/// Reconciling twice at the same reading is reconciling once: the second
/// pass finds a zero delta and an already-taken `Finished` transition.
pub proof fn lemma_reconcile_idempotent(s: PomodoroSession, now: u64)
    ensures
        spec_reconcile(spec_reconcile(s, now), now) == spec_reconcile(s, now),
{
}

/// `start` on a session that reconciles to `Idle` or `Finished` begins a
/// fresh run — elapsed time zero, `Running`, accruing from `now`; on one
/// that reconciles to `Running` or `Paused` it is a no-op beyond the
/// reconciliation itself.
pub proof fn lemma_start_transitions(s: PomodoroSession, now: u64)
    ensures
        spec_reconcile(s, now).state == PomodoroState::Idle || spec_reconcile(s, now).state
            == PomodoroState::Finished ==> spec_start(s, now) == (PomodoroSession {
            state: PomodoroState::Running,
            started_at: Some(now),
            elapsed_secs: 0,
            ..spec_reconcile(s, now)
        }),
        spec_reconcile(s, now).state == PomodoroState::Running || spec_reconcile(s, now).state
            == PomodoroState::Paused ==> spec_start(s, now) == spec_reconcile(s, now),
{
}

/// `pause` on a session that reconciles to `Running` freezes elapsed time:
/// it captures exactly what reconciliation at `now` accrues, and however
/// much later the paused session is reconciled, nothing about it changes.
/// On any other state `pause` is a no-op beyond the reconciliation itself.
pub proof fn lemma_pause_freezes(s: PomodoroSession, now: u64, later: u64)
    ensures
        spec_reconcile(s, now).state == PomodoroState::Running ==> {
            &&& spec_pause(s, now).state == PomodoroState::Paused
            &&& spec_pause(s, now).elapsed_secs == spec_reconcile(s, now).elapsed_secs
            &&& spec_reconcile(spec_pause(s, now), later) == spec_pause(s, now)
        },
        spec_reconcile(s, now).state != PomodoroState::Running ==> spec_pause(s, now)
            == spec_reconcile(s, now),
{
}

/// `resume` on a `Paused` session restarts accrual from the frozen elapsed
/// time: the resume itself adds nothing, and reconciling at a later reading
/// adds exactly the seconds since the resume (saturating into `u64`). On
/// any other state `resume` is a no-op beyond the reconciliation itself.
pub proof fn lemma_resume_resumes_accrual(s: PomodoroSession, now: u64, later: u64)
    requires
        now <= later,
    ensures
        s.state == PomodoroState::Paused ==> {
            &&& spec_resume(s, now).state == PomodoroState::Running
            &&& spec_resume(s, now).elapsed_secs == s.elapsed_secs
            &&& spec_reconcile(spec_resume(s, now), later).elapsed_secs == spec_sat_add(
                s.elapsed_secs,
                later - now,
            )
        },
        spec_reconcile(s, now).state != PomodoroState::Paused ==> spec_resume(s, now)
            == spec_reconcile(s, now),
{
}

/// A running session whose accrued time reaches its work budget becomes
/// `Finished` at that reconciliation, reports zero remaining seconds, and
/// stays exactly as it is under every later reconciliation — so the
/// transition happens once, and the report stays zero until a restart.
pub proof fn lemma_finish_is_stable(s: PomodoroSession, now: u64, later: u64)
    requires
        s.wf(),
        s.state == PomodoroState::Running,
        spec_reconcile(s, now).elapsed_secs >= spec_total_work_secs(s.work_minutes),
    ensures
        spec_reconcile(s, now).state == PomodoroState::Finished,
        spec_remaining_secs(spec_reconcile(s, now)) == 0,
        spec_reconcile(spec_reconcile(s, now), later) == spec_reconcile(s, now),
{
}

/// Two concurrent `start`s are one effective transition: the registry's
/// exclusive lock serializes them at the same clock reading, and the second
/// finds the session `Running` (or otherwise already settled) and changes
/// nothing.
pub proof fn lemma_start_idempotent(s: PomodoroSession, now: u64)
    ensures
        spec_start(spec_start(s, now), now) == spec_start(s, now),
{
}

} // verus!
