use pomodoro::session::to_response;
use pomodoro::session::PomodoroSession;
use pomodoro::session::PomodoroState;

fn running_session(id: u64, work_minutes: u64, started_at: u64, elapsed_secs: u64) -> PomodoroSession {
    PomodoroSession {
        id,
        work_minutes,
        break_minutes: 5,
        state: PomodoroState::Running,
        started_at: Some(started_at),
        elapsed_secs,
    }
}

#[test]
fn new_session_is_idle_with_nothing_accrued() {
    let s = PomodoroSession::new(7, 25, 5);
    assert_eq!(s.id, 7);
    assert_eq!(s.work_minutes, 25);
    assert_eq!(s.break_minutes, 5);
    assert_eq!(s.state, PomodoroState::Idle);
    assert_eq!(s.started_at, None);
    assert_eq!(s.elapsed_secs, 0);
}

#[test]
fn total_work_secs_is_minutes_times_sixty() {
    let s = PomodoroSession::new(1, 25, 5);
    assert_eq!(s.total_work_secs(), 1500);
}

#[test]
fn total_work_secs_saturates() {
    let s = PomodoroSession::new(1, u64::MAX, 5);
    assert_eq!(s.total_work_secs(), u64::MAX);
}

#[test]
fn update_elapsed_accrues_while_running() {
    let mut s = running_session(1, 25, 100, 0);
    s.update_elapsed(110);
    assert_eq!(s.state, PomodoroState::Running);
    assert_eq!(s.elapsed_secs, 10);
    assert_eq!(s.started_at, Some(110));
    s.update_elapsed(115);
    assert_eq!(s.elapsed_secs, 15);
}

#[test]
fn update_elapsed_clamps_clock_skew_to_zero() {
    let mut s = running_session(1, 25, 100, 40);
    s.update_elapsed(90);
    assert_eq!(s.state, PomodoroState::Running);
    assert_eq!(s.elapsed_secs, 40);
    assert_eq!(s.started_at, Some(90));
}

#[test]
fn update_elapsed_finishes_exactly_at_budget() {
    let mut s = running_session(1, 1, 0, 0);
    s.update_elapsed(60);
    assert_eq!(s.state, PomodoroState::Finished);
    assert_eq!(s.elapsed_secs, 60);
    assert_eq!(s.started_at, None);
}

#[test]
fn update_elapsed_leaves_idle_paused_finished_alone() {
    let mut idle = PomodoroSession::new(1, 25, 5);
    idle.update_elapsed(1000);
    assert_eq!(idle.state, PomodoroState::Idle);
    assert_eq!(idle.elapsed_secs, 0);

    let mut paused = PomodoroSession {
        state: PomodoroState::Paused,
        started_at: None,
        elapsed_secs: 10,
        ..PomodoroSession::new(1, 25, 5)
    };
    paused.update_elapsed(1000);
    assert_eq!(paused.state, PomodoroState::Paused);
    assert_eq!(paused.elapsed_secs, 10);
}

#[test]
fn remaining_secs_is_budget_minus_elapsed_floored_at_zero() {
    let mut s = running_session(1, 25, 0, 0);
    assert_eq!(s.remaining_secs(10), 1490);

    let mut over = PomodoroSession {
        state: PomodoroState::Paused,
        started_at: None,
        elapsed_secs: 2000,
        ..PomodoroSession::new(1, 25, 5)
    };
    assert_eq!(over.remaining_secs(0), 0);
}

#[test]
fn start_from_idle_and_finished_resets() {
    let mut s = PomodoroSession::new(1, 25, 5);
    s.start(50);
    assert_eq!(s.state, PomodoroState::Running);
    assert_eq!(s.started_at, Some(50));
    assert_eq!(s.elapsed_secs, 0);

    let mut f = PomodoroSession {
        state: PomodoroState::Finished,
        started_at: None,
        elapsed_secs: 1500,
        ..PomodoroSession::new(1, 25, 5)
    };
    f.start(80);
    assert_eq!(f.state, PomodoroState::Running);
    assert_eq!(f.started_at, Some(80));
    assert_eq!(f.elapsed_secs, 0);
}

#[test]
fn start_is_a_noop_while_running_or_paused() {
    let mut s = running_session(1, 25, 30, 12);
    s.start(99);
    assert_eq!(s.state, PomodoroState::Running);
    assert_eq!(s.elapsed_secs, 81);
    assert_eq!(s.started_at, Some(99));

    let mut p = PomodoroSession {
        state: PomodoroState::Paused,
        started_at: None,
        elapsed_secs: 12,
        ..PomodoroSession::new(1, 25, 5)
    };
    let before = p;
    p.start(99);
    assert_eq!(p, before);
}

#[test]
fn start_restarts_an_exhausted_running_session() {
    let mut s = running_session(1, 1, 0, 0);
    s.start(100);
    assert_eq!(s.state, PomodoroState::Running);
    assert_eq!(s.elapsed_secs, 0);
    assert_eq!(s.started_at, Some(100));
}

#[test]
fn pause_captures_elapsed_and_freezes() {
    let mut s = running_session(1, 25, 100, 0);
    s.pause(110);
    assert_eq!(s.state, PomodoroState::Paused);
    assert_eq!(s.started_at, None);
    assert_eq!(s.elapsed_secs, 10);
    s.update_elapsed(5000);
    assert_eq!(s.elapsed_secs, 10);
}

#[test]
fn pause_is_a_noop_off_running() {
    let mut idle = PomodoroSession::new(1, 25, 5);
    idle.pause(10);
    assert_eq!(idle.state, PomodoroState::Idle);
}

#[test]
fn pause_past_the_budget_finishes_instead() {
    let mut s = running_session(1, 1, 0, 0);
    s.pause(100);
    assert_eq!(s.state, PomodoroState::Finished);
    assert_eq!(s.elapsed_secs, 100);
    assert_eq!(s.remaining_secs(200), 0);
}

#[test]
fn resume_restarts_accrual_from_frozen_elapsed() {
    let mut s = PomodoroSession {
        state: PomodoroState::Paused,
        started_at: None,
        elapsed_secs: 10,
        ..PomodoroSession::new(1, 25, 5)
    };
    s.resume(500);
    assert_eq!(s.state, PomodoroState::Running);
    assert_eq!(s.started_at, Some(500));
    assert_eq!(s.elapsed_secs, 10);
    s.update_elapsed(530);
    assert_eq!(s.elapsed_secs, 40);
}

#[test]
fn resume_is_a_noop_off_paused() {
    let mut s = PomodoroSession::new(1, 25, 5);
    let before = s;
    s.resume(10);
    assert_eq!(s, before);

    let mut r = running_session(1, 25, 0, 0);
    r.resume(10);
    assert_eq!(r.state, PomodoroState::Running);
    assert_eq!(r.elapsed_secs, 10);
    assert_eq!(r.started_at, Some(10));
}

#[test]
fn to_response_reports_the_reconciled_snapshot() {
    let resp = to_response(running_session(3, 25, 0, 0), 10);
    assert_eq!(resp.id, 3);
    assert_eq!(resp.work_minutes, 25);
    assert_eq!(resp.break_minutes, 5);
    assert_eq!(resp.state, PomodoroState::Running);
    assert_eq!(resp.elapsed_secs, 10);
    assert_eq!(resp.remaining_secs, 1490);
}

#[test]
fn to_response_of_a_zero_budget_run_is_finished() {
    let resp = to_response(running_session(1, 0, 5, 0), 5);
    assert_eq!(resp.state, PomodoroState::Finished);
    assert_eq!(resp.elapsed_secs, 0);
    assert_eq!(resp.remaining_secs, 0);
}
