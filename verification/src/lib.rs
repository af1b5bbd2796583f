//! A Pomodoro-style work-session timer library.
//!
//! A [`session::PomodoroSession`] is a single countdown's state machine; a
//! [`registry::SessionRegistry`] keys sessions by id and hands out snapshots.
//! Time never ticks on its own: every operation takes the current reading of a
//! monotonic clock, in whole seconds, and elapsed time is reconciled lazily
//! from those readings. Callers (an HTTP layer, a test) own the clock.

pub mod registry;
pub mod session;
