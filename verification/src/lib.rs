//! A Pomodoro focus tracker: the countdown engine of one focus or rest phase,
//! the sequencing of focus and rest cycles for a project, and the rules that
//! the interactive shell applies to what the user types.

pub mod cli;
pub mod display;
pub mod pomodoro;
pub mod session;
pub mod session_laws;
pub mod text;
pub mod timer;
pub mod timer_laws;
pub mod tracker;
