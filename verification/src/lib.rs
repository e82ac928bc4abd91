//! Interaction core of a terminal installer front-end.
//!
//! The library owns the session state machine that walks an operator through
//! a fixed set of privileged operations (default install, system update,
//! reboot, power off), the time-arithmetic that drives its animations and
//! countdowns, and the classification of subprocess outcomes. Everything
//! here is pure logic over plain values: the surrounding binary performs the
//! terminal I/O and process spawning, hands events, clock readings and
//! captured output to the library, and renders what the session exposes.

pub mod command;
pub mod config;
pub mod laws;
pub mod render;
pub mod session;
pub mod tick;
pub mod transitions;

use vstd::prelude::*;

verus! {

} // verus!
