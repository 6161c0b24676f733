//! Core of a desktop tool's background engine: a dual-rate polling
//! scheduler for git worktrees, and a registry of running external
//! processes with safe cancellation.
//!
//! The scheduler and registry are pure state machines here: time is
//! passed in as unix seconds and OS effects (process kills, durable
//! run-state updates, UI events) are returned as ordered action plans
//! for the embedding program to carry out.

pub mod auth;
pub mod laws;
pub mod registry;
pub mod scheduler;
pub mod server_status;
pub mod shell;
pub mod string_map;

use vstd::prelude::*;

verus! {

/// Clamp `value` into the inclusive range `[lo, hi]`.
pub open spec fn clamped(value: u64, lo: u64, hi: u64) -> u64 {
    if value < lo {
        lo
    } else if value > hi {
        hi
    } else {
        value
    }
}

/// Executable counterpart of [`clamped`].
pub fn clamp_u64(value: u64, lo: u64, hi: u64) -> (r: u64)
    requires
        lo <= hi,
    ensures
        r == clamped(value, lo, hi),
        lo <= r <= hi,
{
    if value < lo {
        lo
    } else if value > hi {
        hi
    } else {
        value
    }
}

} // verus!
