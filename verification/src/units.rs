//! Fixed-point conventions shared by the whole crate.
//!
//! Durations are whole microseconds and levels are whole millionths of full
//! scale, so every quantity the sequencer computes with is an exact integer.

use vstd::prelude::*;

verus! {

/// Microseconds in one second.
pub const MICROS_PER_SECOND: u32 = 1_000_000;

/// The level 1.0 (full scale), in millionths.
pub const UNITY: u32 = 1_000_000;

} // verus!
