//! Configuration constants for the LED sequence.

use vstd::prelude::*;

verus! {

/// Number of indicator positions (LEDs) in the cycle.
pub const LED_COUNT: usize = 4;

/// Default delay between sequence steps, in milliseconds.
pub const SEQUENCE_DELAY_MS: u64 = 250;

/// Smallest delay a host should configure, in milliseconds.
pub const MIN_SEQUENCE_DELAY_MS: u64 = 10;

/// Largest delay a host should configure, in milliseconds.
pub const MAX_SEQUENCE_DELAY_MS: u64 = 5000;

} // verus!
