//! A small library for driving a fixed set of indicator LEDs in sequence.
//!
//! The heart of the library is [`led::LedSequenceController`], a state machine
//! that keeps exactly one position of a fixed-size cycle active at a time and
//! advances through the cycle one step per tick, wrapping at the boundary.
//! The host loop renders each position through [`led::led_state_to_level`],
//! waits the configured interval, and calls `advance`.

pub mod config;
pub mod led;
