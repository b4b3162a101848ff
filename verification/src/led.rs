//! The sequence controller: one active position in a fixed-size cycle.

use vstd::prelude::*;
use vstd::arithmetic::div_mod::{
    lemma_add_mod_noop_right, lemma_mod_add_multiples_vanish,
    lemma_mod_division_less_than_divisor, lemma_small_mod,
};

use crate::config::{LED_COUNT, SEQUENCE_DELAY_MS};

verus! {

/// State of a single LED position: `On` (driven high) or `Off` (driven low).
#[derive(Clone, Copy, Debug, PartialEq, Eq, Structural)]
pub enum LedState {
    On,
    Off,
}

/// Controller for a cyclic LED sequence.
///
/// Exactly one position, `current_index`, is active at a time; `advance`
/// moves it one step forward, wrapping from `led_count - 1` back to `0`.
/// `led_count` and `delay_ms` are fixed at construction.
#[derive(Clone, Copy, Debug, PartialEq, Eq, Structural)]
pub struct LedSequenceController {
    pub current_index: usize,
    pub led_count: usize,
    pub delay_ms: u64,
}

impl LedSequenceController {
    /// Well-formedness: the cycle is non-empty and the active position lies
    /// inside it.
    pub open spec fn wf(self) -> bool {
        0 < self.led_count && self.current_index < self.led_count
    }

    /// The state a position reports: `On` exactly at the active position.
    pub open spec fn spec_led_state(self, index: int) -> LedState {
        if index == self.current_index {
            LedState::On
        } else {
            LedState::Off
        }
    }

    /// The controller after one step: the active position moves forward by
    /// one, modulo the cycle length.
    pub open spec fn spec_advance(self) -> LedSequenceController {
        LedSequenceController {
            current_index: (((self.current_index + 1) % (self.led_count as int)) as usize),
            led_count: self.led_count,
            delay_ms: self.delay_ms,
        }
    }

    /// The controller after `k` steps.
    pub open spec fn advanced_by(self, k: nat) -> LedSequenceController
        decreases k,
    {
        if k == 0 {
            self
        } else {
            self.advanced_by((k - 1) as nat).spec_advance()
        }
    }

    /// Creates a controller with the default configuration: `LED_COUNT`
    /// positions, `SEQUENCE_DELAY_MS` milliseconds per step, starting at
    /// position `0`.
    pub fn new() -> (result: LedSequenceController)
        ensures
            result.current_index == 0,
            result.led_count == LED_COUNT,
            result.delay_ms == SEQUENCE_DELAY_MS,
            result.wf(),
    {
        LedSequenceController {
            current_index: 0,
            led_count: LED_COUNT,
            delay_ms: SEQUENCE_DELAY_MS,
        }
    }

    /// Creates a controller with a caller-chosen cycle length and delay.
    ///
    /// A cycle of length `0` is invalid (advancing would divide by zero), so
    /// that configuration is rejected with `None`; every other configuration
    /// yields a controller starting at position `0`.
    pub fn with_config(count: usize, delay_ms: u64) -> (result: Option<LedSequenceController>)
        ensures
            result is Some <==> count > 0,
            count > 0 ==> result == Some(LedSequenceController {
                current_index: 0,
                led_count: count,
                delay_ms: delay_ms,
            }),
            count > 0 ==> result->Some_0.wf(),
    {
        if count == 0 {
            None
        } else {
            Some(LedSequenceController {
                current_index: 0,
                led_count: count,
                delay_ms: delay_ms,
            })
        }
    }

    /// Moves the active position one step forward, wrapping at the end of
    /// the cycle, and returns the new position.
    pub fn advance(&mut self) -> (new_index: usize)
        requires
            old(self).wf(),
        ensures
            *final(self) == old(self).spec_advance(),
            final(self).wf(),
            new_index == final(self).current_index,
            final(self).current_index == (old(self).current_index + 1) % (old(self).led_count as int),
            final(self).led_count == old(self).led_count,
            final(self).delay_ms == old(self).delay_ms,
    {
        self.current_index = (self.current_index + 1) % self.led_count;
        self.current_index
    }

    /// Returns the index of the currently active position.
    pub fn current_index(&self) -> (index: usize)
        ensures
            index == self.current_index,
    {
        self.current_index
    }

    /// Returns the number of positions in the cycle.
    pub fn led_count(&self) -> (count: usize)
        ensures
            count == self.led_count,
    {
        self.led_count
    }

    /// Returns the delay between sequence steps, in milliseconds.
    pub fn delay_ms(&self) -> (delay: u64)
        ensures
            delay == self.delay_ms,
    {
        self.delay_ms
    }

    /// Returns the state of the position at `index`: `On` exactly when it is
    /// the active position, `Off` for every other index (in or out of range).
    pub fn led_state(&self, index: usize) -> (state: LedState)
        ensures
            state == self.spec_led_state(index as int),
            state == LedState::On <==> index == self.current_index,
    {
        if index == self.current_index {
            LedState::On
        } else {
            LedState::Off
        }
    }
}

impl Default for LedSequenceController {
    /// The default controller is exactly the one `new` creates.
    fn default() -> (result: LedSequenceController)
        ensures
            result.current_index == 0,
            result.led_count == LED_COUNT,
            result.delay_ms == SEQUENCE_DELAY_MS,
            result.wf(),
    {
        LedSequenceController::new()
    }
}

/// Maps a position's state to the level driven onto its output:
/// `On` to `true` (high), `Off` to `false` (low).
pub fn led_state_to_level(state: LedState) -> (level: bool)
    ensures
        level == (state == LedState::On),
        state == LedState::Off ==> !level,
{
    matches!(state, LedState::On)
}

/// After `k` steps the active position is the starting position shifted by
/// `k`, modulo the cycle length; the configuration and well-formedness are
/// preserved.
pub proof fn lemma_advanced_by_index(c: LedSequenceController, k: nat)
    requires
        c.wf(),
    ensures
        c.advanced_by(k).led_count == c.led_count,
        c.advanced_by(k).delay_ms == c.delay_ms,
        c.advanced_by(k).current_index == (c.current_index + k) % (c.led_count as int),
        c.advanced_by(k).wf(),
    decreases k,
{
    let p = c.current_index as int;
    let n = c.led_count as int;
    if k == 0 {
        lemma_small_mod(c.current_index as nat, c.led_count as nat);
    } else {
        lemma_advanced_by_index(c, (k - 1) as nat);
        let prev = c.advanced_by((k - 1) as nat);
        lemma_add_mod_noop_right(1, p + (k - 1), n);
        lemma_mod_division_less_than_divisor(prev.current_index + 1, n);
    }
}

/// Advancing by `a + b` steps is advancing by `a` steps, then by `b`.
pub proof fn lemma_advanced_by_add(c: LedSequenceController, a: nat, b: nat)
    ensures
        c.advanced_by(a + b) == c.advanced_by(a).advanced_by(b),
    decreases b,
{
    if b > 0 {
        lemma_advanced_by_add(c, a, (b - 1) as nat);
    }
}

/// Cycle closure: advancing a well-formed controller exactly `led_count`
/// times returns it to the state it started in.
pub proof fn lemma_cycle_closure(c: LedSequenceController)
    requires
        c.wf(),
    ensures
        c.advanced_by(c.led_count as nat) == c,
{
    let p = c.current_index as int;
    let n = c.led_count as int;
    lemma_advanced_by_index(c, c.led_count as nat);
    lemma_mod_add_multiples_vanish(p, n);
    lemma_small_mod(c.current_index as nat, c.led_count as nat);
}

/// Advancing a well-formed controller any whole number of full cycles,
/// `led_count * k` steps, leaves it unchanged.
pub proof fn lemma_cycle_multiple(c: LedSequenceController, k: nat)
    requires
        c.wf(),
    ensures
        c.advanced_by((c.led_count as nat) * k) == c,
    decreases k,
{
    if k > 0 {
        let full = c.led_count as nat;
        lemma_cycle_multiple(c, (k - 1) as nat);
        assert(full * k == full * ((k - 1) as nat) + full) by (nonlinear_arith)
            requires
                k > 0,
        ;
        lemma_advanced_by_add(c, full * ((k - 1) as nat), full);
        lemma_cycle_closure(c);
    } else {
        assert((c.led_count as nat) * k == 0) by (nonlinear_arith)
            requires
                k == 0,
        ;
    }
}

/// At every instant exactly one position in `[0, led_count)` reports `On`:
/// the active position, which lies in range; every other index reports `Off`.
pub proof fn lemma_exactly_one_active(c: LedSequenceController)
    requires
        c.wf(),
    ensures
        0 <= c.current_index < c.led_count,
        forall|i: int|
            0 <= i < c.led_count ==> ((c.spec_led_state(i) == LedState::On) <==> i
                == c.current_index),
{
}

} // verus!
