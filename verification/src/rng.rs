//! The node's single source of pseudo-randomness.

use vstd::prelude::*;

verus! {

/// Multiplier of the generator's step.
pub const MULTIPLIER: u64 = 6364136223846793005;

/// Increment of the generator's step.
pub const INCREMENT: u64 = 1442695040888963407;

/// The state that follows `state` in the generator's sequence.
pub open spec fn next_state(state: u64) -> u64 {
    state.wrapping_mul(MULTIPLIER).wrapping_add(INCREMENT)
}

/// A seeded pseudo-random source.  It is handed explicitly to every dispatch call, so that a run
/// is fully determined by the initial state, the events and the seed.
#[derive(Clone, Copy, Debug, PartialEq, Eq, Structural)]
pub struct NodeRng {
    state: u64,
}

impl View for NodeRng {
    type V = u64;

    closed spec fn view(&self) -> u64 {
        self.state
    }
}

impl NodeRng {
    /// Creates the source whose sequence starts after `seed`.
    pub fn from_seed(seed: u64) -> (rng: Self)
        ensures
            rng@ == seed,
    {
        NodeRng { state: seed }
    }

    /// Draws the next value: the source moves on by one step and hands out its new state.
    pub fn next_u64(&mut self) -> (value: u64)
        ensures
            final(self)@ == next_state(old(self)@),
            value == final(self)@,
    {
        self.state = self.state.wrapping_mul(MULTIPLIER).wrapping_add(INCREMENT);
        self.state
    }
}

/// Two sources with the same state are the same source.
pub proof fn lemma_rng_determined_by_state(a: NodeRng, b: NodeRng)
    requires
        a@ == b@,
    ensures
        a == b,
{
}

} // verus!
