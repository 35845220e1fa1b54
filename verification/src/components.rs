//! Components
//!
//! Components are the building blocks of the whole application, wired together inside a reactor.
//! Each component has a unified interface, expressed by the `Component` trait.

use vstd::prelude::*;

use crate::effect::{Effect, EffectBuilder, Effects};
use crate::rng::NodeRng;

pub mod chainspec_loader;
pub mod contract_runtime;
pub mod network;
pub mod small_network;
pub mod storage;

verus! {

/// Where one call of `handle_event` leaves things: the state of the component and the random
/// source as they are after the call, and the effects that the call handed back.
pub ghost struct Step<S, Ev> {
    pub state: S,
    pub rng: NodeRng,
    pub effects: Seq<Effect<Ev>>,
}

/// Core Component.
///
/// Its inputs are `Event`s, allowing it to
/// perform work whenever an event is received, outputting `Effect`s each time it is called.
///
/// # Error and halting states
///
/// Components in general are expected to be able to handle every input (`Event`) in every state.
/// Invalid inputs are supposed to be discarded, and the machine is expected to recover from any
/// recoverable error states by itself.
///
/// If a fatal error occurs that is not recoverable, the reactor should be notified instead.
///
/// # Component events and reactor events
///
/// Each component has two events related to it: An associated `Event` and a reactor event (`REv`).
/// The `Event` type indicates what type of event a component accepts, these are typically event
/// types specific to the component.
///
/// Components place restrictions on reactor events (`REv`s), indicating what kind of effects they
/// need to be able to produce to operate.
///
/// # Determinism
///
/// What a component does with an event is a function of its state, the random source and the
/// event, and of nothing else: `transition` is that function, and `handle_event` computes it.
/// The state of a component is its view.
pub trait Component<REv>: Sized + View {
    /// Event associated with `Component`.
    ///
    /// The event type that is handled by the component.
    type Event;

    /// Error emitted when constructing the component.
    type ConstructionError;

    /// Where handling `event` leads from the state `state` with the random source `rng`.
    spec fn transition(state: Self::V, rng: NodeRng, event: Self::Event) -> Step<
        Self::V,
        Self::Event,
    >;

    /// Processes an event, outputting zero or more effects.
    ///
    /// This function must not ever perform any blocking or CPU intensive work, as it is expected
    /// to return very quickly.
    fn handle_event(
        &mut self,
        effect_builder: EffectBuilder<REv>,
        rng: &mut NodeRng,
        event: Self::Event,
    ) -> (effects: Effects<Self::Event>)
        ensures
            final(self)@ == Self::transition(old(self)@, *old(rng), event).state,
            *final(rng) == Self::transition(old(self)@, *old(rng), event).rng,
            effects@ == Self::transition(old(self)@, *old(rng), event).effects,
    ;
}

} // verus!
