//! Reactor for validator nodes.
//!
//! The validator reactor takes over where the initializer reactor has stopped.  It is made of
//! the initializer's components as they are: none of them is made anew.

use vstd::prelude::*;
use vstd::std_specs::convert::FromSpecImpl;

use crate::components::chainspec_loader::{self, ChainspecLoader};
use crate::components::contract_runtime::{self, ContractRuntime};
use crate::components::network::NetworkIdentity;
use crate::components::small_network::SmallNetworkIdentity;
use crate::components::storage::{self, Storage};
use crate::components::{Component, Step};
use crate::effect::requests::Request;
use crate::effect::{Effect, EffectBuilder, Effects};
use crate::reactor::initializer::ReactorView;
use crate::reactor::{self, computes, lift};
use crate::rng::NodeRng;
use crate::utils::WithDir;

verus! {

/// Root configuration.
#[derive(Debug, PartialEq, Eq)]
pub struct Config {
    /// Storage configuration.
    pub storage: storage::Config,
    /// Contract runtime configuration.
    pub contract_runtime: contract_runtime::Config,
}

impl Clone for Config {
    fn clone(&self) -> (cloned: Self)
        ensures
            cloned == *self,
    {
        Config { storage: self.storage.clone(), contract_runtime: self.contract_runtime }
    }
}

/// Top-level event for the reactor.
#[derive(Clone, Copy, Debug, PartialEq, Eq, Structural)]
#[must_use]
pub enum Event {
    /// Chainspec loader event.
    ChainspecLoader(chainspec_loader::Event),
    /// Storage event.
    Storage(storage::Event),
    /// Contract runtime event.
    ContractRuntime(contract_runtime::Event),
}

/// The embedding of the chainspec loader's events.
pub open spec fn embed_chainspec_loader() -> spec_fn(chainspec_loader::Event) -> Event {
    |event: chainspec_loader::Event| Event::ChainspecLoader(event)
}

/// The embedding of the storage component's events.
pub open spec fn embed_storage() -> spec_fn(storage::Event) -> Event {
    |event: storage::Event| Event::Storage(event)
}

/// The embedding of the contract runtime's events.
pub open spec fn embed_contract_runtime() -> spec_fn(contract_runtime::Event) -> Event {
    |event: contract_runtime::Event| Event::ContractRuntime(event)
}

impl From<Request> for Event {
    fn from(request: Request) -> (wrapped: Self) {
        match request {
            Request::Storage(request) => Event::Storage(storage::Event::StorageRequest(request)),
            Request::ContractRuntime(request) => Event::ContractRuntime(
                contract_runtime::Event::Request(request),
            ),
        }
    }
}

impl FromSpecImpl<Request> for Event {
    open spec fn obeys_from_spec() -> bool {
        true
    }

    open spec fn from_spec(request: Request) -> Self {
        match request {
            Request::Storage(request) => Event::Storage(storage::Event::StorageRequest(request)),
            Request::ContractRuntime(request) => Event::ContractRuntime(
                contract_runtime::Event::Request(request),
            ),
        }
    }
}

/// Error type returned by the validator reactor.
#[derive(Clone, Copy, Debug, PartialEq, Eq, Structural)]
pub enum Error {
    /// The initializer has not completed, or has completed without success.
    NotInitialized,
}

/// What a validator reactor is made of: the configuration, the components and the identities
/// of an initializer reactor, as they were when it was taken apart.
#[derive(Debug)]
pub struct ValidatorInitConfig {
    /// The node's configuration.
    pub config: WithDir<Config>,
    /// The chainspec loader.
    pub chainspec_loader: ChainspecLoader,
    /// The storage component.
    pub storage: Storage,
    /// The contract runtime.
    pub contract_runtime: ContractRuntime,
    /// The node's identity in the small network.
    pub small_network_identity: SmallNetworkIdentity,
    /// The node's identity in the network.
    pub network_identity: NetworkIdentity,
}

impl ValidatorInitConfig {
    /// The state of the reactor that these parts make.
    pub open spec fn state(self) -> ReactorView {
        ReactorView {
            dir: self.config.spec_dir(),
            config: self.config.spec_value(),
            chainspec_loader: self.chainspec_loader@,
            storage: self.storage@,
            contract_runtime: self.contract_runtime@,
            small_network_identity: self.small_network_identity@,
            network_identity: self.network_identity@,
        }
    }
}

/// Validator node reactor.
#[derive(Debug)]
pub struct Reactor {
    config: WithDir<Config>,
    chainspec_loader: ChainspecLoader,
    storage: Storage,
    contract_runtime: ContractRuntime,
    small_network_identity: SmallNetworkIdentity,
    network_identity: NetworkIdentity,
}

impl View for Reactor {
    type V = ReactorView;

    closed spec fn view(&self) -> ReactorView {
        ReactorView {
            dir: self.config.spec_dir(),
            config: self.config.spec_value(),
            chainspec_loader: self.chainspec_loader@,
            storage: self.storage@,
            contract_runtime: self.contract_runtime@,
            small_network_identity: self.small_network_identity@,
            network_identity: self.network_identity@,
        }
    }
}

impl Reactor {
    /// Makes the validator reactor of the parts of an initializer reactor that has stopped
    /// successfully.  Every part goes over as it is, so the validator starts in the state in
    /// which the initializer stopped; it starts without effects.  The parts of an initializer
    /// that has not stopped, or not successfully, are refused.
    pub fn new(config: ValidatorInitConfig) -> (res: Result<(Self, Effects<Event>), Error>)
        ensures
            match res {
                Ok((validator, effects)) => {
                    &&& config.state().chainspec_loader.completed_successfully == Some(true)
                    &&& validator@ == config.state()
                    &&& effects@ == Seq::<Effect<Event>>::empty()
                },
                Err(Error::NotInitialized) => config.state().chainspec_loader.completed_successfully
                    != Some(true),
            },
    {
        if !config.chainspec_loader.stopped_successfully() {
            return Err(Error::NotInitialized);
        }
        let ValidatorInitConfig {
            config,
            chainspec_loader,
            storage,
            contract_runtime,
            small_network_identity,
            network_identity,
        } = config;
        let validator = Reactor {
            config,
            chainspec_loader,
            storage,
            contract_runtime,
            small_network_identity,
            network_identity,
        };
        Ok((validator, Vec::new()))
    }
}

impl reactor::Reactor for Reactor {
    type Event = Event;

    type Config = ValidatorInitConfig;

    type Error = Error;

    /// An event goes to the component that owns it.  That component alone moves on, and its
    /// effects are the reactor's, lifted to the reactor's events.
    open spec fn transition(state: ReactorView, rng: NodeRng, event: Event) -> Step<
        ReactorView,
        Event,
    > {
        match event {
            Event::ChainspecLoader(event) => {
                let step = <ChainspecLoader as Component<Event>>::transition(
                    state.chainspec_loader,
                    rng,
                    event,
                );
                Step {
                    state: ReactorView { chainspec_loader: step.state, ..state },
                    rng: step.rng,
                    effects: lift(step.effects, embed_chainspec_loader()),
                }
            },
            Event::Storage(event) => {
                let step = <Storage as Component<Event>>::transition(state.storage, rng, event);
                Step {
                    state: ReactorView { storage: step.state, ..state },
                    rng: step.rng,
                    effects: lift(step.effects, embed_storage()),
                }
            },
            Event::ContractRuntime(event) => {
                let step = <ContractRuntime as Component<Event>>::transition(
                    state.contract_runtime,
                    rng,
                    event,
                );
                Step {
                    state: ReactorView { contract_runtime: step.state, ..state },
                    rng: step.rng,
                    effects: lift(step.effects, embed_contract_runtime()),
                }
            },
        }
    }

    /// The validator reactor has no end.
    open spec fn stopped(state: ReactorView) -> bool {
        false
    }

    fn dispatch_event(
        &mut self,
        effect_builder: EffectBuilder<Event>,
        rng: &mut NodeRng,
        event: Event,
    ) -> (effects: Effects<Event>) {
        match event {
            Event::ChainspecLoader(event) => {
                let wrap = |event: chainspec_loader::Event| -> (wrapped: Event)
                    ensures
                        wrapped == Event::ChainspecLoader(event),
                    { Event::ChainspecLoader(event) };
                let effects = self.chainspec_loader.handle_event(effect_builder, rng, event);
                let wrapped = reactor::wrap_effects(wrap, effects);
                assert(computes(wrap, embed_chainspec_loader()));
                wrapped
            },
            Event::Storage(event) => {
                let wrap = |event: storage::Event| -> (wrapped: Event)
                    ensures
                        wrapped == Event::Storage(event),
                    { Event::Storage(event) };
                let effects = self.storage.handle_event(effect_builder, rng, event);
                let wrapped = reactor::wrap_effects(wrap, effects);
                assert(computes(wrap, embed_storage()));
                wrapped
            },
            Event::ContractRuntime(event) => {
                let wrap = |event: contract_runtime::Event| -> (wrapped: Event)
                    ensures
                        wrapped == Event::ContractRuntime(event),
                    { Event::ContractRuntime(event) };
                let effects = self.contract_runtime.handle_event(effect_builder, rng, event);
                let wrapped = reactor::wrap_effects(wrap, effects);
                assert(computes(wrap, embed_contract_runtime()));
                wrapped
            },
        }
    }

    fn is_stopped(&mut self) -> (stopped: bool) {
        false
    }
}

} // verus!
