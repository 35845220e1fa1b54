//! Reactor used to initialize a node.

use vstd::prelude::*;
use vstd::std_specs::convert::{FromSpec, FromSpecImpl};

use prometheus::Error as PrometheusError;
use prometheus::Registry;

use crate::components::chainspec_loader::{self, initial_effects, ChainspecLoader, ChainspecLoaderView};
use crate::components::contract_runtime::{
    self, ContractRuntime, ContractRuntimeMetrics, ContractRuntimeView,
};
use crate::components::network::NetworkIdentity;
use crate::components::small_network::{
    SmallNetworkIdentity, SmallNetworkIdentityError, SmallNetworkIdentityView,
};
use crate::components::storage::{self, with_version, Storage, StorageView};
use crate::components::{Component, Step};
use crate::effect::requests::{ContractRuntimeRequest, Request, StorageRequest};
use crate::effect::{Continuation, Effect, EffectBuilder, Effects, Outcome, Responder, Work};
use crate::reactor::validator::{self, ValidatorInitConfig};
use crate::reactor::{
    self, advanced, computes, first_waiting, lift, request_embedding, stepped, Action,
    EventQueueHandle, RunnerView, Waiting,
};
use crate::rng::NodeRng;
use crate::types::chainspec::accounts::rows_fault;
use crate::types::chainspec::{self, Chainspec, ChainspecSource};
use crate::utils::{concat, WithDir};

verus! {

/// Top-level event for the reactor.
///
/// Each variant belongs to one component of the reactor and wraps an event of that component.
/// There is no variant for network traffic nor for announcements of the chainspec loader: no
/// component of this reactor takes them, so none can be made, let alone dispatched.
#[derive(Clone, Copy, Debug, PartialEq, Eq, Structural)]
#[must_use]
pub enum Event {
    /// Chainspec handler event.
    Chainspec(chainspec_loader::Event),
    /// Storage event.
    Storage(storage::Event),
    /// Contract runtime event.
    ContractRuntime(contract_runtime::Event),
}

/// The components of the reactor that take events.
#[derive(Clone, Copy, Debug, PartialEq, Eq, Structural)]
pub enum Owner {
    /// The chainspec loader.
    ChainspecLoader,
    /// The storage component.
    Storage,
    /// The contract runtime.
    ContractRuntime,
}

/// The embedding of the chainspec loader's events.
pub open spec fn embed_chainspec() -> spec_fn(chainspec_loader::Event) -> Event {
    |event: chainspec_loader::Event| Event::Chainspec(event)
}

/// The embedding of the storage component's events.
pub open spec fn embed_storage() -> spec_fn(storage::Event) -> Event {
    |event: storage::Event| Event::Storage(event)
}

/// The embedding of the contract runtime's events.
pub open spec fn embed_contract_runtime() -> spec_fn(contract_runtime::Event) -> Event {
    |event: contract_runtime::Event| Event::ContractRuntime(event)
}

impl Event {
    /// The component that the event is for.
    pub open spec fn spec_owner(self) -> Owner {
        match self {
            Event::Chainspec(_) => Owner::ChainspecLoader,
            Event::Storage(_) => Owner::Storage,
            Event::ContractRuntime(_) => Owner::ContractRuntime,
        }
    }

    /// The event of the chainspec loader that this event wraps, if it wraps one.
    pub open spec fn chainspec(self) -> Option<chainspec_loader::Event> {
        match self {
            Event::Chainspec(event) => Some(event),
            _ => None,
        }
    }

    /// The event of the storage component that this event wraps, if it wraps one.
    pub open spec fn storage(self) -> Option<storage::Event> {
        match self {
            Event::Storage(event) => Some(event),
            _ => None,
        }
    }

    /// The event of the contract runtime that this event wraps, if it wraps one.
    pub open spec fn contract_runtime(self) -> Option<contract_runtime::Event> {
        match self {
            Event::ContractRuntime(event) => Some(event),
            _ => None,
        }
    }

    /// The component that the event is for.
    pub fn owner(&self) -> (owner: Owner)
        ensures
            owner == self.spec_owner(),
    {
        match self {
            Event::Chainspec(_) => Owner::ChainspecLoader,
            Event::Storage(_) => Owner::Storage,
            Event::ContractRuntime(_) => Owner::ContractRuntime,
        }
    }

    /// The text that describes the event: the name of its component, then the component's own
    /// description of what it wraps.
    pub open spec fn spec_description(self) -> Seq<char> {
        match self {
            Event::Chainspec(event) => "chainspec: "@ + event.spec_description(),
            Event::Storage(event) => "storage: "@ + event.spec_description(),
            Event::ContractRuntime(event) => "contract runtime: "@ + event.spec_description(),
        }
    }

    /// Describes the event in words.
    pub fn description(&self) -> (text: String)
        ensures
            text@ == self.spec_description(),
    {
        match self {
            Event::Chainspec(event) => concat("chainspec: ", event.description().as_str()),
            Event::Storage(event) => concat("storage: ", event.description().as_str()),
            Event::ContractRuntime(event) => concat(
                "contract runtime: ",
                event.description().as_str(),
            ),
        }
    }
}

impl From<chainspec_loader::Event> for Event {
    fn from(event: chainspec_loader::Event) -> (wrapped: Self) {
        Event::Chainspec(event)
    }
}

impl FromSpecImpl<chainspec_loader::Event> for Event {
    open spec fn obeys_from_spec() -> bool {
        true
    }

    open spec fn from_spec(event: chainspec_loader::Event) -> Self {
        Event::Chainspec(event)
    }
}

impl From<storage::Event> for Event {
    fn from(event: storage::Event) -> (wrapped: Self) {
        Event::Storage(event)
    }
}

impl FromSpecImpl<storage::Event> for Event {
    open spec fn obeys_from_spec() -> bool {
        true
    }

    open spec fn from_spec(event: storage::Event) -> Self {
        Event::Storage(event)
    }
}

impl From<contract_runtime::Event> for Event {
    fn from(event: contract_runtime::Event) -> (wrapped: Self) {
        Event::ContractRuntime(event)
    }
}

impl FromSpecImpl<contract_runtime::Event> for Event {
    open spec fn obeys_from_spec() -> bool {
        true
    }

    open spec fn from_spec(event: contract_runtime::Event) -> Self {
        Event::ContractRuntime(event)
    }
}

impl From<StorageRequest> for Event {
    fn from(request: StorageRequest) -> (wrapped: Self) {
        Event::Storage(storage::Event::StorageRequest(request))
    }
}

impl FromSpecImpl<StorageRequest> for Event {
    open spec fn obeys_from_spec() -> bool {
        true
    }

    open spec fn from_spec(request: StorageRequest) -> Self {
        Event::Storage(storage::Event::StorageRequest(request))
    }
}

impl From<ContractRuntimeRequest> for Event {
    fn from(request: ContractRuntimeRequest) -> (wrapped: Self) {
        Event::ContractRuntime(contract_runtime::Event::Request(request))
    }
}

impl FromSpecImpl<ContractRuntimeRequest> for Event {
    open spec fn obeys_from_spec() -> bool {
        true
    }

    open spec fn from_spec(request: ContractRuntimeRequest) -> Self {
        Event::ContractRuntime(contract_runtime::Event::Request(request))
    }
}

impl From<Request> for Event {
    fn from(request: Request) -> (wrapped: Self) {
        match request {
            Request::Storage(request) => Event::Storage(storage::Event::StorageRequest(request)),
            Request::ContractRuntime(request) => Event::ContractRuntime(
                contract_runtime::Event::Request(request),
            ),
        }
    }
}

impl FromSpecImpl<Request> for Event {
    open spec fn obeys_from_spec() -> bool {
        true
    }

    open spec fn from_spec(request: Request) -> Self {
        match request {
            Request::Storage(request) => Event::Storage(storage::Event::StorageRequest(request)),
            Request::ContractRuntime(request) => Event::ContractRuntime(
                contract_runtime::Event::Request(request),
            ),
        }
    }
}

/// The lossless embedding of the chainspec loader's events: an event that is wrapped and then
/// unwrapped by the routing is the event itself, and it is routed to the loader alone.
pub proof fn lemma_chainspec_round_trip(event: chainspec_loader::Event)
    ensures
        <Event as FromSpec<chainspec_loader::Event>>::from_spec(event).chainspec() == Some(
            event,
        ),
        <Event as FromSpec<chainspec_loader::Event>>::from_spec(event).spec_owner()
            == Owner::ChainspecLoader,
        <Event as FromSpec<chainspec_loader::Event>>::from_spec(event).storage() is None,
        <Event as FromSpec<chainspec_loader::Event>>::from_spec(event).contract_runtime()
            is None,
{
}

/// The lossless embedding of the storage component's events: an event that is wrapped and
/// then unwrapped by the routing is the event itself, and it is routed to the storage alone.
pub proof fn lemma_storage_round_trip(event: storage::Event)
    ensures
        <Event as FromSpec<storage::Event>>::from_spec(event).storage() == Some(event),
        <Event as FromSpec<storage::Event>>::from_spec(event).spec_owner() == Owner::Storage,
        <Event as FromSpec<storage::Event>>::from_spec(event).chainspec() is None,
        <Event as FromSpec<storage::Event>>::from_spec(event).contract_runtime() is None,
{
}

/// The lossless embedding of the contract runtime's events: an event that is wrapped and then
/// unwrapped by the routing is the event itself, and it is routed to the runtime alone.
pub proof fn lemma_contract_runtime_round_trip(event: contract_runtime::Event)
    ensures
        <Event as FromSpec<contract_runtime::Event>>::from_spec(event).contract_runtime()
            == Some(event),
        <Event as FromSpec<contract_runtime::Event>>::from_spec(event).spec_owner()
            == Owner::ContractRuntime,
        <Event as FromSpec<contract_runtime::Event>>::from_spec(event).chainspec() is None,
        <Event as FromSpec<contract_runtime::Event>>::from_spec(event).storage() is None,
{
}

/// There is exactly one embedding of each component's events: an event of the reactor wraps a
/// given event of a component if and only if it is the embedding of that event.
pub proof fn lemma_embedding_unique(event: Event)
    ensures
        forall|inner: chainspec_loader::Event|
            event.chainspec() == Some(inner) <==> event == #[trigger] embed_chainspec()(inner),
        forall|inner: storage::Event|
            event.storage() == Some(inner) <==> event == #[trigger] embed_storage()(inner),
        forall|inner: contract_runtime::Event|
            event.contract_runtime() == Some(inner) <==> event
                == #[trigger] embed_contract_runtime()(inner),
{
}

/// Every event of the reactor has exactly one owner: it wraps an event of the component that
/// owns it, and of no other.
pub proof fn lemma_one_owner(event: Event)
    ensures
        event.spec_owner() == Owner::ChainspecLoader <==> event.chainspec() is Some,
        event.spec_owner() == Owner::Storage <==> event.storage() is Some,
        event.spec_owner() == Owner::ContractRuntime <==> event.contract_runtime() is Some,
{
}

/// Error type returned by the initializer reactor.
#[derive(Debug)]
pub enum Error {
    /// `Config` error.
    ConfigError(String),
    /// Metrics-related error
    Metrics(PrometheusError),
    /// `ChainspecHandler` component error.
    Chainspec(chainspec::Error),
    /// `Storage` component error.
    Storage(storage::Error),
    /// `ContractRuntime` component error.
    ContractRuntime(contract_runtime::ConfigError),
    /// An error that occurred when creating a `SmallNetworkIdentity`.
    SmallNetworkIdentityError(SmallNetworkIdentityError),
}

impl From<PrometheusError> for Error {
    fn from(error: PrometheusError) -> (converted: Self) {
        Error::Metrics(error)
    }
}

impl FromSpecImpl<PrometheusError> for Error {
    open spec fn obeys_from_spec() -> bool {
        true
    }

    open spec fn from_spec(error: PrometheusError) -> Self {
        Error::Metrics(error)
    }
}

impl From<chainspec::Error> for Error {
    fn from(error: chainspec::Error) -> (converted: Self) {
        Error::Chainspec(error)
    }
}

impl FromSpecImpl<chainspec::Error> for Error {
    open spec fn obeys_from_spec() -> bool {
        true
    }

    open spec fn from_spec(error: chainspec::Error) -> Self {
        Error::Chainspec(error)
    }
}

impl From<storage::Error> for Error {
    fn from(error: storage::Error) -> (converted: Self) {
        Error::Storage(error)
    }
}

impl FromSpecImpl<storage::Error> for Error {
    open spec fn obeys_from_spec() -> bool {
        true
    }

    open spec fn from_spec(error: storage::Error) -> Self {
        Error::Storage(error)
    }
}

impl From<contract_runtime::ConfigError> for Error {
    fn from(error: contract_runtime::ConfigError) -> (converted: Self) {
        Error::ContractRuntime(error)
    }
}

impl FromSpecImpl<contract_runtime::ConfigError> for Error {
    open spec fn obeys_from_spec() -> bool {
        true
    }

    open spec fn from_spec(error: contract_runtime::ConfigError) -> Self {
        Error::ContractRuntime(error)
    }
}

impl From<SmallNetworkIdentityError> for Error {
    fn from(error: SmallNetworkIdentityError) -> (converted: Self) {
        Error::SmallNetworkIdentityError(error)
    }
}

impl FromSpecImpl<SmallNetworkIdentityError> for Error {
    open spec fn obeys_from_spec() -> bool {
        true
    }

    open spec fn from_spec(error: SmallNetworkIdentityError) -> Self {
        Error::SmallNetworkIdentityError(error)
    }
}

/// Initializer node reactor.
#[derive(Debug)]
pub struct Reactor {
    config: WithDir<validator::Config>,
    chainspec_loader: ChainspecLoader,
    storage: Storage,
    contract_runtime: ContractRuntime,
    small_network_identity: SmallNetworkIdentity,
    network_identity: NetworkIdentity,
}

/// The state of an initializer reactor: its configuration, the states of its components, and
/// the identities of the node.
pub ghost struct ReactorView {
    /// The directory of the node's configuration.
    pub dir: Seq<char>,
    /// The node's configuration.
    pub config: validator::Config,
    /// The state of the chainspec loader.
    pub chainspec_loader: ChainspecLoaderView,
    /// The state of the storage component.
    pub storage: StorageView,
    /// The state of the contract runtime.
    pub contract_runtime: ContractRuntimeView,
    /// The node's identity in the small network.
    pub small_network_identity: SmallNetworkIdentityView,
    /// The node's identity in the network.
    pub network_identity: Seq<u8>,
}

impl View for Reactor {
    type V = ReactorView;

    closed spec fn view(&self) -> ReactorView {
        ReactorView {
            dir: self.config.spec_dir(),
            config: self.config.spec_value(),
            chainspec_loader: self.chainspec_loader@,
            storage: self.storage@,
            contract_runtime: self.contract_runtime@,
            small_network_identity: self.small_network_identity@,
            network_identity: self.network_identity@,
        }
    }
}

/// The state in which a reactor starts: the loader `chainspec_loader`, the storage `storage`,
/// a contract runtime as `config` describes it with the metrics `metrics`, and the two
/// identities.
pub open spec fn started(
    config: WithDir<validator::Config>,
    chainspec_loader: ChainspecLoaderView,
    storage: StorageView,
    metrics: ContractRuntimeMetrics,
    small_network_identity: SmallNetworkIdentityView,
    network_identity: Seq<u8>,
) -> ReactorView {
    ReactorView {
        dir: config.spec_dir(),
        config: config.spec_value(),
        chainspec_loader,
        storage,
        contract_runtime: ContractRuntimeView {
            config: config.spec_value().contract_runtime,
            storage_path: config.spec_value().storage.path@,
            metrics,
        },
        small_network_identity,
        network_identity,
    }
}

/// The storage that `config` describes, as it is when it was just opened.
pub open spec fn opened(config: WithDir<validator::Config>) -> StorageView {
    StorageView { path: config.spec_value().storage.path@, chainspecs: Seq::empty() }
}

/// What is made outside for a reactor before it starts: the node's two identities.  Of the
/// identity in the small network it is the outcome of its generation, which can fail.
#[derive(Debug)]
pub struct Identities {
    /// The identity in the small network, or why none could be generated.
    pub small_network_identity: Result<SmallNetworkIdentity, SmallNetworkIdentityError>,
    /// The identity in the network.
    pub network_identity: NetworkIdentity,
}

impl Reactor {
    /// Returns whether the initialization process completed successfully or not.
    pub fn stopped_successfully(&self) -> (success: bool)
        ensures
            success == (self@.chainspec_loader.completed_successfully == Some(true)),
    {
        self.chainspec_loader.stopped_successfully()
    }

    /// Makes the reactor for a chainspec that is valid already.  See
    /// `new_with_chainspec_loader` for what happens then.
    pub fn new_with_chainspec(
        config: WithDir<validator::Config>,
        registry: &Registry,
        event_queue: EventQueueHandle<Event>,
        chainspec: Chainspec,
        identities: Identities,
    ) -> (res: Result<(Self, Effects<Event>), Error>)
        ensures
            Self::assembled_for_some_answer(
                config,
                ChainspecLoaderView { chainspec: chainspec@, completed_successfully: None },
                initial_effects(chainspec@.protocol_version),
                identities,
                res,
            ),
    {
        let effect_builder = EffectBuilder::new(event_queue);
        let (chainspec_loader, chainspec_effects) = ChainspecLoader::new_with_chainspec(
            chainspec,
            effect_builder,
        );
        Self::new_with_chainspec_loader(
            config,
            registry,
            chainspec_loader,
            chainspec_effects,
            identities,
        )
    }

    /// Makes the reactor around a chainspec loader, in this order: the storage, the contract
    /// runtime, the identity in the small network, the identity in the network.  The first of
    /// them that cannot be made is the error, and nothing after it is tried.
    ///
    /// The contract runtime registers its metrics with `registry`, which decides whether that
    /// succeeds; `assemble` says the rest.
    pub fn new_with_chainspec_loader(
        config: WithDir<validator::Config>,
        registry: &Registry,
        chainspec_loader: ChainspecLoader,
        chainspec_effects: Effects<chainspec_loader::Event>,
        identities: Identities,
    ) -> (res: Result<(Self, Effects<Event>), Error>)
        ensures
            Self::assembled_for_some_answer(
                config,
                chainspec_loader@,
                chainspec_effects@,
                identities,
                res,
            ),
    {
        let storage_of = |config: &validator::Config| -> (storage: storage::Config)
            ensures
                storage == config.storage,
            { config.storage.clone() };
        let storage_config = config.map_ref(storage_of);
        let storage = match Storage::new(&storage_config) {
            Ok(storage) => storage,
            Err(error) => {
                let res = Err(Error::Storage(error));
                assert(Self::assembled(
                    config,
                    chainspec_loader@,
                    chainspec_effects@,
                    None,
                    identities,
                    res,
                ));
                return res;
            },
        };
        let metrics = ContractRuntimeMetrics::new(registry);
        let ghost answer = metrics;
        let res = Self::assemble(
            config,
            storage,
            metrics,
            chainspec_loader,
            chainspec_effects,
            identities,
        );
        assert(Self::assembled(
            config,
            chainspec_loader@,
            chainspec_effects@,
            Some(answer),
            identities,
            res,
        ));
        res
    }

    /// Whether `res` is what making a reactor comes to for some answer of the registry to
    /// the metrics of the contract runtime, or without the registry being asked.  Metrics
    /// that the registry took are those of the contract runtime, under their names.
    pub open spec fn assembled_for_some_answer(
        config: WithDir<validator::Config>,
        chainspec_loader: ChainspecLoaderView,
        chainspec_effects: Seq<Effect<chainspec_loader::Event>>,
        identities: Identities,
        res: Result<(Self, Effects<Event>), Error>,
    ) -> bool {
        exists|answer: Option<Result<ContractRuntimeMetrics, PrometheusError>>|
            {
                &&& answer matches Some(Ok(metrics)) ==> metrics.well_named()
                &&& #[trigger] Self::assembled(
                    config,
                    chainspec_loader,
                    chainspec_effects,
                    answer,
                    identities,
                    res,
                )
            }
    }

    /// Whether `res` is what making a reactor comes to, given the answer `answer` of the
    /// registry to the metrics of the contract runtime: `None` where the registry was not
    /// asked.  A storage without a path is the error, and the registry is not asked then.
    /// With a path, the storage is opened, the registry is asked, and the rest is as
    /// `assembled_around` says.
    pub open spec fn assembled(
        config: WithDir<validator::Config>,
        chainspec_loader: ChainspecLoaderView,
        chainspec_effects: Seq<Effect<chainspec_loader::Event>>,
        answer: Option<Result<ContractRuntimeMetrics, PrometheusError>>,
        identities: Identities,
        res: Result<(Self, Effects<Event>), Error>,
    ) -> bool {
        if config.spec_value().storage.path@.len() == 0 {
            &&& answer is None
            &&& res == Err::<(Self, Effects<Event>), Error>(
                Error::Storage(storage::Error::MissingPath),
            )
        } else {
            &&& answer is Some
            &&& Self::assembled_around(
                config,
                chainspec_loader,
                chainspec_effects,
                opened(config),
                answer->Some_0,
                identities,
                res,
            )
        }
    }

    /// Whether `res` is what making a reactor around the storage `storage` comes to, given
    /// what the registry gave for the metrics of the contract runtime and what was made
    /// outside for the identities.  In the order of construction: the registry's refusal is
    /// the error; then the error with which the identity in the small network could not be
    /// generated, unchanged.  Otherwise the reactor starts with the effects of its loader,
    /// lifted, with the metrics that the registry gave and with the two identities as they
    /// were handed in.
    pub open spec fn assembled_around(
        config: WithDir<validator::Config>,
        chainspec_loader: ChainspecLoaderView,
        chainspec_effects: Seq<Effect<chainspec_loader::Event>>,
        storage: StorageView,
        metrics: Result<ContractRuntimeMetrics, PrometheusError>,
        identities: Identities,
        res: Result<(Self, Effects<Event>), Error>,
    ) -> bool {
        if metrics is Err {
            res == Err::<(Self, Effects<Event>), Error>(
                Error::ContractRuntime(contract_runtime::ConfigError::Prometheus(metrics->Err_0)),
            )
        } else if identities.small_network_identity is Err {
            res == Err::<(Self, Effects<Event>), Error>(
                Error::SmallNetworkIdentityError(identities.small_network_identity->Err_0),
            )
        } else {
            &&& res matches Ok((reactor, effects))
            &&& reactor@ == started(
                config,
                chainspec_loader,
                storage,
                metrics->Ok_0,
                identities.small_network_identity->Ok_0@,
                identities.network_identity@,
            )
            &&& effects@ == lift(chainspec_effects, embed_chainspec())
        }
    }

    /// Makes the reactor around a storage that was opened, of what the registry gave for the
    /// metrics of the contract runtime and of the identities that were made outside.
    pub fn assemble(
        config: WithDir<validator::Config>,
        storage: Storage,
        metrics: Result<ContractRuntimeMetrics, PrometheusError>,
        chainspec_loader: ChainspecLoader,
        chainspec_effects: Effects<chainspec_loader::Event>,
        identities: Identities,
    ) -> (res: Result<(Self, Effects<Event>), Error>)
        ensures
            Self::assembled_around(
                config,
                chainspec_loader@,
                chainspec_effects@,
                storage@,
                metrics,
                identities,
                res,
            ),
    {
        let storage_of = |config: &validator::Config| -> (storage: storage::Config)
            ensures
                storage == config.storage,
            { config.storage.clone() };
        let storage_config = config.map_ref(storage_of);
        let contract_runtime = match ContractRuntime::with_metrics(
            storage_config,
            &config.value().contract_runtime,
            metrics,
        ) {
            Ok(contract_runtime) => contract_runtime,
            Err(error) => {
                return Err(Error::ContractRuntime(error));
            },
        };

        let wrap = |event: chainspec_loader::Event| -> (wrapped: Event)
            ensures
                wrapped == Event::Chainspec(event),
            { Event::Chainspec(event) };
        let effects = reactor::wrap_effects(wrap, chainspec_effects);
        assert(computes(wrap, embed_chainspec()));

        let Identities { small_network_identity, network_identity } = identities;
        let small_network_identity = match small_network_identity {
            Ok(identity) => identity,
            Err(error) => {
                return Err(Error::SmallNetworkIdentityError(error));
            },
        };

        let reactor = Reactor {
            config,
            chainspec_loader,
            storage,
            contract_runtime,
            small_network_identity,
            network_identity,
        };
        Ok((reactor, effects))
    }

    /// Makes the reactor of what was read from the node's directory and of the identities
    /// that were made for the node.
    ///
    /// The chainspec loader is made first, so that an invalid chainspec fails fast: its error
    /// comes before the storage is opened and before anything is registered with `registry`.
    /// With a valid chainspec, the rest is as `new_with_chainspec_loader` says.  Nothing is
    /// drawn from `rng`, whatever the outcome.
    pub fn new(
        config: WithDir<validator::Config>,
        registry: &Registry,
        event_queue: EventQueueHandle<Event>,
        rng: &mut NodeRng,
        source: ChainspecSource,
        identities: Identities,
    ) -> (res: Result<(Self, Effects<Event>), Error>)
        ensures
            *final(rng) == *old(rng),
            match rows_fault(source.accounts@) {
                Some(fault) => res == Err::<(Self, Effects<Event>), Error>(
                    Error::Chainspec(chainspec::Error::LoadChainspecAccounts(fault.error())),
                ),
                None => Self::assembled_for_some_answer(
                    config,
                    ChainspecLoaderView {
                        chainspec: source.chainspec(),
                        completed_successfully: None,
                    },
                    initial_effects(source.protocol_version),
                    identities,
                    res,
                ),
            },
    {
        let effect_builder = EffectBuilder::new(event_queue);

        // Construct the `ChainspecLoader` first so we fail fast if the chainspec is invalid.
        let (chainspec_loader, chainspec_effects) = match ChainspecLoader::new(
            source,
            effect_builder,
        ) {
            Ok(made) => made,
            Err(error) => {
                return Err(Error::Chainspec(error));
            },
        };
        Self::new_with_chainspec_loader(
            config,
            registry,
            chainspec_loader,
            chainspec_effects,
            identities,
        )
    }
}

impl Reactor {
    /// Takes the reactor apart for the validator reactor.  Nothing is made anew: the parts are
    /// the reactor's own, in the state in which they are.
    pub fn into_validator_config(self) -> (parts: ValidatorInitConfig)
        ensures
            parts.state() == self@,
    {
        ValidatorInitConfig {
            config: self.config,
            chainspec_loader: self.chainspec_loader,
            storage: self.storage,
            contract_runtime: self.contract_runtime,
            small_network_identity: self.small_network_identity,
            network_identity: self.network_identity,
        }
    }
}

impl reactor::Reactor for Reactor {
    type Event = Event;

    type Config = WithDir<validator::Config>;

    type Error = Error;

    /// An event goes to the component that owns it.  That component alone moves on, and its
    /// effects are the reactor's, lifted to the reactor's events.
    open spec fn transition(state: ReactorView, rng: NodeRng, event: Event) -> Step<
        ReactorView,
        Event,
    > {
        match event {
            Event::Chainspec(event) => {
                let step = <ChainspecLoader as Component<Event>>::transition(
                    state.chainspec_loader,
                    rng,
                    event,
                );
                Step {
                    state: ReactorView { chainspec_loader: step.state, ..state },
                    rng: step.rng,
                    effects: lift(step.effects, embed_chainspec()),
                }
            },
            Event::Storage(event) => {
                let step = <Storage as Component<Event>>::transition(state.storage, rng, event);
                Step {
                    state: ReactorView { storage: step.state, ..state },
                    rng: step.rng,
                    effects: lift(step.effects, embed_storage()),
                }
            },
            Event::ContractRuntime(event) => {
                let step = <ContractRuntime as Component<Event>>::transition(
                    state.contract_runtime,
                    rng,
                    event,
                );
                Step {
                    state: ReactorView { contract_runtime: step.state, ..state },
                    rng: step.rng,
                    effects: lift(step.effects, embed_contract_runtime()),
                }
            },
        }
    }

    /// The reactor has reached its end once the chainspec loader is done, with or without
    /// success.
    open spec fn stopped(state: ReactorView) -> bool {
        state.chainspec_loader.completed_successfully is Some
    }

    fn dispatch_event(
        &mut self,
        effect_builder: EffectBuilder<Event>,
        rng: &mut NodeRng,
        event: Event,
    ) -> (effects: Effects<Event>) {
        match event {
            Event::Chainspec(event) => {
                let wrap = |event: chainspec_loader::Event| -> (wrapped: Event)
                    ensures
                        wrapped == Event::Chainspec(event),
                    { Event::Chainspec(event) };
                let effects = self.chainspec_loader.handle_event(effect_builder, rng, event);
                let wrapped = reactor::wrap_effects(wrap, effects);
                assert(computes(wrap, embed_chainspec()));
                wrapped
            },
            Event::Storage(event) => {
                let wrap = |event: storage::Event| -> (wrapped: Event)
                    ensures
                        wrapped == Event::Storage(event),
                    { Event::Storage(event) };
                let effects = self.storage.handle_event(effect_builder, rng, event);
                let wrapped = reactor::wrap_effects(wrap, effects);
                assert(computes(wrap, embed_storage()));
                wrapped
            },
            Event::ContractRuntime(event) => {
                let wrap = |event: contract_runtime::Event| -> (wrapped: Event)
                    ensures
                        wrapped == Event::ContractRuntime(event),
                    { Event::ContractRuntime(event) };
                let effects = self.contract_runtime.handle_event(effect_builder, rng, event);
                let wrapped = reactor::wrap_effects(wrap, effects);
                assert(computes(wrap, embed_contract_runtime()));
                wrapped
            },
        }
    }

    fn is_stopped(&mut self) -> (stopped: bool) {
        self.chainspec_loader.is_stopped()
    }
}

/// No two components share state: a dispatch moves the component that owns the event and
/// leaves the others, the configuration and the identities as they are.  The events that may
/// follow the effects of the dispatch are events for that same component.  None of the
/// reactor's components draws from the random source.
pub proof fn lemma_dispatch_is_local(state: ReactorView, rng: NodeRng, event: Event)
    ensures
        ({
            let after = <Reactor as reactor::Reactor>::transition(state, rng, event);
            &&& after.rng == rng
            &&& after.state.dir == state.dir
            &&& after.state.config == state.config
            &&& after.state.small_network_identity == state.small_network_identity
            &&& after.state.network_identity == state.network_identity
            &&& event.spec_owner() != Owner::ChainspecLoader ==> after.state.chainspec_loader
                == state.chainspec_loader
            &&& event.spec_owner() != Owner::Storage ==> after.state.storage == state.storage
            &&& event.spec_owner() != Owner::ContractRuntime ==> after.state.contract_runtime
                == state.contract_runtime
            &&& forall|i: int|
                0 <= i < after.effects.len() ==> match (#[trigger] after.effects[i]).continuation {
                    Continuation::Ignore => true,
                    Continuation::Event(follow) => follow.spec_owner() == event.spec_owner(),
                    Continuation::Result { ok, err } => ok.spec_owner() == event.spec_owner()
                        && err.spec_owner() == event.spec_owner(),
                }
        }),
{
}

/// The course of an initialization, for every reactor, random source and outcome of genesis.
///
/// A runner that starts with the effects of a fresh chainspec loader needs four turns and one
/// piece of outside work: the chainspec is put to storage, the storage answers, the loader asks
/// for genesis to be committed, the contract runtime hands the run to the execution engine,
/// and the outcome of the run reaches the loader.  Then the reactor has stopped, successfully
/// if and only if genesis succeeded; no event and no request waits; the storage keeps the
/// chainspec; nothing else has changed, and nothing was drawn from the random source.
pub proof fn lemma_initialization_stops(state: ReactorView, rng: NodeRng, genesis: Outcome)
    ensures
        ({
            let embedding = request_embedding::<Event>();
            let version = state.chainspec_loader.chainspec.protocol_version;
            let start = RunnerView {
                reactor: state,
                rng,
                queue: Seq::<Event>::empty(),
                waiting: Seq::<Waiting<Event>>::empty(),
                next_responder: 0u64,
                jobs: Seq::<Effect<Event>>::empty(),
            };
            let asked = start.processed_all(
                lift(initial_effects(version), embed_chainspec()),
                embedding,
            );
            let stored = advanced::<Reactor>(asked.0, embedding);
            let committing = advanced::<Reactor>(stored.0, embedding);
            let executing = advanced::<Reactor>(committing.0, embedding);
            let executed = executing.0.completed(executing.1[0], genesis);
            let done = advanced::<Reactor>(executed, embedding);
            &&& asked.1.len() == 0
            &&& stored.1.len() == 0
            &&& committing.1.len() == 0
            &&& executing.1 == seq![
                Effect {
                    work: Work::ExecuteGenesis { version, responder: Responder { id: 1 } },
                    continuation: Continuation::<Event>::Ignore,
                },
            ]
            &&& done.1.len() == 0
            &&& done.0.queue.len() == 0
            &&& done.0.waiting.len() == 0
            &&& done.0.rng == rng
            &&& done.0.reactor == (ReactorView {
                chainspec_loader: ChainspecLoaderView {
                    completed_successfully: Some(genesis == Outcome::Success),
                    ..state.chainspec_loader
                },
                storage: StorageView {
                    chainspecs: with_version(state.storage.chainspecs, version),
                    ..state.storage
                },
                ..state
            })
            &&& <Reactor as reactor::Reactor>::stopped(done.0.reactor)
        }),
{
    let embedding = request_embedding::<Event>();
    let version = state.chainspec_loader.chainspec.protocol_version;
    let none = Seq::<Effect<Event>>::empty();
    let put_responder = Responder { id: 0 };
    let commit_responder = Responder { id: 1 };
    let put_follow = Continuation::Event(
        Event::Chainspec(chainspec_loader::Event::PutToStorage { version }),
    );
    let commit_follow = Continuation::Result {
        ok: Event::Chainspec(chainspec_loader::Event::CommitGenesisResult(Outcome::Success)),
        err: Event::Chainspec(chainspec_loader::Event::CommitGenesisResult(Outcome::Failure)),
    };
    let start = RunnerView {
        reactor: state,
        rng,
        queue: Seq::<Event>::empty(),
        waiting: Seq::<Waiting<Event>>::empty(),
        next_responder: 0u64,
        jobs: Seq::<Effect<Event>>::empty(),
    };

    // The chainspec is put to storage.
    let put = Effect { work: Work::PutChainspec { version }, continuation: put_follow };
    let first = lift(initial_effects(version), embed_chainspec());
    assert(first =~= seq![put]);
    lemma_processed_single(start, put, embedding);
    let asked = start.processed_all(first, embedding);
    let put_event = Event::Storage(
        storage::Event::StorageRequest(
            StorageRequest::PutChainspec { version, responder: put_responder },
        ),
    );
    assert(asked.0.queue =~= seq![put_event]);
    assert(asked.0.waiting =~= seq![Waiting { responder: put_responder, continuation: put_follow }]);
    assert(asked.1 =~= none);

    // The storage answers.
    let kept = ReactorView {
        storage: StorageView {
            chainspecs: with_version(state.storage.chainspecs, version),
            ..state.storage
        },
        ..state
    };
    let answer = Effect {
        work: Work::Respond { responder: put_responder, outcome: Outcome::Success },
        continuation: Continuation::<Event>::Ignore,
    };
    let put_step = <Reactor as reactor::Reactor>::transition(asked.0.reactor, asked.0.rng, put_event);
    assert(put_step.effects =~= seq![answer]);
    let after_put = RunnerView {
        reactor: put_step.state,
        rng: put_step.rng,
        queue: asked.0.queue.drop_first(),
        ..asked.0
    };
    assert(after_put.queue =~= Seq::<Event>::empty());
    lemma_processed_single(after_put, answer, embedding);
    assert(first_waiting(after_put.waiting, put_responder) == Some(0int)) by {
        reveal_with_fuel(first_waiting, 2);
    }
    let stored = advanced::<Reactor>(asked.0, embedding);
    let stored_event = Event::Chainspec(chainspec_loader::Event::PutToStorage { version });
    assert(stored.0.queue =~= seq![stored_event]);
    assert(stored.0.waiting =~= Seq::<Waiting<Event>>::empty());
    assert(stored.0.reactor == kept);
    assert(stored.1 =~= none);

    // The loader asks for genesis to be committed.
    let commit = Effect { work: Work::CommitGenesis { version }, continuation: commit_follow };
    let stored_step = <Reactor as reactor::Reactor>::transition(
        stored.0.reactor,
        stored.0.rng,
        stored_event,
    );
    assert(stored_step.effects =~= seq![commit]);
    let after_stored = RunnerView {
        reactor: stored_step.state,
        rng: stored_step.rng,
        queue: stored.0.queue.drop_first(),
        ..stored.0
    };
    assert(after_stored.queue =~= Seq::<Event>::empty());
    lemma_processed_single(after_stored, commit, embedding);
    let committing = advanced::<Reactor>(stored.0, embedding);
    let commit_event = Event::ContractRuntime(
        contract_runtime::Event::Request(
            ContractRuntimeRequest::CommitGenesis { version, responder: commit_responder },
        ),
    );
    assert(committing.0.queue =~= seq![commit_event]);
    assert(committing.0.waiting =~= seq![
        Waiting { responder: commit_responder, continuation: commit_follow },
    ]);
    assert(committing.0.reactor == kept);
    assert(committing.1 =~= none);

    // The contract runtime hands the run to the execution engine.
    let job = Effect {
        work: Work::ExecuteGenesis { version, responder: commit_responder },
        continuation: Continuation::<Event>::Ignore,
    };
    let commit_step = <Reactor as reactor::Reactor>::transition(
        committing.0.reactor,
        committing.0.rng,
        commit_event,
    );
    assert(commit_step.effects =~= seq![job]);
    let after_commit = RunnerView {
        reactor: commit_step.state,
        rng: commit_step.rng,
        queue: committing.0.queue.drop_first(),
        ..committing.0
    };
    assert(after_commit.queue =~= Seq::<Event>::empty());
    lemma_processed_single(after_commit, job, embedding);
    let executing = advanced::<Reactor>(committing.0, embedding);
    assert(executing.1 =~= seq![job]);
    assert(executing.0 == after_commit);

    // The outcome of the run reaches the loader.
    assert(first_waiting(executing.0.waiting, commit_responder) == Some(0int)) by {
        reveal_with_fuel(first_waiting, 2);
    }
    let executed = executing.0.completed(executing.1[0], genesis);
    let result_event = Event::Chainspec(chainspec_loader::Event::CommitGenesisResult(genesis));
    assert(executed.queue =~= seq![result_event]);
    assert(executed.waiting =~= Seq::<Waiting<Event>>::empty());
    let result_step = <Reactor as reactor::Reactor>::transition(
        executed.reactor,
        executed.rng,
        result_event,
    );
    assert(result_step.effects =~= none);
    let done = advanced::<Reactor>(executed, embedding);
    assert(executed.queue.drop_first() =~= Seq::<Event>::empty());
    assert(done.1 =~= none);
}

/// The course of an initialization, step by step, for every reactor whose loader is not done,
/// every random source and every outcome of genesis.
///
/// A runner that has taken up the effects of a fresh chainspec loader dispatches three events
/// in three steps, hands out the run of genesis in the fourth, dispatches the event that
/// follows its outcome in the fifth, and has stopped at the sixth, with nothing waiting.  The
/// initialization succeeded if and only if genesis did.
pub proof fn lemma_initialization_by_steps(state: ReactorView, rng: NodeRng, genesis: Outcome)
    requires
        state.chainspec_loader.completed_successfully is None,
    ensures
        ({
            let embedding = request_embedding::<Event>();
            let version = state.chainspec_loader.chainspec.protocol_version;
            let start = RunnerView {
                reactor: state,
                rng,
                queue: Seq::<Event>::empty(),
                waiting: Seq::<Waiting<Event>>::empty(),
                next_responder: 0u64,
                jobs: Seq::<Effect<Event>>::empty(),
            };
            let asked = start.taken_up(lift(initial_effects(version), embed_chainspec()), embedding);
            let first = stepped::<Reactor>(asked, embedding);
            let second = stepped::<Reactor>(first.0, embedding);
            let third = stepped::<Reactor>(second.0, embedding);
            let fourth = stepped::<Reactor>(third.0, embedding);
            let job = Effect {
                work: Work::ExecuteGenesis { version, responder: Responder { id: 1 } },
                continuation: Continuation::<Event>::Ignore,
            };
            let fifth = stepped::<Reactor>(fourth.0.completed(job, genesis), embedding);
            let sixth = stepped::<Reactor>(fifth.0, embedding);
            &&& first.1 == Action::<Event>::Dispatched
            &&& second.1 == Action::<Event>::Dispatched
            &&& third.1 == Action::<Event>::Dispatched
            &&& fourth.1 == Action::Perform(job)
            &&& fifth.1 == Action::<Event>::Dispatched
            &&& sixth.1 == Action::<Event>::Stopped
            &&& sixth.0 == fifth.0
            &&& fifth.0.queue.len() == 0
            &&& fifth.0.waiting.len() == 0
            &&& fifth.0.jobs.len() == 0
            &&& fifth.0.rng == rng
            &&& fifth.0.reactor.chainspec_loader.completed_successfully == Some(
                genesis == Outcome::Success,
            )
        }),
{
    let embedding = request_embedding::<Event>();
    let version = state.chainspec_loader.chainspec.protocol_version;
    let none = Seq::<Effect<Event>>::empty();
    let put_responder = Responder { id: 0 };
    let commit_responder = Responder { id: 1 };
    let put_follow = Continuation::Event(
        Event::Chainspec(chainspec_loader::Event::PutToStorage { version }),
    );
    let commit_follow = Continuation::Result {
        ok: Event::Chainspec(chainspec_loader::Event::CommitGenesisResult(Outcome::Success)),
        err: Event::Chainspec(chainspec_loader::Event::CommitGenesisResult(Outcome::Failure)),
    };
    let start = RunnerView {
        reactor: state,
        rng,
        queue: Seq::<Event>::empty(),
        waiting: Seq::<Waiting<Event>>::empty(),
        next_responder: 0u64,
        jobs: Seq::<Effect<Event>>::empty(),
    };

    // The chainspec is put to storage.
    let put = Effect { work: Work::PutChainspec { version }, continuation: put_follow };
    let initial = lift(initial_effects(version), embed_chainspec());
    assert(initial =~= seq![put]);
    lemma_processed_single(start, put, embedding);
    let asked = start.taken_up(initial, embedding);
    let put_event = Event::Storage(
        storage::Event::StorageRequest(
            StorageRequest::PutChainspec { version, responder: put_responder },
        ),
    );
    assert(asked.queue =~= seq![put_event]);
    assert(asked.waiting =~= seq![Waiting { responder: put_responder, continuation: put_follow }]);
    assert(asked.jobs =~= none);
    assert(asked.reactor == state);

    // The storage answers.
    let answer = Effect {
        work: Work::Respond { responder: put_responder, outcome: Outcome::Success },
        continuation: Continuation::<Event>::Ignore,
    };
    let put_step = <Reactor as reactor::Reactor>::transition(asked.reactor, asked.rng, put_event);
    assert(put_step.effects =~= seq![answer]);
    let after_put = RunnerView {
        reactor: put_step.state,
        rng: put_step.rng,
        queue: asked.queue.drop_first(),
        ..asked
    };
    assert(after_put.queue =~= Seq::<Event>::empty());
    lemma_processed_single(after_put, answer, embedding);
    assert(first_waiting(after_put.waiting, put_responder) == Some(0int)) by {
        reveal_with_fuel(first_waiting, 2);
    }
    let first = stepped::<Reactor>(asked, embedding);
    let stored_event = Event::Chainspec(chainspec_loader::Event::PutToStorage { version });
    assert(first.0.queue =~= seq![stored_event]);
    assert(first.0.waiting =~= Seq::<Waiting<Event>>::empty());
    assert(first.0.jobs =~= none);
    assert(first.0.reactor.chainspec_loader == state.chainspec_loader);

    // The loader asks for genesis to be committed.
    let commit = Effect { work: Work::CommitGenesis { version }, continuation: commit_follow };
    let stored_step = <Reactor as reactor::Reactor>::transition(
        first.0.reactor,
        first.0.rng,
        stored_event,
    );
    assert(stored_step.effects =~= seq![commit]);
    let after_stored = RunnerView {
        reactor: stored_step.state,
        rng: stored_step.rng,
        queue: first.0.queue.drop_first(),
        ..first.0
    };
    assert(after_stored.queue =~= Seq::<Event>::empty());
    lemma_processed_single(after_stored, commit, embedding);
    let second = stepped::<Reactor>(first.0, embedding);
    let commit_event = Event::ContractRuntime(
        contract_runtime::Event::Request(
            ContractRuntimeRequest::CommitGenesis { version, responder: commit_responder },
        ),
    );
    assert(second.0.queue =~= seq![commit_event]);
    assert(second.0.waiting =~= seq![
        Waiting { responder: commit_responder, continuation: commit_follow },
    ]);
    assert(second.0.jobs =~= none);
    assert(second.0.reactor.chainspec_loader == state.chainspec_loader);

    // The contract runtime leaves the run to the execution engine.
    let job = Effect {
        work: Work::ExecuteGenesis { version, responder: commit_responder },
        continuation: Continuation::<Event>::Ignore,
    };
    let commit_step = <Reactor as reactor::Reactor>::transition(
        second.0.reactor,
        second.0.rng,
        commit_event,
    );
    assert(commit_step.effects =~= seq![job]);
    let after_commit = RunnerView {
        reactor: commit_step.state,
        rng: commit_step.rng,
        queue: second.0.queue.drop_first(),
        ..second.0
    };
    assert(after_commit.queue =~= Seq::<Event>::empty());
    lemma_processed_single(after_commit, job, embedding);
    let third = stepped::<Reactor>(second.0, embedding);
    assert(third.0.jobs =~= seq![job]);
    assert(third.0.queue =~= Seq::<Event>::empty());
    assert(third.0.reactor.chainspec_loader == state.chainspec_loader);

    // The run is handed out, and its outcome reaches the loader.
    let fourth = stepped::<Reactor>(third.0, embedding);
    assert(fourth.1 == Action::Perform(job));
    assert(fourth.0.jobs =~= none);
    assert(first_waiting(fourth.0.waiting, commit_responder) == Some(0int)) by {
        reveal_with_fuel(first_waiting, 2);
    }
    let executed = fourth.0.completed(job, genesis);
    let result_event = Event::Chainspec(chainspec_loader::Event::CommitGenesisResult(genesis));
    assert(executed.queue =~= seq![result_event]);
    assert(executed.waiting =~= Seq::<Waiting<Event>>::empty());
    let result_step = <Reactor as reactor::Reactor>::transition(
        executed.reactor,
        executed.rng,
        result_event,
    );
    assert(result_step.effects =~= none);
    let after_result = RunnerView {
        reactor: result_step.state,
        rng: result_step.rng,
        queue: executed.queue.drop_first(),
        ..executed
    };
    assert(after_result.queue =~= Seq::<Event>::empty());
    assert(after_result.processed_all(none, embedding) == (after_result, none));
    let fifth = stepped::<Reactor>(executed, embedding);
    assert(fifth.0.jobs =~= none);
}

/// Taking up a single effect is taking up the sequence that holds it alone.
proof fn lemma_processed_single(
    view: RunnerView<ReactorView, Event>,
    effect: Effect<Event>,
    embedding: spec_fn(Request) -> Event,
)
    ensures
        view.processed_all(seq![effect], embedding).0 == view.processed(effect, embedding).0,
        view.processed_all(seq![effect], embedding).1 == match view.processed(effect, embedding).1 {
            Some(job) => seq![job],
            None => Seq::<Effect<Event>>::empty(),
        },
{
    reveal_with_fuel(RunnerView::processed_all, 2);
    let single = seq![effect];
    assert(single.drop_last() =~= Seq::<Effect<Event>>::empty());
    assert(single.last() == effect);
    assert(Seq::<Effect<Event>>::empty().push(effect) =~= seq![effect]);
}

} // verus!
