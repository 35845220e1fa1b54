//! The contract runtime: the component that has genesis run in the execution engine.

use vstd::prelude::*;
use vstd::std_specs::convert::FromSpecImpl;

use prometheus::Error as PrometheusError;
use prometheus::{Histogram, HistogramOpts, Registry};

use crate::components::{storage, Component, Step};
use crate::effect::requests::ContractRuntimeRequest;
use crate::effect::{Continuation, Effect, EffectBuilder, Effects, Work};
use crate::rng::NodeRng;
use crate::utils::WithDir;

verus! {

/// The registry of metrics.  Its content is not looked into here.
#[verifier::external_type_specification]
#[verifier::external_body]
pub struct ExRegistry(Registry);

/// A histogram of observations.  Its content is not looked into here.
#[verifier::external_type_specification]
#[verifier::external_body]
pub struct ExHistogram(Histogram);

/// The error of the metrics registry.  Its content is not looked into here.
#[verifier::external_type_specification]
#[verifier::external_body]
pub struct ExPrometheusError(PrometheusError);

/// Contract runtime configuration.
#[derive(Clone, Copy, Debug, PartialEq, Eq, Structural)]
pub struct Config {
    /// Whether system contracts are used.
    pub use_system_contracts: bool,
    /// Whether bonding is enabled.
    pub enable_bonding: bool,
    /// The largest size of the global state, in bytes; `None` for the default.
    pub max_global_state_size: Option<usize>,
}

/// An error that occurs when the contract runtime is constructed.
#[derive(Debug)]
pub enum ConfigError {
    /// Error initializing metrics.
    Prometheus(PrometheusError),
}

impl From<PrometheusError> for ConfigError {
    fn from(error: PrometheusError) -> (converted: Self) {
        ConfigError::Prometheus(error)
    }
}

impl FromSpecImpl<PrometheusError> for ConfigError {
    open spec fn obeys_from_spec() -> bool {
        true
    }

    open spec fn from_spec(error: PrometheusError) -> Self {
        ConfigError::Prometheus(error)
    }
}

/// Contract runtime component events.
#[derive(Clone, Copy, Debug, PartialEq, Eq, Structural)]
pub enum Event {
    /// A request made of the contract runtime component.
    Request(ContractRuntimeRequest),
}

impl Event {
    /// The text that describes the event.
    pub open spec fn spec_description(self) -> Seq<char> {
        match self {
            Event::Request(ContractRuntimeRequest::CommitGenesis { .. }) => "commit genesis"@,
        }
    }

    /// Describes the event in words.
    pub fn description(&self) -> (text: String)
        ensures
            text@ == self.spec_description(),
    {
        match self {
            Event::Request(ContractRuntimeRequest::CommitGenesis { .. }) => "commit genesis".to_owned(),
        }
    }
}

/// Calls `prometheus::Histogram::with_opts` on the options that `prometheus::HistogramOpts::new`
/// makes of `name` and `help`, and hands the histogram to `prometheus::Registry::register`.
/// Nothing is claimed of the result: whether the registry takes the histogram depends on what
/// was registered with it before.
#[verifier::external_body]
fn register_histogram(registry: &Registry, name: &str, help: &str) -> (res: Result<
    Histogram,
    PrometheusError,
>) {
    let histogram = Histogram::with_opts(HistogramOpts::new(name, help))?;
    registry.register(Box::new(histogram.clone()))?;
    Ok(histogram)
}

/// The metrics of the contract runtime: the histograms in which whoever runs the execution
/// engine records how long its runs take.
#[derive(Debug)]
pub struct ContractRuntimeMetrics {
    /// The time that executions take.
    pub run_execute: Metric,
    /// The time that applying the effects of an execution takes.
    pub apply_effect: Metric,
    /// The time that queries take.
    pub run_query: Metric,
}

impl ContractRuntimeMetrics {
    /// Registers the metrics of the contract runtime with `registry`, one after the other, and
    /// stops at the first that the registry refuses.  What it registers is `well_named`.
    pub fn new(registry: &Registry) -> (res: Result<Self, PrometheusError>)
        ensures
            res matches Ok(metrics) ==> metrics.well_named(),
    {
        let run_execute = match Metric::register(registry, RUN_EXECUTE_NAME, RUN_EXECUTE_HELP) {
            Ok(metric) => metric,
            Err(error) => {
                return Err(error);
            },
        };
        let apply_effect = match Metric::register(registry, APPLY_EFFECT_NAME, APPLY_EFFECT_HELP) {
            Ok(metric) => metric,
            Err(error) => {
                return Err(error);
            },
        };
        let run_query = match Metric::register(registry, RUN_QUERY_NAME, RUN_QUERY_HELP) {
            Ok(metric) => metric,
            Err(error) => {
                return Err(error);
            },
        };
        Ok(ContractRuntimeMetrics { run_execute, apply_effect, run_query })
    }

    /// Whether each metric is the one that the contract runtime registers in its place: the
    /// time of executions, of applying their effects and of queries, each under its own name
    /// and with its own help text.
    pub open spec fn well_named(self) -> bool {
        &&& self.run_execute.is_named(RUN_EXECUTE_NAME@, RUN_EXECUTE_HELP@)
        &&& self.apply_effect.is_named(APPLY_EFFECT_NAME@, APPLY_EFFECT_HELP@)
        &&& self.run_query.is_named(RUN_QUERY_NAME@, RUN_QUERY_HELP@)
    }
}

/// The contract runtime component.
#[derive(Debug)]
pub struct ContractRuntime {
    config: Config,
    storage_path: String,
    metrics: ContractRuntimeMetrics,
}

/// The state of the contract runtime.
pub ghost struct ContractRuntimeView {
    /// The configuration that the runtime was made with.
    pub config: Config,
    /// The folder of the storage, where the global state lives.
    pub storage_path: Seq<char>,
    /// The metrics that the registry gave.
    pub metrics: ContractRuntimeMetrics,
}

impl View for ContractRuntime {
    type V = ContractRuntimeView;

    closed spec fn view(&self) -> ContractRuntimeView {
        ContractRuntimeView {
            config: self.config,
            storage_path: self.storage_path@,
            metrics: self.metrics,
        }
    }
}

impl ContractRuntime {
    /// Makes the contract runtime, and registers its metrics with `registry`.  The registry
    /// decides whether that succeeds; its error is the only one.
    pub fn new(
        storage_config: WithDir<storage::Config>,
        contract_runtime_config: &Config,
        registry: &Registry,
    ) -> (res: Result<Self, ConfigError>)
        ensures
            res matches Ok(runtime) ==> {
                &&& runtime@.config == *contract_runtime_config
                &&& runtime@.storage_path == storage_config.spec_value().path@
                &&& runtime@.metrics.well_named()
            },
    {
        let metrics = ContractRuntimeMetrics::new(registry);
        Self::with_metrics(storage_config, contract_runtime_config, metrics)
    }

    /// Makes the contract runtime of the metrics that the registry gave, or hands on the
    /// registry's error.
    pub fn with_metrics(
        storage_config: WithDir<storage::Config>,
        contract_runtime_config: &Config,
        metrics: Result<ContractRuntimeMetrics, PrometheusError>,
    ) -> (res: Result<Self, ConfigError>)
        ensures
            match res {
                Ok(runtime) => metrics matches Ok(given) && runtime@ == (ContractRuntimeView {
                    config: *contract_runtime_config,
                    storage_path: storage_config.spec_value().path@,
                    metrics: given,
                }),
                Err(ConfigError::Prometheus(error)) => metrics == Err::<
                    ContractRuntimeMetrics,
                    PrometheusError,
                >(error),
            },
    {
        match metrics {
            Ok(metrics) => Ok(
                ContractRuntime {
                    config: *contract_runtime_config,
                    storage_path: storage_config.value().path.clone(),
                    metrics,
                },
            ),
            Err(error) => Err(ConfigError::Prometheus(error)),
        }
    }

    /// The configuration that the runtime was made with.
    pub fn config(&self) -> (config: Config)
        ensures
            config == self@.config,
    {
        self.config
    }

    /// The folder of the storage, where the global state lives.
    pub fn storage_path(&self) -> (path: &String)
        ensures
            path@ == self@.storage_path,
    {
        &self.storage_path
    }

    /// The metrics of the runtime.
    pub fn metrics(&self) -> (metrics: &ContractRuntimeMetrics)
        ensures
            *metrics == self@.metrics,
    {
        &self.metrics
    }
}

impl<REv> Component<REv> for ContractRuntime {
    type Event = Event;

    type ConstructionError = ConfigError;

    /// A request to commit genesis is handed to the execution engine, which answers the one who
    /// asked.  The runtime itself stays as it is.
    open spec fn transition(state: ContractRuntimeView, rng: NodeRng, event: Event) -> Step<
        ContractRuntimeView,
        Event,
    > {
        match event {
            Event::Request(ContractRuntimeRequest::CommitGenesis { version, responder }) => Step {
                state,
                rng,
                effects: seq![
                    Effect {
                        work: Work::ExecuteGenesis { version, responder },
                        continuation: Continuation::Ignore,
                    },
                ],
            },
        }
    }

    fn handle_event(
        &mut self,
        effect_builder: EffectBuilder<REv>,
        rng: &mut NodeRng,
        event: Event,
    ) -> (effects: Effects<Event>) {
        match event {
            Event::Request(ContractRuntimeRequest::CommitGenesis { version, responder }) => {
                (Work::ExecuteGenesis { version, responder }).ignore()
            },
        }
    }
}

/// The name under which the time of executions is registered.
pub const RUN_EXECUTE_NAME: &'static str = "contract_runtime_run_execute";

/// The help text of the time of executions.
pub const RUN_EXECUTE_HELP: &'static str = "tracking run of engine_state.run_execute in seconds.";

/// The name under which the time of applying the effects of an execution is registered.
pub const APPLY_EFFECT_NAME: &'static str = "contract_runtime_apply_commit";

/// The help text of the time of applying the effects of an execution.
pub const APPLY_EFFECT_HELP: &'static str = "tracking run of engine_state.apply_effect in seconds.";

/// The name under which the time of queries is registered.
pub const RUN_QUERY_NAME: &'static str = "contract_runtime_run_query";

/// The help text of the time of queries.
pub const RUN_QUERY_HELP: &'static str = "tracking run of engine_state.run_query in seconds.";

/// A histogram that the registry took, together with the name and the help text under which
/// it was handed to the registry.
#[derive(Debug)]
pub struct Metric {
    name: String,
    help: String,
    histogram: Histogram,
}

impl Metric {
    /// The name under which the histogram was handed to the registry.
    pub closed spec fn spec_name(self) -> Seq<char> {
        self.name@
    }

    /// The help text with which the histogram was handed to the registry.
    pub closed spec fn spec_help(self) -> Seq<char> {
        self.help@
    }

    /// The histogram.
    pub closed spec fn spec_histogram(self) -> Histogram {
        self.histogram
    }

    /// Whether the histogram was handed to the registry under `name` and with `help`.
    pub open spec fn is_named(self, name: Seq<char>, help: Seq<char>) -> bool {
        self.spec_name() == name && self.spec_help() == help
    }

    /// Hands a new histogram of the name `name` and the help text `help` to `registry`.  The
    /// registry decides whether it takes the histogram; where it does, the metric is the
    /// histogram with that name and that help text.
    pub fn register(registry: &Registry, name: &str, help: &str) -> (res: Result<
        Self,
        PrometheusError,
    >)
        ensures
            res matches Ok(metric) ==> metric.is_named(name@, help@),
    {
        match register_histogram(registry, name, help) {
            Ok(histogram) => Ok(Metric { name: name.to_owned(), help: help.to_owned(), histogram }),
            Err(error) => Err(error),
        }
    }

    /// The name under which the histogram was handed to the registry.
    pub fn name(&self) -> (name: &String)
        ensures
            name@ == self.spec_name(),
    {
        &self.name
    }

    /// The help text with which the histogram was handed to the registry.
    pub fn help(&self) -> (help: &String)
        ensures
            help@ == self.spec_help(),
    {
        &self.help
    }

    /// The histogram, for whoever records in it.
    pub fn histogram(&self) -> (histogram: &Histogram)
        ensures
            *histogram == self.spec_histogram(),
    {
        &self.histogram
    }
}

} // verus!
