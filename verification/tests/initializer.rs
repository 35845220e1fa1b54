use casper_node::components::contract_runtime;
use casper_node::components::network::NetworkIdentity;
use casper_node::components::small_network::{SmallNetworkIdentity, SmallNetworkIdentityError};
use casper_node::components::storage;
use casper_node::components::{chainspec_loader, contract_runtime::ContractRuntimeMetrics};
use casper_node::effect::requests::{ContractRuntimeRequest, Request, StorageRequest};
use casper_node::effect::{Continuation, Effect, EffectBuilder, Effects, Outcome, Responder, Work};
use casper_node::reactor::initializer::{Error, Event, Identities, Owner, Reactor};
use casper_node::reactor::validator;
use casper_node::reactor::{Action, EventQueueHandle, Reactor as _, Runner};
use casper_node::types::chainspec::{
    self, AccountRow, Chainspec, ChainspecAccountsLoadError, ChainspecSource,
};
use casper_node::types::motes::FromDecStrErr;
use casper_node::types::ProtocolVersion;
use casper_node::utils::WithDir;
use casper_node::NodeRng;

fn init_version() -> ProtocolVersion {
    ProtocolVersion::new(1, 0, 0)
}

fn init_config(path: &str) -> WithDir<validator::Config> {
    WithDir::new(
        "/etc/node".to_string(),
        validator::Config {
            storage: storage::Config { path: path.to_string() },
            contract_runtime: contract_runtime::Config {
                use_system_contracts: false,
                enable_bonding: false,
                max_global_state_size: None,
            },
        },
    )
}

fn init_source(hash: &str, balance: &str) -> ChainspecSource {
    ChainspecSource {
        name: "casper-example".to_string(),
        protocol_version: init_version(),
        accounts: vec![Ok(AccountRow {
            public_key_hash: hash.to_string(),
            balance: balance.to_string(),
            bonded_amount: "0".to_string(),
        })],
    }
}

fn init_identities() -> Identities {
    Identities {
        small_network_identity: Ok(SmallNetworkIdentity::new(vec![1, 2, 3], vec![4, 5])),
        network_identity: NetworkIdentity::new(vec![6, 7, 8, 9]),
    }
}

fn init_no_identity(reason: &str) -> Identities {
    Identities {
        small_network_identity: Err(SmallNetworkIdentityError::CouldNotGenerateTlsCertificate(
            reason.to_string(),
        )),
        network_identity: NetworkIdentity::new(vec![6, 7, 8, 9]),
    }
}

fn init_builder() -> EffectBuilder<Event> {
    EffectBuilder::new(EventQueueHandle::new())
}

fn init_reactor(seed: u64) -> (Reactor, Effects<Event>, NodeRng) {
    let registry = prometheus::Registry::new();
    let mut rng = NodeRng::from_seed(seed);
    let (reactor, effects) = Reactor::new(
        init_config("storage"),
        &registry,
        EventQueueHandle::new(),
        &mut rng,
        init_source(&"0f".repeat(32), "1000"),
        init_identities(),
    )
    .unwrap();
    (reactor, effects, rng)
}

#[test]
fn initializer_starts_with_a_valid_chainspec() {
    let registry = prometheus::Registry::new();
    let mut rng = NodeRng::from_seed(0);
    let result = Reactor::new(
        init_config("storage"),
        &registry,
        EventQueueHandle::new(),
        &mut rng,
        init_source(&"0f".repeat(32), "1000"),
        init_identities(),
    );
    let (mut reactor, effects) = result.unwrap();
    assert!(!reactor.is_stopped());
    assert!(!reactor.stopped_successfully());
    assert_eq!(
        effects,
        vec![Effect {
            work: Work::PutChainspec { version: init_version() },
            continuation: Continuation::Event(Event::Chainspec(
                chainspec_loader::Event::PutToStorage { version: init_version() }
            )),
        }]
    );
    assert_eq!(registry.gather().len(), 3);
}

#[test]
fn initializer_starts_for_every_seed_and_draws_nothing() {
    for seed in [0u64, 1, 42, 11066951453180645397, u64::MAX] {
        let (_, _, rng) = init_reactor(seed);
        assert_eq!(rng, NodeRng::from_seed(seed));
    }
}

#[test]
fn initializer_refuses_a_hash_of_31_bytes() {
    let registry = prometheus::Registry::new();
    let mut rng = NodeRng::from_seed(0);
    let result = Reactor::new(
        init_config("storage"),
        &registry,
        EventQueueHandle::new(),
        &mut rng,
        init_source(&"0f".repeat(31), "1000"),
        init_identities(),
    );
    match result {
        Err(Error::Chainspec(chainspec::Error::LoadChainspecAccounts(
            ChainspecAccountsLoadError::InvalidHashLength(length),
        ))) => assert_eq!(length, 31),
        other => panic!("unexpected result: {:?}", other),
    }
    assert_eq!(rng, NodeRng::from_seed(0));
}

#[test]
fn initializer_fails_fast_on_an_invalid_chainspec() {
    // The storage has no path, the registry would refuse the metrics and no identity could be
    // generated: the chainspec is looked at first, and nothing else is touched.
    let registry = prometheus::Registry::new();
    ContractRuntimeMetrics::new(&registry).unwrap();
    let registered = registry.gather().len();
    let mut rng = NodeRng::from_seed(7);
    let result = Reactor::new(
        init_config(""),
        &registry,
        EventQueueHandle::new(),
        &mut rng,
        init_source(&"0f".repeat(32), "12x"),
        init_no_identity("no entropy"),
    );
    assert!(matches!(
        result,
        Err(Error::Chainspec(chainspec::Error::LoadChainspecAccounts(
            ChainspecAccountsLoadError::DecodingMotes(FromDecStrErr::InvalidCharacter)
        )))
    ));
    assert_eq!(rng, NodeRng::from_seed(7));
    assert_eq!(registry.gather().len(), registered);

    let fresh = prometheus::Registry::new();
    let result = Reactor::new(
        init_config("storage"),
        &fresh,
        EventQueueHandle::new(),
        &mut rng,
        init_source("xyz", "12"),
        init_identities(),
    );
    match result {
        Err(Error::Chainspec(chainspec::Error::LoadChainspecAccounts(
            ChainspecAccountsLoadError::DecodingFromHex(error),
        ))) => assert_eq!(error, hex::FromHexError::OddLength),
        other => panic!("unexpected result: {:?}", other),
    }
    assert!(fresh.gather().is_empty());
}

#[test]
fn initializer_passes_on_the_error_of_the_hex_decoder() {
    let registry = prometheus::Registry::new();
    let mut rng = NodeRng::from_seed(7);
    let hash = format!("{}g0", "0f".repeat(31));
    let result = Reactor::new(
        init_config("storage"),
        &registry,
        EventQueueHandle::new(),
        &mut rng,
        init_source(&hash, "12"),
        init_identities(),
    );
    match result {
        Err(Error::Chainspec(chainspec::Error::LoadChainspecAccounts(
            ChainspecAccountsLoadError::DecodingFromHex(error),
        ))) => assert_eq!(error, hex::decode(&hash).unwrap_err()),
        other => panic!("unexpected result: {:?}", other),
    }
}

#[test]
fn initializer_opens_the_storage_before_the_contract_runtime() {
    let registry = prometheus::Registry::new();
    ContractRuntimeMetrics::new(&registry).unwrap();
    let mut rng = NodeRng::from_seed(7);
    let result = Reactor::new(
        init_config(""),
        &registry,
        EventQueueHandle::new(),
        &mut rng,
        init_source(&"0f".repeat(32), "1000"),
        init_no_identity("no entropy"),
    );
    assert!(matches!(result, Err(Error::Storage(storage::Error::MissingPath))));
    assert_eq!(rng, NodeRng::from_seed(7));

    let fresh = prometheus::Registry::new();
    let result = Reactor::new(
        init_config(""),
        &fresh,
        EventQueueHandle::new(),
        &mut rng,
        init_source(&"0f".repeat(32), "1000"),
        init_identities(),
    );
    assert!(matches!(result, Err(Error::Storage(storage::Error::MissingPath))));
    assert!(fresh.gather().is_empty());
}

#[test]
fn initializer_makes_the_contract_runtime_before_the_identities() {
    let registry = prometheus::Registry::new();
    ContractRuntimeMetrics::new(&registry).unwrap();
    let mut rng = NodeRng::from_seed(7);
    let result = Reactor::new(
        init_config("storage"),
        &registry,
        EventQueueHandle::new(),
        &mut rng,
        init_source(&"0f".repeat(32), "1000"),
        init_no_identity("no entropy"),
    );
    assert!(matches!(
        result,
        Err(Error::ContractRuntime(contract_runtime::ConfigError::Prometheus(
            prometheus::Error::AlreadyReg
        )))
    ));
    assert_eq!(rng, NodeRng::from_seed(7));
}

#[test]
fn initializer_passes_on_the_error_of_the_identity() {
    let registry = prometheus::Registry::new();
    let mut rng = NodeRng::from_seed(7);
    let result = Reactor::new(
        init_config("storage"),
        &registry,
        EventQueueHandle::new(),
        &mut rng,
        init_source(&"0f".repeat(32), "1000"),
        init_no_identity("no entropy"),
    );
    match result {
        Err(Error::SmallNetworkIdentityError(error)) => assert_eq!(
            error,
            SmallNetworkIdentityError::CouldNotGenerateTlsCertificate("no entropy".to_string())
        ),
        other => panic!("unexpected result: {:?}", other),
    }
    assert_eq!(rng, NodeRng::from_seed(7));

    let fresh = prometheus::Registry::new();
    let identities = Identities {
        small_network_identity: Err(SmallNetworkIdentityError::ValidationError(
            "expired".to_string(),
        )),
        network_identity: NetworkIdentity::new(Vec::new()),
    };
    let result = Reactor::new(
        init_config("storage"),
        &fresh,
        EventQueueHandle::new(),
        &mut rng,
        init_source(&"0f".repeat(32), "1000"),
        identities,
    );
    match result {
        Err(Error::SmallNetworkIdentityError(error)) => {
            assert_eq!(error, SmallNetworkIdentityError::ValidationError("expired".to_string()))
        }
        other => panic!("unexpected result: {:?}", other),
    }
}

#[test]
fn initializer_is_assembled_of_what_the_registry_gave() {
    let version = init_version();
    let chainspec = || Chainspec::new("test-net".to_string(), version, Vec::new());
    let storage_config =
        WithDir::new("/etc/node".to_string(), storage::Config { path: "storage".to_string() });

    // The registry refused: its error comes before that of the identity.
    let (loader, effects) =
        chainspec_loader::ChainspecLoader::new_with_chainspec(chainspec(), init_builder());
    let result = Reactor::assemble(
        init_config("storage"),
        storage::Storage::new(&storage_config).unwrap(),
        Err(prometheus::Error::Msg("refused".to_string())),
        loader,
        effects,
        init_no_identity("no entropy"),
    );
    match result {
        Err(Error::ContractRuntime(contract_runtime::ConfigError::Prometheus(
            prometheus::Error::Msg(text),
        ))) => assert_eq!(text, "refused"),
        other => panic!("unexpected result: {:?}", other),
    }

    // The registry took the metrics: the reactor starts with the lifted effects of its loader.
    let registry = prometheus::Registry::new();
    let (loader, effects) =
        chainspec_loader::ChainspecLoader::new_with_chainspec(chainspec(), init_builder());
    let (reactor, effects) = Reactor::assemble(
        init_config("storage"),
        storage::Storage::new(&storage_config).unwrap(),
        ContractRuntimeMetrics::new(&registry),
        loader,
        effects,
        init_identities(),
    )
    .unwrap();
    assert_eq!(
        effects,
        vec![Effect {
            work: Work::PutChainspec { version },
            continuation: Continuation::Event(Event::Chainspec(
                chainspec_loader::Event::PutToStorage { version }
            )),
        }]
    );
    let parts = reactor.into_validator_config();
    assert_eq!(parts.small_network_identity, SmallNetworkIdentity::new(vec![1, 2, 3], vec![4, 5]));
    assert_eq!(parts.network_identity, NetworkIdentity::new(vec![6, 7, 8, 9]));
    assert_eq!(parts.contract_runtime.config(), init_config("storage").value().contract_runtime);
    assert_eq!(parts.contract_runtime.metrics().run_execute.name(), "contract_runtime_run_execute");
    assert!(!parts.storage.has_chainspec(version));
}

#[test]
fn initializer_starts_with_a_chainspec_that_is_valid_already() {
    let registry = prometheus::Registry::new();
    let chainspec = Chainspec::new("test-net".to_string(), ProtocolVersion::new(2, 1, 0), Vec::new());
    let (reactor, effects) = Reactor::new_with_chainspec(
        init_config("storage"),
        &registry,
        EventQueueHandle::new(),
        chainspec,
        init_identities(),
    )
    .unwrap();
    assert!(!reactor.stopped_successfully());
    assert_eq!(effects.len(), 1);
    assert_eq!(effects[0].work, Work::PutChainspec { version: ProtocolVersion::new(2, 1, 0) });
}

#[test]
fn initializer_errors_convert_from_their_causes() {
    assert!(matches!(
        Error::from(storage::Error::MissingPath),
        Error::Storage(storage::Error::MissingPath)
    ));
    assert!(matches!(
        Error::from(SmallNetworkIdentityError::ValidationError("expired".to_string())),
        Error::SmallNetworkIdentityError(SmallNetworkIdentityError::ValidationError(_))
    ));
    assert!(matches!(
        Error::from(prometheus::Error::AlreadyReg),
        Error::Metrics(prometheus::Error::AlreadyReg)
    ));
    assert!(matches!(
        Error::from(contract_runtime::ConfigError::Prometheus(prometheus::Error::AlreadyReg)),
        Error::ContractRuntime(_)
    ));
    assert!(matches!(
        Error::from(chainspec::Error::DecodingMotes(FromDecStrErr::InvalidLength)),
        Error::Chainspec(chainspec::Error::DecodingMotes(FromDecStrErr::InvalidLength))
    ));
}

#[test]
fn event_wraps_and_unwraps_without_loss() {
    let version = init_version();
    let responder = Responder { id: 9 };
    let loader_event = chainspec_loader::Event::PutToStorage { version };
    let storage_event =
        storage::Event::StorageRequest(StorageRequest::PutChainspec { version, responder });
    let runtime_event = contract_runtime::Event::Request(ContractRuntimeRequest::CommitGenesis {
        version,
        responder,
    });
    match Event::from(loader_event) {
        Event::Chainspec(inner) => assert_eq!(inner, loader_event),
        other => panic!("routed elsewhere: {:?}", other),
    }
    match Event::from(storage_event) {
        Event::Storage(inner) => assert_eq!(inner, storage_event),
        other => panic!("routed elsewhere: {:?}", other),
    }
    match Event::from(runtime_event) {
        Event::ContractRuntime(inner) => assert_eq!(inner, runtime_event),
        other => panic!("routed elsewhere: {:?}", other),
    }
    assert_eq!(Event::from(loader_event).owner(), Owner::ChainspecLoader);
    assert_eq!(Event::from(storage_event).owner(), Owner::Storage);
    assert_eq!(Event::from(runtime_event).owner(), Owner::ContractRuntime);
}

#[test]
fn event_wraps_requests_for_the_component_that_serves_them() {
    let version = init_version();
    let responder = Responder { id: 7 };
    let put = StorageRequest::PutChainspec { version, responder };
    let commit = ContractRuntimeRequest::CommitGenesis { version, responder };
    assert_eq!(Event::from(put), Event::Storage(storage::Event::StorageRequest(put)));
    assert_eq!(Event::from(commit), Event::ContractRuntime(contract_runtime::Event::Request(commit)));
    assert_eq!(Event::from(Request::Storage(put)), Event::from(put));
    assert_eq!(Event::from(Request::ContractRuntime(commit)), Event::from(commit));
    assert_eq!(
        validator::Event::from(Request::Storage(put)),
        validator::Event::Storage(storage::Event::StorageRequest(put))
    );
}

#[test]
fn event_describes_itself_with_the_name_of_its_component() {
    let version = init_version();
    let responder = Responder { id: 7 };
    assert_eq!(
        Event::Chainspec(chainspec_loader::Event::PutToStorage { version }).description(),
        "chainspec: put chainspec to storage"
    );
    assert_eq!(
        Event::Chainspec(chainspec_loader::Event::CommitGenesisResult(Outcome::Failure))
            .description(),
        "chainspec: commit genesis result: failure"
    );
    assert_eq!(
        Event::from(StorageRequest::PutChainspec { version, responder }).description(),
        "storage: put chainspec"
    );
    assert_eq!(
        Event::from(ContractRuntimeRequest::CommitGenesis { version, responder }).description(),
        "contract runtime: commit genesis"
    );
}

#[test]
fn dispatch_routes_each_event_to_its_component() {
    let (mut reactor, _, mut rng) = init_reactor(0);
    let before = rng;
    let version = init_version();
    let responder = Responder { id: 4 };

    let effects = reactor.dispatch_event(
        init_builder(),
        &mut rng,
        Event::from(StorageRequest::PutChainspec { version, responder }),
    );
    assert_eq!(
        effects,
        vec![Effect {
            work: Work::Respond { responder, outcome: Outcome::Success },
            continuation: Continuation::Ignore,
        }]
    );

    let effects = reactor.dispatch_event(
        init_builder(),
        &mut rng,
        Event::from(ContractRuntimeRequest::CommitGenesis { version, responder }),
    );
    assert_eq!(
        effects,
        vec![Effect {
            work: Work::ExecuteGenesis { version, responder },
            continuation: Continuation::Ignore,
        }]
    );

    let effects = reactor.dispatch_event(
        init_builder(),
        &mut rng,
        Event::Chainspec(chainspec_loader::Event::PutToStorage { version }),
    );
    assert_eq!(
        effects,
        vec![Effect {
            work: Work::CommitGenesis { version },
            continuation: Continuation::Result {
                ok: Event::Chainspec(chainspec_loader::Event::CommitGenesisResult(Outcome::Success)),
                err: Event::Chainspec(chainspec_loader::Event::CommitGenesisResult(Outcome::Failure)),
            },
        }]
    );
    assert!(!reactor.is_stopped());

    let effects = reactor.dispatch_event(
        init_builder(),
        &mut rng,
        Event::Chainspec(chainspec_loader::Event::CommitGenesisResult(Outcome::Success)),
    );
    assert!(effects.is_empty());
    assert!(reactor.is_stopped());
    assert!(reactor.stopped_successfully());
    assert_eq!(rng, before);
}

#[test]
fn initializer_stops_without_success_when_genesis_fails() {
    let (mut reactor, _, mut rng) = init_reactor(0);
    let effects = reactor.dispatch_event(
        init_builder(),
        &mut rng,
        Event::Chainspec(chainspec_loader::Event::CommitGenesisResult(Outcome::Failure)),
    );
    assert!(effects.is_empty());
    assert!(reactor.is_stopped());
    assert!(!reactor.stopped_successfully());
}

fn init_replay(seed: u64, events: &[Event]) -> (Vec<Effects<Event>>, NodeRng, bool, bool) {
    let (mut reactor, _, mut rng) = init_reactor(seed);
    let mut all = Vec::new();
    for event in events {
        all.push(reactor.dispatch_event(init_builder(), &mut rng, *event));
    }
    let stopped = reactor.is_stopped();
    (all, rng, stopped, reactor.stopped_successfully())
}

#[test]
fn replaying_the_same_events_gives_the_same_effects() {
    let version = init_version();
    let events = [
        Event::from(StorageRequest::PutChainspec { version, responder: Responder { id: 0 } }),
        Event::Chainspec(chainspec_loader::Event::PutToStorage { version }),
        Event::from(ContractRuntimeRequest::CommitGenesis { version, responder: Responder { id: 1 } }),
        Event::from(StorageRequest::PutChainspec { version, responder: Responder { id: 2 } }),
        Event::Chainspec(chainspec_loader::Event::CommitGenesisResult(Outcome::Failure)),
        Event::Chainspec(chainspec_loader::Event::CommitGenesisResult(Outcome::Success)),
    ];
    let first = init_replay(17, &events);
    let second = init_replay(17, &events);
    assert_eq!(first, second);
    assert_eq!(first.0.len(), events.len());
    assert!(first.2);
    assert!(first.3);
}

fn init_run_to_the_end(genesis: Outcome) -> Runner<Reactor> {
    let (reactor, effects, rng) = init_reactor(0);
    let mut runner = Runner::new(reactor, rng);
    runner.take_up(effects);
    let mut course = Vec::new();
    loop {
        assert!(course.len() < 100, "the initializer does not stop");
        match runner.step() {
            Action::Dispatched => course.push("dispatched"),
            Action::Perform(job) => {
                assert!(matches!(job.work, Work::ExecuteGenesis { .. }));
                runner.complete(job, genesis);
                course.push("performed");
            }
            Action::Idle => panic!("the initializer is idle before it has stopped"),
            Action::Stopped => break,
        }
    }
    // Four turns and one piece of outside work.
    assert_eq!(course, vec!["dispatched", "dispatched", "dispatched", "performed", "dispatched"]);
    runner
}

#[test]
fn initializer_runs_to_a_successful_end() {
    let mut runner = init_run_to_the_end(Outcome::Success);
    assert!(runner.is_stopped());
    assert!(runner.is_idle());
    assert!(runner.reactor().stopped_successfully());
}

#[test]
fn initializer_runs_to_an_unsuccessful_end_when_genesis_fails() {
    let mut runner = init_run_to_the_end(Outcome::Failure);
    assert!(runner.is_stopped());
    assert!(!runner.reactor().stopped_successfully());
}

#[test]
fn validator_takes_over_the_components_of_the_initializer() {
    let runner = init_run_to_the_end(Outcome::Success);
    let initializer = runner.into_inner();
    let parts = initializer.into_validator_config();
    assert!(parts.storage.has_chainspec(init_version()));
    assert!(parts.chainspec_loader.stopped_successfully());
    assert_eq!(parts.small_network_identity.secret_key(), &vec![1, 2, 3]);
    assert_eq!(parts.small_network_identity.tls_certificate(), &vec![4, 5]);
    assert_eq!(parts.network_identity.keypair(), &vec![6, 7, 8, 9]);
    assert_eq!(parts.config.dir(), "/etc/node");

    let (mut validator, effects) = validator::Reactor::new(parts).unwrap();
    assert!(effects.is_empty());
    assert!(!validator.is_stopped());

    // The storage still knows what it was told in the first phase: a second put of the same
    // chainspec is answered, and the validator never stops.
    let mut rng = NodeRng::from_seed(1);
    let responder = Responder { id: 50 };
    let effects = validator.dispatch_event(
        EffectBuilder::new(EventQueueHandle::new()),
        &mut rng,
        validator::Event::from(Request::Storage(StorageRequest::PutChainspec {
            version: init_version(),
            responder,
        })),
    );
    assert_eq!(
        effects,
        vec![Effect {
            work: Work::Respond { responder, outcome: Outcome::Success },
            continuation: Continuation::Ignore,
        }]
    );
    let effects = validator.dispatch_event(
        EffectBuilder::new(EventQueueHandle::new()),
        &mut rng,
        validator::Event::ChainspecLoader(chainspec_loader::Event::CommitGenesisResult(
            Outcome::Failure,
        )),
    );
    assert!(effects.is_empty());
    assert!(!validator.is_stopped());
}

#[test]
fn validator_refuses_an_initializer_that_is_not_done() {
    let (reactor, _, _) = init_reactor(0);
    assert_eq!(
        validator::Reactor::new(reactor.into_validator_config()).unwrap_err(),
        validator::Error::NotInitialized
    );
    let runner = init_run_to_the_end(Outcome::Failure);
    assert_eq!(
        validator::Reactor::new(runner.into_inner().into_validator_config()).unwrap_err(),
        validator::Error::NotInitialized
    );
}
