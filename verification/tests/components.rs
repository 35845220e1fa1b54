use casper_node::components::chainspec_loader::{self, ChainspecLoader};
use casper_node::components::contract_runtime::{
    self, ContractRuntime, ContractRuntimeMetrics, Metric,
};
use casper_node::components::network::NetworkIdentity;
use casper_node::components::small_network::{SmallNetworkIdentity, SmallNetworkIdentityError};
use casper_node::components::storage::{self, Storage};
use casper_node::components::Component;
use casper_node::effect::requests::{ContractRuntimeRequest, StorageRequest};
use casper_node::effect::{Continuation, Effect, EffectBuilder, Outcome, Responder, Work};
use casper_node::reactor::initializer::Event;
use casper_node::reactor::EventQueueHandle;
use casper_node::types::chainspec::{AccountRow, Chainspec, ChainspecSource};
use casper_node::types::ProtocolVersion;
use casper_node::utils::WithDir;
use casper_node::NodeRng;

fn components_builder() -> EffectBuilder<Event> {
    EffectBuilder::new(EventQueueHandle::new())
}

fn components_chainspec(version: ProtocolVersion) -> Chainspec {
    Chainspec::new("test-net".to_string(), version, Vec::new())
}

fn components_storage_config(path: &str) -> WithDir<storage::Config> {
    WithDir::new("/etc/node".to_string(), storage::Config { path: path.to_string() })
}

fn components_runtime_config() -> contract_runtime::Config {
    contract_runtime::Config {
        use_system_contracts: false,
        enable_bonding: true,
        max_global_state_size: Some(4096),
    }
}

#[test]
fn rng_draws_are_those_of_its_sequence() {
    let mut rng = NodeRng::from_seed(0);
    assert_eq!(rng.next_u64(), 1442695040888963407);
    assert_eq!(rng.next_u64(), 1876011003808476466);
    let mut rng = NodeRng::from_seed(42);
    assert_eq!(rng.next_u64(), 10481999410520546993);
    assert_eq!(rng.next_u64(), 4159066171780167020);
}

#[test]
fn rng_with_the_same_seed_draws_the_same() {
    let mut first = NodeRng::from_seed(2020);
    let mut second = NodeRng::from_seed(2020);
    for _ in 0..100 {
        assert_eq!(first.next_u64(), second.next_u64());
    }
    assert_eq!(first, second);
}

#[test]
fn with_dir_keeps_dir_and_value() {
    let with_dir = WithDir::new("/etc/node".to_string(), 7u8);
    assert_eq!(with_dir.dir(), "/etc/node");
    assert_eq!(*with_dir.value(), 7);
    let mapped = with_dir.map_ref(|value: &u8| *value as u32 + 1);
    assert_eq!(mapped.dir(), "/etc/node");
    assert_eq!(*mapped.value(), 8);
}

#[test]
fn chainspec_loader_starts_by_putting_the_chainspec_to_storage() {
    let version = ProtocolVersion::new(1, 0, 0);
    let (loader, effects) =
        ChainspecLoader::new_with_chainspec(components_chainspec(version), components_builder());
    assert!(!loader.is_stopped());
    assert!(!loader.stopped_successfully());
    assert_eq!(loader.chainspec().protocol_version(), version);
    assert_eq!(
        effects,
        vec![Effect {
            work: Work::PutChainspec { version },
            continuation: Continuation::Event(chainspec_loader::Event::PutToStorage { version }),
        }]
    );
}

#[test]
fn chainspec_loader_decodes_its_source() {
    let source = ChainspecSource {
        name: "test-net".to_string(),
        protocol_version: ProtocolVersion::new(0, 9, 1),
        accounts: vec![Ok(AccountRow {
            public_key_hash: "ab".repeat(32),
            balance: "5".to_string(),
            bonded_amount: "6".to_string(),
        })],
    };
    let (loader, effects) = ChainspecLoader::new(source, components_builder()).unwrap();
    assert_eq!(loader.chainspec().name(), "test-net");
    assert_eq!(loader.chainspec().accounts().len(), 1);
    assert_eq!(effects.len(), 1);
    assert_eq!(effects[0].work, Work::PutChainspec { version: ProtocolVersion::new(0, 9, 1) });
}

#[test]
fn chainspec_loader_commits_genesis_once_the_chainspec_is_stored() {
    let version = ProtocolVersion::new(1, 0, 0);
    let (mut loader, _) =
        ChainspecLoader::new_with_chainspec(components_chainspec(version), components_builder());
    let mut rng = NodeRng::from_seed(5);
    let effects = loader.handle_event(
        components_builder(),
        &mut rng,
        chainspec_loader::Event::PutToStorage { version },
    );
    assert_eq!(
        effects,
        vec![Effect {
            work: Work::CommitGenesis { version },
            continuation: Continuation::Result {
                ok: chainspec_loader::Event::CommitGenesisResult(Outcome::Success),
                err: chainspec_loader::Event::CommitGenesisResult(Outcome::Failure),
            },
        }]
    );
    assert!(!loader.is_stopped());
    assert_eq!(rng, NodeRng::from_seed(5));
}

#[test]
fn chainspec_loader_stops_with_the_outcome_of_genesis() {
    let version = ProtocolVersion::new(1, 0, 0);
    for (outcome, success) in [(Outcome::Success, true), (Outcome::Failure, false)] {
        let (mut loader, _) =
            ChainspecLoader::new_with_chainspec(components_chainspec(version), components_builder());
        let mut rng = NodeRng::from_seed(5);
        let effects = loader.handle_event(
            components_builder(),
            &mut rng,
            chainspec_loader::Event::CommitGenesisResult(outcome),
        );
        assert!(effects.is_empty());
        assert!(loader.is_stopped());
        assert_eq!(loader.stopped_successfully(), success);
    }
}

#[test]
fn chainspec_loader_events_describe_themselves() {
    let version = ProtocolVersion::new(1, 0, 0);
    assert_eq!(
        chainspec_loader::Event::PutToStorage { version }.description(),
        "put chainspec to storage"
    );
    assert_eq!(
        chainspec_loader::Event::CommitGenesisResult(Outcome::Success).description(),
        "commit genesis result: success"
    );
    assert_eq!(
        chainspec_loader::Event::CommitGenesisResult(Outcome::Failure).description(),
        "commit genesis result: failure"
    );
}

#[test]
fn storage_needs_a_path() {
    assert_eq!(
        Storage::new(&components_storage_config("")).unwrap_err(),
        storage::Error::MissingPath
    );
    assert!(Storage::new(&components_storage_config("storage")).is_ok());
}

#[test]
fn storage_keeps_each_chainspec_once_and_answers() {
    let mut storage = Storage::new(&components_storage_config("storage")).unwrap();
    let mut rng = NodeRng::from_seed(1);
    let first = ProtocolVersion::new(1, 0, 0);
    let second = ProtocolVersion::new(1, 1, 0);
    assert!(!storage.has_chainspec(first));
    for (version, id) in [(first, 1u64), (second, 2), (first, 3)] {
        let responder = Responder { id };
        let effects = Component::<Event>::handle_event(
            &mut storage,
            components_builder(),
            &mut rng,
            storage::Event::StorageRequest(StorageRequest::PutChainspec { version, responder }),
        );
        assert_eq!(
            effects,
            vec![Effect {
                work: Work::Respond { responder, outcome: Outcome::Success },
                continuation: Continuation::Ignore,
            }]
        );
    }
    assert!(storage.has_chainspec(first));
    assert!(storage.has_chainspec(second));
    assert!(!storage.has_chainspec(ProtocolVersion::new(2, 0, 0)));
    assert_eq!(rng, NodeRng::from_seed(1));
}

#[test]
fn contract_runtime_registers_its_metrics() {
    let registry = prometheus::Registry::new();
    let runtime = ContractRuntime::new(
        components_storage_config("storage"),
        &components_runtime_config(),
        &registry,
    )
    .unwrap();
    assert_eq!(runtime.config(), components_runtime_config());
    let names: Vec<String> =
        registry.gather().iter().map(|family| family.get_name().to_string()).collect();
    assert_eq!(
        names,
        vec![
            "contract_runtime_apply_commit".to_string(),
            "contract_runtime_run_execute".to_string(),
            "contract_runtime_run_query".to_string(),
        ]
    );
}

#[test]
fn contract_runtime_cannot_register_twice() {
    let registry = prometheus::Registry::new();
    assert!(ContractRuntimeMetrics::new(&registry).is_ok());
    match ContractRuntime::new(
        components_storage_config("storage"),
        &components_runtime_config(),
        &registry,
    ) {
        Err(contract_runtime::ConfigError::Prometheus(prometheus::Error::AlreadyReg)) => {}
        other => panic!("unexpected result: {:?}", other),
    }
}

#[test]
fn contract_runtime_hands_on_the_refusal_of_the_registry() {
    let refusal = Err(prometheus::Error::Msg("no".to_string()));
    match ContractRuntime::with_metrics(
        components_storage_config("storage"),
        &components_runtime_config(),
        refusal,
    ) {
        Err(contract_runtime::ConfigError::Prometheus(prometheus::Error::Msg(text))) => {
            assert_eq!(text, "no")
        }
        other => panic!("unexpected result: {:?}", other),
    }
    assert!(matches!(
        contract_runtime::ConfigError::from(prometheus::Error::AlreadyReg),
        contract_runtime::ConfigError::Prometheus(prometheus::Error::AlreadyReg)
    ));
}

#[test]
fn contract_runtime_has_genesis_run_outside() {
    let registry = prometheus::Registry::new();
    let mut runtime = ContractRuntime::new(
        components_storage_config("storage"),
        &components_runtime_config(),
        &registry,
    )
    .unwrap();
    let mut rng = NodeRng::from_seed(1);
    let version = ProtocolVersion::new(1, 0, 0);
    let responder = Responder { id: 77 };
    let effects = Component::<Event>::handle_event(
        &mut runtime,
        components_builder(),
        &mut rng,
        contract_runtime::Event::Request(ContractRuntimeRequest::CommitGenesis { version, responder }),
    );
    assert_eq!(
        effects,
        vec![Effect {
            work: Work::ExecuteGenesis { version, responder },
            continuation: Continuation::Ignore,
        }]
    );
    assert_eq!(rng, NodeRng::from_seed(1));
}

#[test]
fn component_events_describe_themselves() {
    let version = ProtocolVersion::new(1, 0, 0);
    let responder = Responder { id: 1 };
    assert_eq!(
        storage::Event::StorageRequest(StorageRequest::PutChainspec { version, responder })
            .description(),
        "put chainspec"
    );
    assert_eq!(
        contract_runtime::Event::Request(ContractRuntimeRequest::CommitGenesis { version, responder })
            .description(),
        "commit genesis"
    );
}

#[test]
fn small_network_identity_keeps_what_was_generated() {
    let identity = SmallNetworkIdentity::new(vec![9, 8, 7], vec![1, 2]);
    assert_eq!(identity.secret_key(), &vec![9, 8, 7]);
    assert_eq!(identity.tls_certificate(), &vec![1, 2]);
    let empty = SmallNetworkIdentity::new(Vec::new(), Vec::new());
    assert!(empty.secret_key().is_empty());
    assert!(empty.tls_certificate().is_empty());
    assert_ne!(
        SmallNetworkIdentityError::CouldNotGenerateTlsCertificate("x".to_string()),
        SmallNetworkIdentityError::ValidationError("x".to_string())
    );
}

#[test]
fn network_identity_keeps_what_was_generated() {
    assert_eq!(NetworkIdentity::new(vec![5, 6]).keypair(), &vec![5, 6]);
    assert!(NetworkIdentity::new(Vec::new()).keypair().is_empty());
}

#[test]
fn contract_runtime_metrics_are_those_of_the_registry() {
    let registry = prometheus::Registry::new();
    let runtime = ContractRuntime::new(
        components_storage_config("global-state"),
        &components_runtime_config(),
        &registry,
    )
    .unwrap();
    assert_eq!(runtime.storage_path(), "global-state");
    runtime.metrics().run_execute.histogram().observe(0.25);
    runtime.metrics().run_execute.histogram().observe(0.5);
    runtime.metrics().run_query.histogram().observe(1.0);
    for family in registry.gather() {
        let count = family.get_metric()[0].get_histogram().get_sample_count();
        match family.get_name() {
            "contract_runtime_run_execute" => assert_eq!(count, 2),
            "contract_runtime_run_query" => assert_eq!(count, 1),
            _ => assert_eq!(count, 0),
        }
    }
}

#[test]
fn storage_remembers_its_path() {
    let storage = Storage::new(&components_storage_config("blocks")).unwrap();
    assert_eq!(storage.path(), "blocks");
}

#[test]
fn contract_runtime_metrics_have_their_names_and_help_texts() {
    let registry = prometheus::Registry::new();
    let metrics = ContractRuntimeMetrics::new(&registry).unwrap();
    assert_eq!(metrics.run_execute.name(), "contract_runtime_run_execute");
    assert_eq!(
        metrics.run_execute.help(),
        "tracking run of engine_state.run_execute in seconds."
    );
    assert_eq!(metrics.apply_effect.name(), "contract_runtime_apply_commit");
    assert_eq!(
        metrics.apply_effect.help(),
        "tracking run of engine_state.apply_effect in seconds."
    );
    assert_eq!(metrics.run_query.name(), "contract_runtime_run_query");
    assert_eq!(metrics.run_query.help(), "tracking run of engine_state.run_query in seconds.");
    assert_eq!(metrics.run_execute.name(), contract_runtime::RUN_EXECUTE_NAME);
    assert_eq!(metrics.apply_effect.help(), contract_runtime::APPLY_EFFECT_HELP);
    assert_eq!(metrics.run_query.name(), contract_runtime::RUN_QUERY_NAME);

    // The names and help texts are those that the registry knows the histograms by.
    for family in registry.gather() {
        let known = [&metrics.run_execute, &metrics.apply_effect, &metrics.run_query]
            .into_iter()
            .any(|metric| metric.name() == family.get_name() && metric.help() == family.get_help());
        assert!(known, "unknown metric {}", family.get_name());
    }
    assert_eq!(registry.gather().len(), 3);
}

#[test]
fn metric_is_registered_under_its_name() {
    let registry = prometheus::Registry::new();
    let metric = Metric::register(&registry, "requests", "requests served").unwrap();
    assert_eq!(metric.name(), "requests");
    assert_eq!(metric.help(), "requests served");
    metric.histogram().observe(2.0);
    let families = registry.gather();
    assert_eq!(families.len(), 1);
    assert_eq!(families[0].get_name(), "requests");
    assert_eq!(families[0].get_help(), "requests served");
    assert_eq!(families[0].get_metric()[0].get_histogram().get_sample_count(), 1);

    // The registry takes no second histogram of the same name, and none without a name.
    assert!(matches!(
        Metric::register(&registry, "requests", "requests served"),
        Err(prometheus::Error::AlreadyReg)
    ));
    assert!(Metric::register(&registry, "", "nameless").is_err());
}
