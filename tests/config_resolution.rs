use node_config::config::{
    chain_config_dir, network_config_dir, ChainSpec, CliConfiguration, Error,
    ExecutionStrategies, ExecutionStrategy, ExtTransport, KeystoreConfig, NodeKeyConfig, ProgramInfo,
    PruningMode, Roles, SocketAddress, TelemetryEndpoints, TracingReceiver,
    TransactionPoolOptions, WasmExecutionMethod, DEFAULT_DATABASE_CACHE_SIZE,
    DEFAULT_MAX_RUNTIME_INSTANCES,
};

fn program() -> ProgramInfo {
    ProgramInfo {
        impl_name: "node".to_string(),
        impl_version: "2.0.0".to_string(),
        executable_name: "node".to_string(),
        author: "vendor".to_string(),
    }
}

fn chain(id: &str) -> ChainSpec {
    ChainSpec {
        id: id.to_string(),
        telemetry_endpoints: Some(TelemetryEndpoints {
            endpoints: vec![("wss://telemetry.example/submit".to_string(), 0)],
        }),
    }
}

fn only_chain_and_base(id: &str, base: &str) -> CliConfiguration {
    let mut src = CliConfiguration::empty();
    src.chain_spec = Some(chain(id));
    src.base_path = Some(base.to_string());
    src
}

#[test]
fn chain_and_base_path_give_chain_directories() {
    let src = only_chain_and_base("testnet", "/data/node1");
    let c = src.create_configuration(&program(), None, ()).unwrap();
    assert_eq!(c.network.net_config_path, "/data/node1/chains/testnet/network");
    assert_eq!(c.database.path, "/data/node1/chains/testnet");
    assert_eq!(c.database.cache_size, Some(128));
}

#[test]
fn explicit_database_cache_size_is_passed_through() {
    let mut src = only_chain_and_base("testnet", "/data/node1");
    src.database_cache_size = Some(256);
    let c = src.create_configuration(&program(), None, ()).unwrap();
    assert_eq!(c.database.cache_size, Some(256));
}

#[test]
fn unset_facets_take_their_defaults() {
    let src = only_chain_and_base("local", "/srv");
    let c = src.create_configuration(&program(), None, 7u32).unwrap();
    assert_eq!(c.roles, Roles::Full);
    assert_eq!(c.task_executor, 7u32);
    assert_eq!(c.transaction_pool, TransactionPoolOptions::default_limits());
    assert_eq!(c.transaction_pool.ready_count, 8192);
    assert_eq!(c.transaction_pool.future_count, 512);
    assert!(c.network.node_name.chars().count() < 32);
    assert!(matches!(c.network.node_key, NodeKeyConfig::Generate));
    assert!(matches!(c.keystore, KeystoreConfig::InMemory));
    assert_eq!(c.database.cache_size, Some(DEFAULT_DATABASE_CACHE_SIZE));
    assert_eq!(c.state_cache_size, 0);
    assert_eq!(c.state_cache_child_ratio, None);
    assert_eq!(c.pruning, PruningMode::Constrained { max_blocks: Some(256) });
    assert_eq!(c.wasm_method, WasmExecutionMethod::Interpreted);
    assert_eq!(c.execution_strategies, ExecutionStrategies::default_strategies());
    assert_eq!(c.execution_strategies.syncing, ExecutionStrategy::NativeElseWasm);
    assert_eq!(c.execution_strategies.importing, ExecutionStrategy::NativeElseWasm);
    assert_eq!(c.execution_strategies.block_construction, ExecutionStrategy::AlwaysWasm);
    assert_eq!(c.execution_strategies.offchain_worker, ExecutionStrategy::NativeWhenPossible);
    assert_eq!(c.execution_strategies.other, ExecutionStrategy::NativeElseWasm);
    assert_eq!(c.telemetry_external_transport, None);
    assert_eq!(c.rpc_http, None);
    assert_eq!(c.rpc_ws, None);
    assert_eq!(c.rpc_ws_max_connections, None);
    assert_eq!(c.rpc_cors, Some(Vec::new()));
    assert!(c.prometheus_config.is_none());
    assert_eq!(
        c.telemetry_endpoints.unwrap().endpoints,
        vec![("wss://telemetry.example/submit".to_string(), 0u8)]
    );
    assert_eq!(c.default_heap_pages, None);
    assert!(!c.offchain_worker);
    assert!(!c.sentry_mode);
    assert!(!c.force_authoring);
    assert!(!c.disable_grandpa);
    assert_eq!(c.dev_key_seed, None);
    assert_eq!(c.tracing_targets, None);
    assert_eq!(c.tracing_receiver, TracingReceiver::Log);
    assert_eq!(c.chain_spec.id, "local");
    assert_eq!(c.max_runtime_instances, 8);
    assert_eq!(c.max_runtime_instances, DEFAULT_MAX_RUNTIME_INSTANCES);
    assert_eq!(c.impl_name, "node");
    assert_eq!(c.impl_version, "2.0.0");
}

#[test]
fn supplied_facets_override_defaults() {
    let mut src = only_chain_and_base("testnet", "/data");
    src.dev = true;
    src.roles = Some(Roles::Authority);
    src.node_name = Some("alice".to_string());
    src.node_key = Some(NodeKeyConfig::File("/keys/node".to_string()));
    src.keystore = Some(KeystoreConfig::Path { path: "/ks".to_string(), password: None });
    src.pruning = Some(PruningMode::ArchiveAll);
    src.wasm_method = Some(WasmExecutionMethod::Compiled);
    src.rpc_http = Some(SocketAddress { ip: 0x7f000001, port: 9933 });
    src.rpc_cors = Some(None);
    src.telemetry_endpoints = Some(TelemetryEndpoints { endpoints: Vec::new() });
    src.max_runtime_instances = Some(3);
    src.tracing_receiver = Some(TracingReceiver::Telemetry);
    src.offchain_worker = true;
    src.dev_key_seed = Some("//Alice".to_string());
    let c = src.create_configuration(&program(), None, ()).unwrap();
    assert_eq!(c.roles, Roles::Authority);
    assert_eq!(c.network.node_name, "alice");
    assert!(matches!(c.network.node_key, NodeKeyConfig::File(ref p) if p == "/keys/node"));
    assert!(matches!(c.keystore, KeystoreConfig::Path { ref path, password: None } if path == "/ks"));
    assert_eq!(c.pruning, PruningMode::ArchiveAll);
    assert_eq!(c.wasm_method, WasmExecutionMethod::Compiled);
    assert_eq!(c.rpc_http, Some(SocketAddress { ip: 0x7f000001, port: 9933 }));
    assert_eq!(c.rpc_cors, None);
    assert_eq!(c.telemetry_endpoints.unwrap().endpoints.len(), 0);
    assert_eq!(c.max_runtime_instances, 3);
    assert_eq!(c.tracing_receiver, TracingReceiver::Telemetry);
    assert!(c.offchain_worker);
    assert_eq!(c.dev_key_seed, Some("//Alice".to_string()));
}

#[test]
fn platform_directory_is_used_without_base_path() {
    let mut src = CliConfiguration::empty();
    src.chain_spec = Some(chain("dev"));
    let c = src
        .create_configuration(&program(), Some("/home/u/.local/share/node".to_string()), ())
        .unwrap();
    assert_eq!(c.database.path, "/home/u/.local/share/node/chains/dev");
    assert_eq!(c.network.net_config_path, "/home/u/.local/share/node/chains/dev/network");
}

#[test]
fn base_path_wins_over_platform_directory() {
    let src = only_chain_and_base("dev", "/base/");
    let c = src.create_configuration(&program(), Some("/platform".to_string()), ()).unwrap();
    assert_eq!(c.database.path, "/base/chains/dev");
}

#[test]
fn missing_chain_spec_is_an_error() {
    let mut src = CliConfiguration::empty();
    src.base_path = Some("/data".to_string());
    let r = src.create_configuration(&program(), Some("/platform".to_string()), ());
    assert_eq!(r.err(), Some(Error::ChainSpecUnavailable));
}

#[test]
fn missing_platform_directory_is_an_error() {
    let mut src = CliConfiguration::empty();
    src.chain_spec = Some(chain("dev"));
    let r = src.create_configuration(&program(), None, ());
    assert_eq!(r.err(), Some(Error::PlatformDirectoryUnavailable));
}

#[test]
fn client_id_joins_name_and_version() {
    assert_eq!(program().client_id(), "node/v2.0.0");
    let src = only_chain_and_base("testnet", "/d");
    let c = src.create_configuration(&program(), None, ()).unwrap();
    assert_eq!(c.network.client_version, "node/v2.0.0");
}

#[test]
fn directory_derivation() {
    assert_eq!(chain_config_dir("/data/node1", "testnet"), "/data/node1/chains/testnet");
    assert_eq!(chain_config_dir("/data/", "x"), "/data/chains/x");
    assert_eq!(chain_config_dir("", "x"), "chains/x");
    assert_eq!(network_config_dir("/a/chains/x"), "/a/chains/x/network");
}

#[test]
fn supplied_database_path_is_used() {
    let mut src = only_chain_and_base("testnet", "/data/node1");
    src.database_path = Some("/fast/db".to_string());
    let c = src.create_configuration(&program(), None, ()).unwrap();
    assert_eq!(c.database.path, "/fast/db");
    assert_eq!(c.database.cache_size, Some(128));
    assert_eq!(c.network.net_config_path, "/data/node1/chains/testnet/network");
}

#[test]
fn empty_database_path_is_an_error() {
    let mut src = only_chain_and_base("testnet", "/data/node1");
    src.database_path = Some(String::new());
    let r = src.create_configuration(&program(), None, ());
    assert_eq!(r.err(), Some(Error::InvalidDatabasePath));
}

#[test]
fn external_transport_is_passed_through() {
    let mut src = only_chain_and_base("testnet", "/d");
    src.telemetry_external_transport = Some(ExtTransport { handle: 42 });
    let c = src.create_configuration(&program(), None, ()).unwrap();
    assert_eq!(c.telemetry_external_transport, Some(ExtTransport { handle: 42 }));
}

#[test]
fn generated_node_name_has_numbered_shape() {
    let src = only_chain_and_base("testnet", "/d");
    let c = src.create_configuration(&program(), None, ()).unwrap();
    let name: Vec<char> = c.network.node_name.chars().collect();
    assert!(name.len() < 32);
    assert_eq!(name[name.len() - 5], '-');
    assert!(name[name.len() - 4..].iter().all(|c| c.is_ascii_digit()));
}
