//! Resolution of a sparse set of caller-supplied facets into a complete node
//! configuration.
//!
//! [`CliConfiguration`] is the override source: every facet it leaves unset
//! resolves to a fixed default, and [`CliConfiguration::create_configuration`]
//! resolves all of them, in dependency order, into a [`Configuration`].
use vstd::prelude::*;
use vstd::string::*;
use crate::node_name::{generate_node_name, is_generated_node_name, is_valid_node_name};
use crate::paths::{join, join_path};

verus! {

/// Database cache size, in MiB, used when none is supplied.
pub const DEFAULT_DATABASE_CACHE_SIZE: usize = 128;

/// Number of runtime instances kept when none is supplied.
pub const DEFAULT_MAX_RUNTIME_INSTANCES: usize = 8;

/// Number of recent blocks whose state is kept by the default pruning mode.
pub const DEFAULT_KEEP_BLOCKS: u32 = 256;

/// Default limits of the transaction pool.
pub const DEFAULT_READY_COUNT: usize = 8192;
pub const DEFAULT_READY_TOTAL_BYTES: usize = 20971520;
pub const DEFAULT_FUTURE_COUNT: usize = 512;
pub const DEFAULT_FUTURE_TOTAL_BYTES: usize = 1048576;

/// Directory, under the base path, that holds one directory per chain.
pub const CHAINS_DIR: &'static str = "chains";

/// Directory, under a chain's directory, that holds the network settings.
pub const DEFAULT_NETWORK_CONFIG_PATH: &'static str = "network";

/// What the node does on the network.
#[derive(Clone, Copy, Debug, PartialEq, Eq, Structural)]
pub enum Roles {
    Full,
    Light,
    Authority,
}

/// Size limits of the transaction pool queues.
#[derive(Clone, Copy, Debug, PartialEq, Eq, Structural)]
pub struct TransactionPoolOptions {
    pub ready_count: usize,
    pub ready_total_bytes: usize,
    pub future_count: usize,
    pub future_total_bytes: usize,
}

impl TransactionPoolOptions {
    pub open spec fn spec_default() -> TransactionPoolOptions {
        TransactionPoolOptions {
            ready_count: DEFAULT_READY_COUNT,
            ready_total_bytes: DEFAULT_READY_TOTAL_BYTES,
            future_count: DEFAULT_FUTURE_COUNT,
            future_total_bytes: DEFAULT_FUTURE_TOTAL_BYTES,
        }
    }

    /// The default pool limits.
    pub fn default_limits() -> (r: TransactionPoolOptions)
        ensures
            r == TransactionPoolOptions::spec_default(),
    {
        TransactionPoolOptions {
            ready_count: DEFAULT_READY_COUNT,
            ready_total_bytes: DEFAULT_READY_TOTAL_BYTES,
            future_count: DEFAULT_FUTURE_COUNT,
            future_total_bytes: DEFAULT_FUTURE_TOTAL_BYTES,
        }
    }
}

/// An IPv4 socket address; `ip` holds the four octets, most significant first.
#[derive(Clone, Copy, Debug, PartialEq, Eq, Structural)]
pub struct SocketAddress {
    pub ip: u32,
    pub port: u16,
}

/// Where the Prometheus exporter listens.
#[derive(Clone, Copy, Debug, PartialEq, Eq, Structural)]
pub struct PrometheusConfig {
    pub address: SocketAddress,
}

/// Which block states are kept.
#[derive(Clone, Copy, Debug, PartialEq, Eq, Structural)]
pub enum PruningMode {
    /// Keep the state of the last `max_blocks` blocks (all of them if `None`).
    Constrained { max_blocks: Option<u32> },
    ArchiveAll,
    ArchiveCanonical,
}

/// How runtime code is executed.
#[derive(Clone, Copy, Debug, PartialEq, Eq, Structural)]
pub enum WasmExecutionMethod {
    Interpreted,
    Compiled,
}

/// Which runtime, native or Wasm, executes a call.
#[derive(Clone, Copy, Debug, PartialEq, Eq, Structural)]
pub enum ExecutionStrategy {
    NativeWhenPossible,
    AlwaysWasm,
    Both,
    NativeElseWasm,
}

/// The execution strategy of each execution context.
#[derive(Clone, Copy, Debug, PartialEq, Eq, Structural)]
pub struct ExecutionStrategies {
    pub syncing: ExecutionStrategy,
    pub importing: ExecutionStrategy,
    pub block_construction: ExecutionStrategy,
    pub offchain_worker: ExecutionStrategy,
    pub other: ExecutionStrategy,
}

impl ExecutionStrategies {
    pub open spec fn spec_default() -> ExecutionStrategies {
        ExecutionStrategies {
            syncing: ExecutionStrategy::NativeElseWasm,
            importing: ExecutionStrategy::NativeElseWasm,
            block_construction: ExecutionStrategy::AlwaysWasm,
            offchain_worker: ExecutionStrategy::NativeWhenPossible,
            other: ExecutionStrategy::NativeElseWasm,
        }
    }

    /// Blocks are built in Wasm, offchain workers run natively where they
    /// can, and every other context runs natively, falling back to Wasm.
    pub fn default_strategies() -> (r: ExecutionStrategies)
        ensures
            r == ExecutionStrategies::spec_default(),
    {
        ExecutionStrategies {
            syncing: ExecutionStrategy::NativeElseWasm,
            importing: ExecutionStrategy::NativeElseWasm,
            block_construction: ExecutionStrategy::AlwaysWasm,
            offchain_worker: ExecutionStrategy::NativeWhenPossible,
            other: ExecutionStrategy::NativeElseWasm,
        }
    }
}

/// A transport for telemetry supplied by the embedding environment, known by
/// the handle the environment gave it.
#[derive(Clone, Copy, Debug, PartialEq, Eq, Structural)]
pub struct ExtTransport {
    pub handle: u64,
}

/// Where traces are sent.
#[derive(Clone, Copy, Debug, PartialEq, Eq, Structural)]
pub enum TracingReceiver {
    Log,
    Telemetry,
}

/// Where keys are stored.
#[derive(Debug)]
pub enum KeystoreConfig {
    InMemory,
    Path { path: String, password: Option<String> },
}

/// The source of the node's network key.
#[derive(Debug)]
pub enum NodeKeyConfig {
    /// A fresh key is generated.
    Generate,
    /// The key is read from this file, or written there when it is missing.
    File(String),
}

/// Telemetry servers, each with its verbosity level.
#[derive(Debug)]
pub struct TelemetryEndpoints {
    pub endpoints: Vec<(String, u8)>,
}

impl View for TelemetryEndpoints {
    type V = Seq<(String, u8)>;

    open spec fn view(&self) -> Seq<(String, u8)> {
        self.endpoints@
    }
}

/// The view of an optional list of endpoints.
pub open spec fn endpoints_view(t: Option<TelemetryEndpoints>) -> Option<Seq<(String, u8)>> {
    match t {
        Some(e) => Some(e@),
        None => None,
    }
}

/// The view of an optional list of strings.
pub open spec fn strings_view(v: Option<Vec<String>>) -> Option<Seq<String>> {
    match v {
        Some(l) => Some(l@),
        None => None,
    }
}

/// The chain the node is configured for.
#[derive(Debug)]
pub struct ChainSpec {
    pub id: String,
    pub telemetry_endpoints: Option<TelemetryEndpoints>,
}

impl ChainSpec {
    /// Whether `other` describes the same chain as `self`.
    pub open spec fn same_as(self, other: ChainSpec) -> bool {
        &&& self.id@ == other.id@
        &&& endpoints_view(self.telemetry_endpoints) == endpoints_view(other.telemetry_endpoints)
    }
}

/// Network settings of the node.
#[derive(Debug)]
pub struct NetworkConfiguration {
    pub node_name: String,
    pub client_version: String,
    pub node_key: NodeKeyConfig,
    pub net_config_path: String,
}

/// Database settings of the node.
#[derive(Debug)]
pub struct DatabaseConfig {
    pub path: String,
    pub cache_size: Option<usize>,
}

/// The program that resolves its configuration.
#[derive(Debug)]
pub struct ProgramInfo {
    pub impl_name: String,
    pub impl_version: String,
    /// Name of the executable; names the platform's application directory.
    pub executable_name: String,
    /// Vendor of the executable; names the platform's application directory.
    pub author: String,
}

impl ProgramInfo {
    /// `<impl_name>/v<impl_version>`.
    pub open spec fn spec_client_id(self) -> Seq<char> {
        self.impl_name@ + seq!['/', 'v'] + self.impl_version@
    }

    /// The client identifier announced on the network.
    pub fn client_id(&self) -> (r: String)
        ensures
            r@ == self.spec_client_id(),
    {
        proof {
            reveal_strlit("/v");
        }
        let mut r = self.impl_name.clone();
        r.append("/v");
        r.append(self.impl_version.as_str());
        r
    }
}

/// Why a configuration could not be resolved.
#[derive(Clone, Copy, Debug, PartialEq, Eq, Structural)]
pub enum Error {
    /// No chain specification was supplied.
    ChainSpecUnavailable,
    /// No base path was supplied and the platform has no application
    /// directory to fall back to.
    PlatformDirectoryUnavailable,
    /// The supplied database path is empty, so it names no directory.
    InvalidDatabasePath,
}

/// A fully resolved node configuration.
#[derive(Debug)]
pub struct Configuration<E> {
    pub impl_name: String,
    pub impl_version: String,
    pub roles: Roles,
    pub task_executor: E,
    pub transaction_pool: TransactionPoolOptions,
    pub network: NetworkConfiguration,
    pub keystore: KeystoreConfig,
    pub database: DatabaseConfig,
    pub state_cache_size: usize,
    pub state_cache_child_ratio: Option<usize>,
    pub pruning: PruningMode,
    pub wasm_method: WasmExecutionMethod,
    pub execution_strategies: ExecutionStrategies,
    pub rpc_http: Option<SocketAddress>,
    pub rpc_ws: Option<SocketAddress>,
    pub rpc_ws_max_connections: Option<usize>,
    pub rpc_cors: Option<Vec<String>>,
    pub prometheus_config: Option<PrometheusConfig>,
    pub telemetry_endpoints: Option<TelemetryEndpoints>,
    pub telemetry_external_transport: Option<ExtTransport>,
    pub default_heap_pages: Option<u64>,
    pub offchain_worker: bool,
    pub sentry_mode: bool,
    pub force_authoring: bool,
    pub disable_grandpa: bool,
    pub dev_key_seed: Option<String>,
    pub tracing_targets: Option<String>,
    pub tracing_receiver: TracingReceiver,
    pub chain_spec: ChainSpec,
    pub max_runtime_instances: usize,
}

fn copy_strings(v: &Vec<String>) -> (r: Vec<String>)
    ensures
        r@ == v@,
{
    let mut r: Vec<String> = Vec::new();
    let mut i: usize = 0;
    while i < v.len()
        invariant
            i <= v.len(),
            r@ == v@.take(i as int),
        decreases v.len() - i,
    {
        r.push(v[i].clone());
        i = i + 1;
        assert(r@ =~= v@.take(i as int));
    }
    assert(v@.take(v.len() as int) =~= v@);
    r
}

fn copy_optional_string(s: &Option<String>) -> (r: Option<String>)
    ensures
        r == *s,
{
    match s {
        Some(x) => Some(x.clone()),
        None => None,
    }
}

impl TelemetryEndpoints {
    /// A copy of the endpoint list.
    pub fn duplicate(&self) -> (r: TelemetryEndpoints)
        ensures
            r@ == self@,
    {
        let mut endpoints: Vec<(String, u8)> = Vec::new();
        let mut i: usize = 0;
        while i < self.endpoints.len()
            invariant
                i <= self.endpoints.len(),
                endpoints@ == self.endpoints@.take(i as int),
            decreases self.endpoints.len() - i,
        {
            let url = self.endpoints[i].0.clone();
            endpoints.push((url, self.endpoints[i].1));
            i = i + 1;
            assert(endpoints@ =~= self.endpoints@.take(i as int));
        }
        assert(self.endpoints@.take(self.endpoints.len() as int) =~= self.endpoints@);
        TelemetryEndpoints { endpoints }
    }
}

fn copy_endpoints(t: &Option<TelemetryEndpoints>) -> (r: Option<TelemetryEndpoints>)
    ensures
        endpoints_view(r) == endpoints_view(*t),
{
    match t {
        Some(e) => Some(e.duplicate()),
        None => None,
    }
}

impl ChainSpec {
    /// A copy of this chain specification.
    pub fn duplicate(&self) -> (r: ChainSpec)
        ensures
            r.same_as(*self),
    {
        ChainSpec { id: self.id.clone(), telemetry_endpoints: copy_endpoints(&self.telemetry_endpoints) }
    }
}

impl KeystoreConfig {
    /// Whether two keystore settings are the same.
    pub open spec fn same_as(self, other: KeystoreConfig) -> bool {
        match (self, other) {
            (KeystoreConfig::InMemory, KeystoreConfig::InMemory) => true,
            (
                KeystoreConfig::Path { path: p, password: w },
                KeystoreConfig::Path { path: q, password: v },
            ) => p == q && w == v,
            _ => false,
        }
    }

    /// A copy of these keystore settings.
    pub fn duplicate(&self) -> (r: KeystoreConfig)
        ensures
            r.same_as(*self),
    {
        match self {
            KeystoreConfig::InMemory => KeystoreConfig::InMemory,
            KeystoreConfig::Path { path, password } => KeystoreConfig::Path {
                path: path.clone(),
                password: copy_optional_string(password),
            },
        }
    }
}

impl NodeKeyConfig {
    /// Whether two node key settings are the same.
    pub open spec fn same_as(self, other: NodeKeyConfig) -> bool {
        match (self, other) {
            (NodeKeyConfig::Generate, NodeKeyConfig::Generate) => true,
            (NodeKeyConfig::File(p), NodeKeyConfig::File(q)) => p@ == q@,
            _ => false,
        }
    }

    /// A copy of these node key settings.
    pub fn duplicate(&self) -> (r: NodeKeyConfig)
        ensures
            r.same_as(*self),
    {
        match self {
            NodeKeyConfig::Generate => NodeKeyConfig::Generate,
            NodeKeyConfig::File(p) => NodeKeyConfig::File(p.clone()),
        }
    }
}

/// The override source: each facet the caller supplies, or its absence.
///
/// A facet left `None` (or `false`) resolves to its documented default.
#[derive(Debug)]
pub struct CliConfiguration {
    /// Directory under which each chain gets its own directory.
    pub base_path: Option<String>,
    /// The chain to configure for; resolution fails without one.
    pub chain_spec: Option<ChainSpec>,
    /// Whether the node runs a development chain.
    pub dev: bool,
    pub roles: Option<Roles>,
    pub transaction_pool: Option<TransactionPoolOptions>,
    pub keystore: Option<KeystoreConfig>,
    /// Where the database lives (default: the chain's directory).
    pub database_path: Option<String>,
    pub database_cache_size: Option<usize>,
    pub state_cache_size: Option<usize>,
    pub state_cache_child_ratio: Option<usize>,
    pub pruning: Option<PruningMode>,
    pub node_name: Option<String>,
    pub wasm_method: Option<WasmExecutionMethod>,
    pub execution_strategies: Option<ExecutionStrategies>,
    pub rpc_http: Option<SocketAddress>,
    pub rpc_ws: Option<SocketAddress>,
    pub rpc_ws_max_connections: Option<usize>,
    /// Allowed RPC origins; `Some(None)` disables the check.
    pub rpc_cors: Option<Option<Vec<String>>>,
    pub prometheus_config: Option<PrometheusConfig>,
    /// Replaces the chain specification's telemetry endpoints.
    pub telemetry_endpoints: Option<TelemetryEndpoints>,
    pub telemetry_external_transport: Option<ExtTransport>,
    pub default_heap_pages: Option<u64>,
    pub offchain_worker: bool,
    pub sentry_mode: bool,
    pub force_authoring: bool,
    pub disable_grandpa: bool,
    pub dev_key_seed: Option<String>,
    pub tracing_targets: Option<String>,
    pub tracing_receiver: Option<TracingReceiver>,
    pub node_key: Option<NodeKeyConfig>,
    pub max_runtime_instances: Option<usize>,
}

impl CliConfiguration {
    /// No facet is supplied beyond the base path and the chain specification.
    pub open spec fn supplies_no_overrides(self) -> bool {
        &&& !self.dev
        &&& self.roles is None
        &&& self.transaction_pool is None
        &&& self.keystore is None
        &&& self.database_path is None
        &&& self.database_cache_size is None
        &&& self.state_cache_size is None
        &&& self.state_cache_child_ratio is None
        &&& self.pruning is None
        &&& self.node_name is None
        &&& self.wasm_method is None
        &&& self.execution_strategies is None
        &&& self.rpc_http is None
        &&& self.rpc_ws is None
        &&& self.rpc_ws_max_connections is None
        &&& self.rpc_cors is None
        &&& self.prometheus_config is None
        &&& self.telemetry_endpoints is None
        &&& self.telemetry_external_transport is None
        &&& self.default_heap_pages is None
        &&& !self.offchain_worker
        &&& !self.sentry_mode
        &&& !self.force_authoring
        &&& !self.disable_grandpa
        &&& self.dev_key_seed is None
        &&& self.tracing_targets is None
        &&& self.tracing_receiver is None
        &&& self.node_key is None
        &&& self.max_runtime_instances is None
    }

    /// An override source that supplies nothing.
    pub fn empty() -> (r: CliConfiguration)
        ensures
            r.supplies_no_overrides(),
            r.base_path is None,
            r.chain_spec is None,
    {
        CliConfiguration {
            base_path: None,
            chain_spec: None,
            dev: false,
            roles: None,
            transaction_pool: None,
            keystore: None,
            database_path: None,
            database_cache_size: None,
            state_cache_size: None,
            state_cache_child_ratio: None,
            pruning: None,
            node_name: None,
            wasm_method: None,
            execution_strategies: None,
            rpc_http: None,
            rpc_ws: None,
            rpc_ws_max_connections: None,
            rpc_cors: None,
            prometheus_config: None,
            telemetry_endpoints: None,
            telemetry_external_transport: None,
            default_heap_pages: None,
            offchain_worker: false,
            sentry_mode: false,
            force_authoring: false,
            disable_grandpa: false,
            dev_key_seed: None,
            tracing_targets: None,
            tracing_receiver: None,
            node_key: None,
            max_runtime_instances: None,
        }
    }

    pub open spec fn spec_roles(self) -> Roles {
        if self.roles is Some { self.roles->0 } else { Roles::Full }
    }

    pub open spec fn spec_transaction_pool(self) -> TransactionPoolOptions {
        if self.transaction_pool is Some {
            self.transaction_pool->0
        } else {
            TransactionPoolOptions::spec_default()
        }
    }

    pub open spec fn spec_database_cache_size(self) -> usize {
        if self.database_cache_size is Some {
            self.database_cache_size->0
        } else {
            DEFAULT_DATABASE_CACHE_SIZE
        }
    }

    pub open spec fn spec_pruning(self) -> PruningMode {
        if self.pruning is Some {
            self.pruning->0
        } else {
            PruningMode::Constrained { max_blocks: Some(DEFAULT_KEEP_BLOCKS) }
        }
    }

    pub open spec fn spec_wasm_method(self) -> WasmExecutionMethod {
        if self.wasm_method is Some {
            self.wasm_method->0
        } else {
            WasmExecutionMethod::Interpreted
        }
    }

    pub open spec fn spec_execution_strategies(self) -> ExecutionStrategies {
        if self.execution_strategies is Some {
            self.execution_strategies->0
        } else {
            ExecutionStrategies::spec_default()
        }
    }

    pub open spec fn spec_rpc_cors(self) -> Option<Seq<String>> {
        if self.rpc_cors is Some {
            strings_view(self.rpc_cors->0)
        } else {
            Some(Seq::empty())
        }
    }

    pub open spec fn spec_telemetry_endpoints(self, chain_spec: ChainSpec) -> Option<
        Seq<(String, u8)>,
    > {
        if self.telemetry_endpoints is Some {
            endpoints_view(self.telemetry_endpoints)
        } else {
            endpoints_view(chain_spec.telemetry_endpoints)
        }
    }

    pub open spec fn spec_tracing_receiver(self) -> TracingReceiver {
        if self.tracing_receiver is Some {
            self.tracing_receiver->0
        } else {
            TracingReceiver::Log
        }
    }

    pub open spec fn spec_max_runtime_instances(self) -> usize {
        if self.max_runtime_instances is Some {
            self.max_runtime_instances->0
        } else {
            DEFAULT_MAX_RUNTIME_INSTANCES
        }
    }

    /// Whether the node runs a development chain (default: no).
    pub fn is_dev(&self) -> (r: bool)
        ensures
            r == self.dev,
    {
        self.dev
    }

    /// The node's roles (default: a full node).
    pub fn roles(&self, _is_dev: bool) -> (r: Roles)
        ensures
            r == self.spec_roles(),
    {
        match self.roles {
            Some(r) => r,
            None => Roles::Full,
        }
    }

    /// The transaction pool limits (default: [`TransactionPoolOptions::default_limits`]).
    pub fn transaction_pool(&self) -> (r: TransactionPoolOptions)
        ensures
            r == self.spec_transaction_pool(),
    {
        match self.transaction_pool {
            Some(t) => t,
            None => TransactionPoolOptions::default_limits(),
        }
    }

    /// The network settings, from the node's identity and network directory.
    pub fn network_config(
        &self,
        _chain_spec: &ChainSpec,
        _is_dev: bool,
        net_config_dir: String,
        client_id: String,
        node_name: String,
        node_key: NodeKeyConfig,
    ) -> (r: NetworkConfiguration)
        ensures
            r.node_name == node_name,
            r.client_version == client_id,
            r.node_key == node_key,
            r.net_config_path == net_config_dir,
    {
        NetworkConfiguration {
            node_name,
            client_version: client_id,
            node_key,
            net_config_path: net_config_dir,
        }
    }

    /// The keystore settings (default: an in-memory keystore).
    pub fn keystore_config(&self, _base_path: &str) -> (r: KeystoreConfig)
        ensures
            self.keystore is Some ==> r.same_as(self.keystore->0),
            self.keystore is None ==> r is InMemory,
    {
        match &self.keystore {
            Some(k) => k.duplicate(),
            None => KeystoreConfig::InMemory,
        }
    }

    /// The supplied database cache size, if any.
    pub fn database_cache_size(&self) -> (r: Option<usize>)
        ensures
            r == self.database_cache_size,
    {
        self.database_cache_size
    }

    /// Whether the supplied database path is unusable.
    pub open spec fn spec_database_path_invalid(self) -> bool {
        self.database_path is Some && self.database_path->0@.len() == 0
    }

    /// The database settings: the database lives at the supplied path, or in
    /// `base_path` when none is supplied. An empty supplied path is rejected.
    pub fn database_config(&self, base_path: String, cache_size: Option<usize>) -> (r: Result<
        DatabaseConfig,
        Error,
    >)
        ensures
            r is Err <==> self.spec_database_path_invalid(),
            r is Err ==> r->Err_0 == Error::InvalidDatabasePath,
            r is Ok ==> r->Ok_0.path == (if self.database_path is Some {
                self.database_path->0
            } else {
                base_path
            }),
            r is Ok ==> r->Ok_0.cache_size == cache_size,
    {
        match &self.database_path {
            Some(path) => {
                if path.unicode_len() == 0 {
                    Err(Error::InvalidDatabasePath)
                } else {
                    Ok(DatabaseConfig { path: path.clone(), cache_size })
                }
            },
            None => Ok(DatabaseConfig { path: base_path, cache_size }),
        }
    }

    /// The state cache size (default: 0).
    pub fn state_cache_size(&self) -> (r: usize)
        ensures
            r == (if self.state_cache_size is Some { self.state_cache_size->0 } else { 0 }),
    {
        match self.state_cache_size {
            Some(s) => s,
            None => 0,
        }
    }

    /// The state cache child ratio (default: none).
    pub fn state_cache_child_ratio(&self) -> (r: Option<usize>)
        ensures
            r == self.state_cache_child_ratio,
    {
        self.state_cache_child_ratio
    }

    /// The pruning mode (default: keep the last `DEFAULT_KEEP_BLOCKS` blocks).
    pub fn pruning(&self, _is_dev: bool, _roles: Roles) -> (r: PruningMode)
        ensures
            r == self.spec_pruning(),
    {
        match self.pruning {
            Some(p) => p,
            None => PruningMode::Constrained { max_blocks: Some(DEFAULT_KEEP_BLOCKS) },
        }
    }

    /// The chain specification; resolution fails without one.
    pub fn chain_spec(&self) -> (r: Result<ChainSpec, Error>)
        ensures
            self.chain_spec is Some <==> r is Ok,
            r is Ok ==> r->Ok_0.same_as(self.chain_spec->0),
            r is Err ==> r->Err_0 == Error::ChainSpecUnavailable,
    {
        match &self.chain_spec {
            Some(c) => Ok(c.duplicate()),
            None => Err(Error::ChainSpecUnavailable),
        }
    }

    /// The node name (default: a freshly generated one).
    pub fn node_name(&self) -> (r: String)
        ensures
            self.node_name is Some ==> r == self.node_name->0,
            self.node_name is None ==> is_valid_node_name(r@) && is_generated_node_name(r@),
    {
        match &self.node_name {
            Some(n) => n.clone(),
            None => generate_node_name(),
        }
    }

    /// The Wasm execution method (default: interpreted).
    pub fn wasm_method(&self) -> (r: WasmExecutionMethod)
        ensures
            r == self.spec_wasm_method(),
    {
        match self.wasm_method {
            Some(w) => w,
            None => WasmExecutionMethod::Interpreted,
        }
    }

    /// The execution strategies (default: native, else Wasm, everywhere).
    pub fn execution_strategies(&self, _is_dev: bool) -> (r: ExecutionStrategies)
        ensures
            r == self.spec_execution_strategies(),
    {
        match self.execution_strategies {
            Some(e) => e,
            None => ExecutionStrategies::default_strategies(),
        }
    }

    /// The RPC HTTP address (default: disabled).
    pub fn rpc_http(&self) -> (r: Option<SocketAddress>)
        ensures
            r == self.rpc_http,
    {
        self.rpc_http
    }

    /// The RPC websocket address (default: disabled).
    pub fn rpc_ws(&self) -> (r: Option<SocketAddress>)
        ensures
            r == self.rpc_ws,
    {
        self.rpc_ws
    }

    /// The maximum number of RPC websocket connections (default: unlimited).
    pub fn rpc_ws_max_connections(&self) -> (r: Option<usize>)
        ensures
            r == self.rpc_ws_max_connections,
    {
        self.rpc_ws_max_connections
    }

    /// The allowed RPC origins (default: an empty list, which admits none).
    pub fn rpc_cors(&self, _is_dev: bool) -> (r: Option<Vec<String>>)
        ensures
            strings_view(r) == self.spec_rpc_cors(),
    {
        match &self.rpc_cors {
            Some(Some(origins)) => Some(copy_strings(origins)),
            Some(None) => None,
            None => Some(Vec::new()),
        }
    }

    /// The Prometheus exporter settings (default: disabled).
    pub fn prometheus_config(&self) -> (r: Option<PrometheusConfig>)
        ensures
            r == self.prometheus_config,
    {
        self.prometheus_config
    }

    /// The telemetry endpoints (default: those of the chain specification).
    pub fn telemetry_endpoints(&self, chain_spec: &ChainSpec) -> (r: Option<TelemetryEndpoints>)
        ensures
            endpoints_view(r) == self.spec_telemetry_endpoints(*chain_spec),
    {
        match &self.telemetry_endpoints {
            Some(t) => Some(t.duplicate()),
            None => copy_endpoints(&chain_spec.telemetry_endpoints),
        }
    }

    /// The external telemetry transport (default: none).
    pub fn telemetry_external_transport(&self) -> (r: Option<ExtTransport>)
        ensures
            r == self.telemetry_external_transport,
    {
        self.telemetry_external_transport
    }

    /// The default number of heap pages (default: the runtime's own).
    pub fn default_heap_pages(&self) -> (r: Option<u64>)
        ensures
            r == self.default_heap_pages,
    {
        self.default_heap_pages
    }

    /// Whether the offchain worker runs (default: no).
    pub fn offchain_worker(&self, _roles: Roles) -> (r: bool)
        ensures
            r == self.offchain_worker,
    {
        self.offchain_worker
    }

    /// Whether the node acts as a sentry (default: no).
    pub fn sentry_mode(&self) -> (r: bool)
        ensures
            r == self.sentry_mode,
    {
        self.sentry_mode
    }

    /// Whether block authoring is forced (default: no).
    pub fn force_authoring(&self) -> (r: bool)
        ensures
            r == self.force_authoring,
    {
        self.force_authoring
    }

    /// Whether GRANDPA finality is disabled (default: no).
    pub fn disable_grandpa(&self) -> (r: bool)
        ensures
            r == self.disable_grandpa,
    {
        self.disable_grandpa
    }

    /// The development key seed (default: none).
    pub fn dev_key_seed(&self, _is_dev: bool) -> (r: Option<String>)
        ensures
            r == self.dev_key_seed,
    {
        copy_optional_string(&self.dev_key_seed)
    }

    /// The tracing targets (default: none).
    pub fn tracing_targets(&self) -> (r: Option<String>)
        ensures
            r == self.tracing_targets,
    {
        copy_optional_string(&self.tracing_targets)
    }

    /// Where traces go (default: the log).
    pub fn tracing_receiver(&self) -> (r: TracingReceiver)
        ensures
            r == self.spec_tracing_receiver(),
    {
        match self.tracing_receiver {
            Some(t) => t,
            None => TracingReceiver::Log,
        }
    }

    /// The node key settings (default: a freshly generated key).
    pub fn node_key(&self, _net_config_dir: &str) -> (r: NodeKeyConfig)
        ensures
            self.node_key is Some ==> r.same_as(self.node_key->0),
            self.node_key is None ==> r is Generate,
    {
        match &self.node_key {
            Some(k) => k.duplicate(),
            None => NodeKeyConfig::Generate,
        }
    }

    /// The supplied maximum number of runtime instances, if any.
    pub fn max_runtime_instances(&self) -> (r: Option<usize>)
        ensures
            r == self.max_runtime_instances,
    {
        self.max_runtime_instances
    }
}

/// The directory of chain `chain_id` under `base`: `<base>/chains/<chain_id>`.
pub open spec fn spec_chain_config_dir(base: Seq<char>, chain_id: Seq<char>) -> Seq<char> {
    join(join(base, CHAINS_DIR@), chain_id)
}

/// The network directory under a chain's directory: `<config_dir>/network`.
pub open spec fn spec_network_config_dir(config_dir: Seq<char>) -> Seq<char> {
    join(config_dir, DEFAULT_NETWORK_CONFIG_PATH@)
}

/// Derives the directory of chain `chain_id` under `base`.
pub fn chain_config_dir(base: &str, chain_id: &str) -> (r: String)
    ensures
        r@ == spec_chain_config_dir(base@, chain_id@),
{
    let chains = join_path(base, CHAINS_DIR);
    join_path(chains.as_str(), chain_id)
}

/// Derives the network directory under a chain's directory.
pub fn network_config_dir(config_dir: &str) -> (r: String)
    ensures
        r@ == spec_network_config_dir(config_dir@),
{
    join_path(config_dir, DEFAULT_NETWORK_CONFIG_PATH)
}

/// The platform's application directory as a sequence, empty where there is none.
pub open spec fn root_view(root: Option<String>) -> Seq<char> {
    match root {
        Some(r) => r@,
        None => Seq::empty(),
    }
}

impl CliConfiguration {
    /// The directory the chain's data lives in, given the platform's
    /// application directory `default_root`.
    pub open spec fn spec_config_dir(self, default_root: Seq<char>) -> Seq<char> {
        let base = if self.base_path is Some {
            self.base_path->0@
        } else {
            default_root
        };
        spec_chain_config_dir(base, self.chain_spec->0.id@)
    }

    /// `c` is the configuration that this override source resolves to, for
    /// `program`, the platform's application directory `default_root` and the
    /// task executor `executor`.
    ///
    /// The node name, where none is supplied, is random: only its length is fixed.
    pub open spec fn resolves_to<E>(
        self,
        program: ProgramInfo,
        default_root: Seq<char>,
        c: Configuration<E>,
        executor: E,
    ) -> bool {
        let chain = self.chain_spec->0;
        let dir = self.spec_config_dir(default_root);
        &&& c.impl_name == program.impl_name
        &&& c.impl_version == program.impl_version
        &&& c.roles == self.spec_roles()
        &&& c.task_executor == executor
        &&& c.transaction_pool == self.spec_transaction_pool()
        &&& (if self.node_name is Some {
            c.network.node_name == self.node_name->0
        } else {
            is_valid_node_name(c.network.node_name@) && is_generated_node_name(
                c.network.node_name@,
            )
        })
        &&& c.network.client_version@ == program.spec_client_id()
        &&& (if self.node_key is Some {
            c.network.node_key.same_as(self.node_key->0)
        } else {
            c.network.node_key is Generate
        })
        &&& c.network.net_config_path@ == spec_network_config_dir(dir)
        &&& (if self.keystore is Some {
            c.keystore.same_as(self.keystore->0)
        } else {
            c.keystore is InMemory
        })
        &&& c.database.path@ == (if self.database_path is Some {
            self.database_path->0@
        } else {
            dir
        })
        &&& c.database.cache_size == Some(self.spec_database_cache_size())
        &&& c.state_cache_size == (if self.state_cache_size is Some {
            self.state_cache_size->0
        } else {
            0
        })
        &&& c.state_cache_child_ratio == self.state_cache_child_ratio
        &&& c.pruning == self.spec_pruning()
        &&& c.wasm_method == self.spec_wasm_method()
        &&& c.execution_strategies == self.spec_execution_strategies()
        &&& c.rpc_http == self.rpc_http
        &&& c.rpc_ws == self.rpc_ws
        &&& c.rpc_ws_max_connections == self.rpc_ws_max_connections
        &&& strings_view(c.rpc_cors) == self.spec_rpc_cors()
        &&& c.prometheus_config == self.prometheus_config
        &&& endpoints_view(c.telemetry_endpoints) == self.spec_telemetry_endpoints(chain)
        &&& c.telemetry_external_transport == self.telemetry_external_transport
        &&& c.default_heap_pages == self.default_heap_pages
        &&& c.offchain_worker == self.offchain_worker
        &&& c.sentry_mode == self.sentry_mode
        &&& c.force_authoring == self.force_authoring
        &&& c.disable_grandpa == self.disable_grandpa
        &&& c.dev_key_seed == self.dev_key_seed
        &&& c.tracing_targets == self.tracing_targets
        &&& c.tracing_receiver == self.spec_tracing_receiver()
        &&& c.chain_spec.same_as(chain)
        &&& c.max_runtime_instances == self.spec_max_runtime_instances()
    }

    /// Resolves every facet into a configuration for `program`.
    ///
    /// `default_root` is the platform's application directory for the
    /// program, if the platform has one; it is used only when no base path is
    /// supplied. Resolution fails without a chain specification, and without
    /// any directory to place the chain's data in.
    pub fn create_configuration<E>(
        &self,
        program: &ProgramInfo,
        default_root: Option<String>,
        task_executor: E,
    ) -> (r: Result<Configuration<E>, Error>)
        ensures
            r is Ok <==> (self.chain_spec is Some && (self.base_path is Some
                || default_root is Some) && !self.spec_database_path_invalid()),
            self.chain_spec is None ==> r is Err && r->Err_0 == Error::ChainSpecUnavailable,
            self.chain_spec is Some && self.base_path is None && default_root is None ==> r is Err
                && r->Err_0 == Error::PlatformDirectoryUnavailable,
            self.chain_spec is Some && (self.base_path is Some || default_root is Some)
                && self.spec_database_path_invalid() ==> r is Err && r->Err_0
                == Error::InvalidDatabasePath,
            r is Ok ==> self.resolves_to(*program, root_view(default_root), r->Ok_0, task_executor),
    {
        let chain_spec = match self.chain_spec() {
            Ok(c) => c,
            Err(e) => {
                return Err(e);
            },
        };
        let is_dev = self.is_dev();
        let config_dir = match &self.base_path {
            Some(base) => chain_config_dir(base.as_str(), chain_spec.id.as_str()),
            None => match &default_root {
                Some(root) => chain_config_dir(root.as_str(), chain_spec.id.as_str()),
                None => {
                    return Err(Error::PlatformDirectoryUnavailable);
                },
            },
        };
        let net_config_dir = network_config_dir(config_dir.as_str());
        let client_id = program.client_id();
        let database_cache_size = Some(
            match self.database_cache_size() {
                Some(size) => size,
                None => DEFAULT_DATABASE_CACHE_SIZE,
            },
        );
        let node_key = self.node_key(net_config_dir.as_str());
        let roles = self.roles(is_dev);
        let max_runtime_instances = match self.max_runtime_instances() {
            Some(n) => n,
            None => DEFAULT_MAX_RUNTIME_INSTANCES,
        };
        let node_name = self.node_name();
        let network = self.network_config(
            &chain_spec,
            is_dev,
            net_config_dir,
            client_id,
            node_name,
            node_key,
        );
        let keystore = self.keystore_config(config_dir.as_str());
        let database = match self.database_config(config_dir, database_cache_size) {
            Ok(d) => d,
            Err(e) => {
                return Err(e);
            },
        };
        let telemetry_endpoints = self.telemetry_endpoints(&chain_spec);
        Ok(
            Configuration {
                impl_name: program.impl_name.clone(),
                impl_version: program.impl_version.clone(),
                roles,
                task_executor,
                transaction_pool: self.transaction_pool(),
                network,
                keystore,
                database,
                state_cache_size: self.state_cache_size(),
                state_cache_child_ratio: self.state_cache_child_ratio(),
                pruning: self.pruning(is_dev, roles),
                wasm_method: self.wasm_method(),
                execution_strategies: self.execution_strategies(is_dev),
                rpc_http: self.rpc_http(),
                rpc_ws: self.rpc_ws(),
                rpc_ws_max_connections: self.rpc_ws_max_connections(),
                rpc_cors: self.rpc_cors(is_dev),
                prometheus_config: self.prometheus_config(),
                telemetry_endpoints,
                telemetry_external_transport: self.telemetry_external_transport(),
                default_heap_pages: self.default_heap_pages(),
                offchain_worker: self.offchain_worker(roles),
                sentry_mode: self.sentry_mode(),
                force_authoring: self.force_authoring(),
                disable_grandpa: self.disable_grandpa(),
                dev_key_seed: self.dev_key_seed(is_dev),
                tracing_targets: self.tracing_targets(),
                tracing_receiver: self.tracing_receiver(),
                chain_spec,
                max_runtime_instances,
            },
        )
    }
}

/// An override source that supplies no facet beyond the base path and the
/// chain specification resolves every optional facet to its default: a full
/// node with a database cache of `DEFAULT_DATABASE_CACHE_SIZE`, at most
/// `DEFAULT_MAX_RUNTIME_INSTANCES` runtime instances, pruning that keeps the
/// last `DEFAULT_KEEP_BLOCKS` blocks, an in-memory keystore, a generated node
/// key and name, an empty RPC origin list, the chain's telemetry endpoints,
/// the database in the chain's directory, and every optional service
/// disabled.
pub proof fn lemma_unset_facets_resolve_to_defaults<E>(
    src: CliConfiguration,
    program: ProgramInfo,
    default_root: Seq<char>,
    c: Configuration<E>,
    executor: E,
)
    requires
        src.supplies_no_overrides(),
        src.chain_spec is Some,
        src.resolves_to(program, default_root, c, executor),
    ensures
        c.roles == Roles::Full,
        c.transaction_pool == TransactionPoolOptions::spec_default(),
        is_valid_node_name(c.network.node_name@),
        is_generated_node_name(c.network.node_name@),
        c.network.node_key is Generate,
        c.keystore is InMemory,
        c.database.path@ == src.spec_config_dir(default_root),
        c.database.cache_size == Some(DEFAULT_DATABASE_CACHE_SIZE),
        c.state_cache_size == 0,
        c.state_cache_child_ratio is None,
        c.pruning == (PruningMode::Constrained { max_blocks: Some(DEFAULT_KEEP_BLOCKS) }),
        c.wasm_method == WasmExecutionMethod::Interpreted,
        c.execution_strategies == ExecutionStrategies::spec_default(),
        c.rpc_http is None,
        c.rpc_ws is None,
        c.rpc_ws_max_connections is None,
        strings_view(c.rpc_cors) == Some(Seq::<String>::empty()),
        c.prometheus_config is None,
        endpoints_view(c.telemetry_endpoints) == endpoints_view(
            src.chain_spec->0.telemetry_endpoints,
        ),
        c.telemetry_external_transport is None,
        c.default_heap_pages is None,
        !c.offchain_worker,
        !c.sentry_mode,
        !c.force_authoring,
        !c.disable_grandpa,
        c.dev_key_seed is None,
        c.tracing_targets is None,
        c.tracing_receiver == TracingReceiver::Log,
        c.max_runtime_instances == DEFAULT_MAX_RUNTIME_INSTANCES,
{
}

} // verus!
