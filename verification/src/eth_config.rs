//! The Ethereum-compatibility settings a node runs with.
use vstd::prelude::*;

verus! {

/// Available Frontier backend types.
#[derive(Debug, Clone, Copy, PartialEq, Eq, Structural)]
pub enum BackendType {
    /// Either RocksDb or ParityDb, as inherited from the global backend settings.
    KeyValue,
    /// Sql database with custom log indexing.
    Sql,
}

impl Default for BackendType {
    /// The key-value backend.
    fn default() -> (r: Self)
        ensures
            r == BackendType::KeyValue,
    {
        BackendType::KeyValue
    }
}

/// The Ethereum-compatibility configuration used to run a node.
#[derive(Debug, Clone, Copy, PartialEq, Eq, Structural)]
pub struct EthConfiguration {
    /// Maximum number of logs in a query.
    pub max_past_logs: u32,
    /// Maximum fee history cache size.
    pub fee_history_limit: u64,
    /// Whether a development signer is offered over RPC.
    pub enable_dev_signer: bool,
    /// The dynamic-fee pallet target gas price set by block author.
    pub target_gas_price: u64,
    /// Maximum allowed gas limit will be `block.gas_limit * execute_gas_limit_multiplier`
    /// when using eth_call/eth_estimateGas.
    pub execute_gas_limit_multiplier: u64,
    /// Size in bytes of the LRU cache for block data.
    pub eth_log_block_cache: usize,
    /// Size in bytes of the LRU cache for transactions statuses data.
    pub eth_statuses_cache: usize,
    /// The frontier backend type (KeyValue or Sql).
    pub frontier_backend_type: BackendType,
    /// The SQL backend's pool size.
    pub frontier_sql_backend_pool_size: u32,
    /// The SQL backend's query timeout in number of VM ops.
    pub frontier_sql_backend_num_ops_timeout: u32,
    /// The SQL backend's auxiliary thread limit.
    pub frontier_sql_backend_thread_count: u32,
    /// The SQL backend's cache size in bytes (200MB by default).
    pub frontier_sql_backend_cache_size: u64,
}

/// The configuration a node runs with when no option is given.
pub open spec fn default_eth_configuration() -> EthConfiguration {
    EthConfiguration {
        max_past_logs: 10000,
        fee_history_limit: 2048,
        enable_dev_signer: false,
        target_gas_price: 1,
        execute_gas_limit_multiplier: 10,
        eth_log_block_cache: 50,
        eth_statuses_cache: 50,
        frontier_backend_type: BackendType::KeyValue,
        frontier_sql_backend_pool_size: 100,
        frontier_sql_backend_num_ops_timeout: 10000000,
        frontier_sql_backend_thread_count: 4,
        frontier_sql_backend_cache_size: 209715200,
    }
}

impl Default for EthConfiguration {
    /// The values that the command line takes when an option is absent.
    fn default() -> (r: Self)
        ensures
            r == default_eth_configuration(),
    {
        EthConfiguration {
            max_past_logs: 10000,
            fee_history_limit: 2048,
            enable_dev_signer: false,
            target_gas_price: 1,
            execute_gas_limit_multiplier: 10,
            eth_log_block_cache: 50,
            eth_statuses_cache: 50,
            frontier_backend_type: BackendType::default(),
            frontier_sql_backend_pool_size: 100,
            frontier_sql_backend_num_ops_timeout: 10000000,
            frontier_sql_backend_thread_count: 4,
            frontier_sql_backend_cache_size: 209715200,
        }
    }
}

/// The default SQL cache is 200 MiB, and by default the key-value backend is
/// chosen.
pub proof fn lemma_default_sql_cache_is_200_mib()
    ensures
        default_eth_configuration().frontier_sql_backend_cache_size == 200 * 1024 * 1024,
        default_eth_configuration().frontier_backend_type == BackendType::KeyValue,
{
}

} // verus!
