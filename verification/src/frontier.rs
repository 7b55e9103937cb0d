//! The Frontier (Ethereum compatibility) components that a node sets up, and
//! the background tasks that keep them current.
use vstd::prelude::*;
use crate::eth_config::BackendType;
use crate::eth_config::EthConfiguration;
use crate::service::ServiceError;

verus! {

/// The pool of installed Ethereum log filters, described by how many filters
/// it holds.
#[derive(Debug, Clone, Copy, PartialEq, Eq, Structural)]
pub struct FilterPool {
    pub installed: usize,
}

/// The cache of per-block fee history, described by how many blocks it holds.
#[derive(Debug, Clone, Copy, PartialEq, Eq, Structural)]
pub struct FeeHistoryCache {
    pub blocks: usize,
}

/// Maximum number of blocks in the fee history cache.
pub type FeeHistoryCacheLimit = u64;

/// The Frontier components that the RPC layer and the maintenance tasks share.
#[derive(Debug, Clone, Copy, PartialEq, Eq, Structural)]
pub struct FrontierPartialComponents {
    pub filter_pool: Option<FilterPool>,
    pub fee_history_cache: FeeHistoryCache,
    pub fee_history_cache_limit: FeeHistoryCacheLimit,
}

/// Creates the shared Frontier components: an empty filter pool (filters are
/// always enabled), an empty fee history cache, and the configured cache limit.
/// It never fails.
pub fn new_frontier_partial(config: &EthConfiguration) -> (r: Result<
    FrontierPartialComponents,
    ServiceError,
>)
    ensures
        r == Ok::<FrontierPartialComponents, ServiceError>(
            FrontierPartialComponents {
                filter_pool: Some(FilterPool { installed: 0 }),
                fee_history_cache: FeeHistoryCache { blocks: 0 },
                fee_history_cache_limit: config.fee_history_limit,
            },
        ),
{
    Ok(
        FrontierPartialComponents {
            filter_pool: Some(FilterPool { installed: 0 }),
            fee_history_cache: FeeHistoryCache { blocks: 0 },
            fee_history_cache_limit: config.fee_history_limit,
        },
    )
}

/// How the mapping-sync worker follows the chain.
#[derive(Debug, Clone, Copy, PartialEq, Eq, Structural)]
pub enum SyncStrategy {
    Normal,
    Parachain,
}

/// A background task that keeps Frontier's data current.
#[derive(Debug, Clone, Copy, PartialEq, Eq, Structural)]
pub enum FrontierTask {
    /// Maps blocks into the key-value backend as they are imported.
    KeyValueMappingSync {
        notification_timeout_secs: u64,
        retry_times: usize,
        sync_from: u64,
        strategy: SyncStrategy,
    },
    /// Indexes blocks into the SQL backend.
    SqlMappingSync {
        read_notification_timeout_secs: u64,
        check_indexed_blocks_interval_secs: u64,
        strategy: SyncStrategy,
    },
    /// Drops log filters that have not been polled for `retain_threshold` blocks.
    FilterPoolMaintenance { retain_threshold: u64 },
    /// Keeps the fee history cache within `limit` blocks.
    FeeHistoryMaintenance { limit: u64 },
}

/// The task that syncs the mapping for a backend of the given type.
pub open spec fn mapping_sync_task(backend: BackendType) -> FrontierTask {
    match backend {
        BackendType::KeyValue => FrontierTask::KeyValueMappingSync {
            notification_timeout_secs: 6,
            retry_times: 3,
            sync_from: 0,
            strategy: SyncStrategy::Normal,
        },
        BackendType::Sql => FrontierTask::SqlMappingSync {
            read_notification_timeout_secs: 10,
            check_indexed_blocks_interval_secs: 60,
            strategy: SyncStrategy::Parachain,
        },
    }
}

/// The tasks in the order in which they are spawned.
pub open spec fn spec_frontier_tasks(
    backend: BackendType,
    filter_pool_enabled: bool,
    fee_history_cache_limit: u64,
) -> Seq<FrontierTask> {
    seq![mapping_sync_task(backend)] + (if filter_pool_enabled {
        seq![FrontierTask::FilterPoolMaintenance { retain_threshold: 100 }]
    } else {
        Seq::empty()
    }) + seq![FrontierTask::FeeHistoryMaintenance { limit: fee_history_cache_limit }]
}

impl FrontierTask {
    /// The name under which the task is spawned.
    pub fn name(&self) -> (r: &'static str)
        ensures
            r@ == (match self {
                FrontierTask::KeyValueMappingSync { .. } => "frontier-mapping-sync-worker"@,
                FrontierTask::SqlMappingSync { .. } => "frontier-mapping-sync-worker"@,
                FrontierTask::FilterPoolMaintenance { .. } => "frontier-filter-pool"@,
                FrontierTask::FeeHistoryMaintenance { .. } => "frontier-fee-history"@,
            }),
    {
        match self {
            FrontierTask::KeyValueMappingSync { .. } => "frontier-mapping-sync-worker",
            FrontierTask::SqlMappingSync { .. } => "frontier-mapping-sync-worker",
            FrontierTask::FilterPoolMaintenance { .. } => "frontier-filter-pool",
            FrontierTask::FeeHistoryMaintenance { .. } => "frontier-fee-history",
        }
    }

    /// The group every Frontier task is spawned in.
    pub fn group(&self) -> (r: &'static str)
        ensures
            r@ == "frontier"@,
    {
        "frontier"
    }

    /// Whether the task runs on a blocking thread: only the SQL indexer does.
    pub fn is_blocking(&self) -> (r: bool)
        ensures
            r == (self is SqlMappingSync),
    {
        match self {
            FrontierTask::SqlMappingSync { .. } => true,
            _ => false,
        }
    }
}

/// The essential tasks that keep Frontier current: the mapping-sync worker for
/// the backend in use, the filter pool maintenance where filters are enabled,
/// and the fee history maintenance.
pub fn frontier_tasks(
    backend: BackendType,
    filter_pool: &Option<FilterPool>,
    fee_history_cache_limit: FeeHistoryCacheLimit,
) -> (r: Vec<FrontierTask>)
    ensures
        r@ == spec_frontier_tasks(backend, filter_pool is Some, fee_history_cache_limit),
{
    let mut tasks: Vec<FrontierTask> = Vec::new();
    let mapping_sync = match backend {
        BackendType::KeyValue => FrontierTask::KeyValueMappingSync {
            notification_timeout_secs: 6,
            retry_times: 3,
            sync_from: 0,
            strategy: SyncStrategy::Normal,
        },
        BackendType::Sql => FrontierTask::SqlMappingSync {
            read_notification_timeout_secs: 10,
            check_indexed_blocks_interval_secs: 60,
            strategy: SyncStrategy::Parachain,
        },
    };
    tasks.push(mapping_sync);
    if filter_pool.is_some() {
        tasks.push(FrontierTask::FilterPoolMaintenance { retain_threshold: 100 });
    }
    tasks.push(FrontierTask::FeeHistoryMaintenance { limit: fee_history_cache_limit });
    assert(tasks@ =~= spec_frontier_tasks(backend, filter_pool is Some, fee_history_cache_limit));
    tasks
}

/// Exactly one mapping-sync worker runs, and it is the one for the backend in
/// use; the fee history maintenance always runs, last; the filter pool
/// maintenance runs exactly when filters are enabled.
pub proof fn lemma_frontier_tasks_shape(
    backend: BackendType,
    filter_pool_enabled: bool,
    fee_history_cache_limit: u64,
)
    ensures
        ({
            let tasks = spec_frontier_tasks(backend, filter_pool_enabled, fee_history_cache_limit);
            &&& tasks[0] == mapping_sync_task(backend)
            &&& tasks.last() == FrontierTask::FeeHistoryMaintenance {
                limit: fee_history_cache_limit,
            }
            &&& tasks.len() == (if filter_pool_enabled {
                3int
            } else {
                2int
            })
            &&& (tasks.contains(FrontierTask::FilterPoolMaintenance { retain_threshold: 100 })
                <==> filter_pool_enabled)
            &&& forall|i: int|
                1 <= i < tasks.len() ==> !(#[trigger] tasks[i] is KeyValueMappingSync)
                    && !(tasks[i] is SqlMappingSync)
        }),
{
    let tasks = spec_frontier_tasks(backend, filter_pool_enabled, fee_history_cache_limit);
    if filter_pool_enabled {
        assert(tasks[1] == FrontierTask::FilterPoolMaintenance { retain_threshold: 100 });
    } else {
        assert forall|i: int| 0 <= i < tasks.len() implies tasks[i]
            != FrontierTask::FilterPoolMaintenance { retain_threshold: 100 } by {}
    }
}

} // verus!
