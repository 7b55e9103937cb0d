use aleph_node::aleph_cli::AlephCli;
use aleph_node::backoff::LimitNonfinalized;
use aleph_node::eth_config::BackendType;
use aleph_node::eth_config::EthConfiguration;
use aleph_node::frontier::frontier_tasks;
use aleph_node::frontier::new_frontier_partial;
use aleph_node::frontier::FeeHistoryCache;
use aleph_node::frontier::FilterPool;
use aleph_node::frontier::FrontierPartialComponents;
use aleph_node::frontier::FrontierTask;
use aleph_node::frontier::SyncStrategy;
use aleph_node::rpc::eth_rpc_apis;
use aleph_node::rpc::full_rpc_apis;
use aleph_node::rpc::DefaultEthConfig;
use aleph_node::rpc::RpcApi;
use aleph_node::runtime::Runtime;
use aleph_node::service::backoff_authoring_blocks;
use aleph_node::service::backup_path;
use aleph_node::service::chain_prefix;
use aleph_node::service::frontier_backend_settings;
use aleph_node::service::get_rate_limit_config;
use aleph_node::service::has_external_addresses;
use aleph_node::service::notification_protocols;
use aleph_node::service::pending_timestamp;
use aleph_node::service::slot_at;
use aleph_node::service::validator_address_cache_enabled;
use aleph_node::service::FrontierBackendSettings;
use aleph_node::service::Protocol;
use aleph_node::service::DEFAULT_BACKUP_FOLDER;

fn cli() -> AlephCli {
    AlephCli {
        backup_path: None,
        no_backup: false,
        max_nonfinalized_blocks: 20,
        external_addresses: vec!["/dns4/node.example/tcp/30343".to_string()],
        validator_port: 30343,
        unit_creation_delay: 200,
        alephbft_bit_rate_per_connection: 64 * 1024,
        no_collection_of_extra_debugging_data: false,
    }
}

#[test]
fn backoff_at_limit() {
    let limit = LimitNonfinalized(5);
    assert!(limit.should_backoff(10, 0, 5, 0, "aura"));
    assert!(limit.should_backoff(11, 0, 5, 0, "aura"));
    assert!(!limit.should_backoff(9, 0, 5, 0, "aura"));
}

#[test]
fn backoff_never_when_finalized_ahead() {
    let limit = LimitNonfinalized(1);
    assert!(!limit.should_backoff(3, 7, 8, 9, "aura"));
    assert!(!limit.should_backoff(8, 7, 8, 9, "aura"));
}

#[test]
fn backoff_zero_limit_always() {
    let limit = LimitNonfinalized(0);
    assert!(limit.should_backoff(0, 0, 0, 0, ""));
    assert!(limit.should_backoff(3, 0, 100, 0, ""));
}

#[test]
fn nonfinalized_blocks_counts_and_saturates() {
    assert_eq!(LimitNonfinalized::nonfinalized_blocks(10, 3), 7);
    assert_eq!(LimitNonfinalized::nonfinalized_blocks(3, 10), 0);
    assert_eq!(LimitNonfinalized::nonfinalized_blocks(1u128 << 40, 0), u32::MAX);
    assert_eq!(LimitNonfinalized::nonfinalized_blocks(u128::MAX, 1), u32::MAX);
    assert_eq!(LimitNonfinalized::nonfinalized_blocks(u32::MAX as u128 + 7, 7), u32::MAX);
}

#[test]
fn backoff_huge_gap_reaches_max_limit() {
    let limit = LimitNonfinalized(u32::MAX);
    assert!(limit.should_backoff(u128::MAX, 0, 0, 0, "aura"));
    assert!(!limit.should_backoff(u32::MAX as u128 - 1, 0, 0, 0, "aura"));
}

#[test]
fn eth_configuration_defaults() {
    let c = EthConfiguration::default();
    assert_eq!(c.max_past_logs, 10000);
    assert_eq!(c.fee_history_limit, 2048);
    assert!(!c.enable_dev_signer);
    assert_eq!(c.target_gas_price, 1);
    assert_eq!(c.execute_gas_limit_multiplier, 10);
    assert_eq!(c.eth_log_block_cache, 50);
    assert_eq!(c.eth_statuses_cache, 50);
    assert_eq!(c.frontier_backend_type, BackendType::KeyValue);
    assert_eq!(c.frontier_sql_backend_pool_size, 100);
    assert_eq!(c.frontier_sql_backend_num_ops_timeout, 10000000);
    assert_eq!(c.frontier_sql_backend_thread_count, 4);
    assert_eq!(c.frontier_sql_backend_cache_size, 200 * 1024 * 1024);
    assert_eq!(BackendType::default(), BackendType::KeyValue);
}

#[test]
fn backup_path_disabled() {
    let mut c = cli();
    c.no_backup = true;
    c.backup_path = Some("/backups".to_string());
    assert_eq!(backup_path(&c, "/base"), None);
}

#[test]
fn backup_path_configured() {
    let mut c = cli();
    c.backup_path = Some("/backups".to_string());
    assert_eq!(backup_path(&c, "/base"), Some("/backups".to_string()));
}

#[test]
fn backup_path_default_folder() {
    let c = cli();
    assert_eq!(DEFAULT_BACKUP_FOLDER, "backup-stash");
    assert_eq!(backup_path(&c, "/base"), Some("/base/backup-stash".to_string()));
    assert_eq!(backup_path(&c, "/base/"), Some("/base/backup-stash".to_string()));
    assert_eq!(backup_path(&c, "base"), Some("base/backup-stash".to_string()));
    assert_eq!(backup_path(&c, ""), Some("backup-stash".to_string()));
}

#[test]
fn rate_limit_config() {
    let mut c = cli();
    assert_eq!(get_rate_limit_config(&c).alephbft_bit_rate_per_connection, 64 * 1024);
    c.alephbft_bit_rate_per_connection = u64::MAX;
    let expected = if (u64::MAX as u128) <= usize::MAX as u128 { u64::MAX as usize } else { usize::MAX };
    assert_eq!(get_rate_limit_config(&c).alephbft_bit_rate_per_connection, expected);
}

#[test]
fn validator_address_cache_follows_option() {
    let mut c = cli();
    assert!(!validator_address_cache_enabled(&c));
    c.no_collection_of_extra_debugging_data = true;
    assert!(validator_address_cache_enabled(&c));
}

#[test]
fn external_addresses_required() {
    let mut c = cli();
    assert!(has_external_addresses(&c));
    c.external_addresses = Vec::new();
    assert!(!has_external_addresses(&c));
}

#[test]
fn backoff_strategy_uses_configured_limit() {
    let c = cli();
    let strategy = backoff_authoring_blocks(&c).unwrap();
    assert_eq!(strategy.0, 20);
}

#[test]
fn chain_prefix_with_and_without_fork() {
    let mut hash = [0u8; 32];
    hash[0] = 0x12;
    hash[1] = 0x34;
    hash[15] = 0xff;
    hash[30] = 0xcd;
    hash[31] = 0xef;
    assert_eq!(chain_prefix(hash, None), "/0x1234\u{2026}cdef");
    assert_eq!(chain_prefix(hash, Some("testnet")), "/0x1234\u{2026}cdef/testnet");
    assert_eq!(chain_prefix([0u8; 32], None), "/0x0000\u{2026}0000");
}

#[test]
fn notification_protocol_order() {
    assert_eq!(notification_protocols(), vec![Protocol::Authentication, Protocol::BlockSync]);
}

#[test]
fn key_value_backend_settings() {
    let c = EthConfiguration::default();
    assert_eq!(
        frontier_backend_settings(&c, "/data/chains/main/db/full/frontier"),
        FrontierBackendSettings::KeyValue { path: "/data/chains/main/db/full/frontier".to_string() }
    );
}

#[test]
fn sql_backend_settings_absolute_dir() {
    let mut c = EthConfiguration::default();
    c.frontier_backend_type = BackendType::Sql;
    assert_eq!(
        frontier_backend_settings(&c, "/data/frontier"),
        FrontierBackendSettings::Sql {
            path: "/data/frontier/sql".to_string(),
            url: "/data/frontier/sql/frontier.db3".to_string(),
            create_if_missing: true,
            thread_count: 4,
            cache_size: 209715200,
            pool_size: 100,
            num_ops_timeout: Some(10000000),
        }
    );
}

#[test]
fn sql_backend_settings_relative_dir_without_timeout() {
    let mut c = EthConfiguration::default();
    c.frontier_backend_type = BackendType::Sql;
    c.frontier_sql_backend_num_ops_timeout = 0;
    c.frontier_sql_backend_thread_count = 8;
    assert_eq!(
        frontier_backend_settings(&c, "db"),
        FrontierBackendSettings::Sql {
            path: "db/sql".to_string(),
            url: "sqlite:///db/sql/frontier.db3".to_string(),
            create_if_missing: true,
            thread_count: 8,
            cache_size: 209715200,
            pool_size: 100,
            num_ops_timeout: None,
        }
    );
}

#[test]
fn pending_slot_is_next_slot() {
    let now = 1_700_000_000_500u64;
    let duration = 1_000u64;
    let pending = pending_timestamp(now, duration);
    assert_eq!(pending, 1_700_000_001_500);
    assert_eq!(slot_at(now, duration), 1_700_000_000);
    assert_eq!(slot_at(pending, duration), slot_at(now, duration) + 1);
}

#[test]
fn frontier_partial_components() {
    let mut c = EthConfiguration::default();
    c.fee_history_limit = 512;
    assert_eq!(
        new_frontier_partial(&c),
        Ok(FrontierPartialComponents {
            filter_pool: Some(FilterPool { installed: 0 }),
            fee_history_cache: FeeHistoryCache { blocks: 0 },
            fee_history_cache_limit: 512,
        })
    );
}

#[test]
fn frontier_tasks_key_value() {
    let tasks = frontier_tasks(BackendType::KeyValue, &Some(FilterPool { installed: 0 }), 2048);
    assert_eq!(
        tasks,
        vec![
            FrontierTask::KeyValueMappingSync {
                notification_timeout_secs: 6,
                retry_times: 3,
                sync_from: 0,
                strategy: SyncStrategy::Normal,
            },
            FrontierTask::FilterPoolMaintenance { retain_threshold: 100 },
            FrontierTask::FeeHistoryMaintenance { limit: 2048 },
        ]
    );
    assert_eq!(tasks[0].name(), "frontier-mapping-sync-worker");
    assert_eq!(tasks[1].name(), "frontier-filter-pool");
    assert_eq!(tasks[2].name(), "frontier-fee-history");
    assert!(tasks.iter().all(|t| t.group() == "frontier"));
    assert!(tasks.iter().all(|t| !t.is_blocking()));
}

#[test]
fn frontier_tasks_sql_without_filters() {
    let tasks = frontier_tasks(BackendType::Sql, &None, 7);
    assert_eq!(
        tasks,
        vec![
            FrontierTask::SqlMappingSync {
                read_notification_timeout_secs: 10,
                check_indexed_blocks_interval_secs: 60,
                strategy: SyncStrategy::Parachain,
            },
            FrontierTask::FeeHistoryMaintenance { limit: 7 },
        ]
    );
    assert!(tasks[0].is_blocking());
    assert_eq!(tasks[0].name(), "frontier-mapping-sync-worker");
}

#[test]
fn eth_apis_with_filters_and_signer() {
    assert_eq!(
        eth_rpc_apis(true, &Some(FilterPool { installed: 0 }), 10000),
        vec![
            RpcApi::Eth { dev_signer: true },
            RpcApi::EthFilter { max_stored_filters: 500, max_past_logs: 10000 },
            RpcApi::EthPubSub,
            RpcApi::Net { peer_count_as_hex: true },
            RpcApi::Web3,
            RpcApi::Debug,
        ]
    );
}

#[test]
fn full_apis_without_filters() {
    assert_eq!(
        full_rpc_apis(false, &None, 1),
        vec![
            RpcApi::System,
            RpcApi::TransactionPayment,
            RpcApi::AlephNode,
            RpcApi::Eth { dev_signer: false },
            RpcApi::EthPubSub,
            RpcApi::Net { peer_count_as_hex: true },
            RpcApi::Web3,
            RpcApi::Debug,
        ]
    );
}

#[test]
fn marker_types() {
    let _config: DefaultEthConfig<u8, u16> = DefaultEthConfig::new();
    assert_eq!(Runtime, Runtime);
}
