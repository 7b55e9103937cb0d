//! Decisions the node's service takes while it sets a validator up.
use vstd::prelude::*;
use crate::aleph_cli::AlephCli;
use crate::backoff::LimitNonfinalized;
use crate::eth_config::BackendType;
use crate::eth_config::EthConfiguration;
use crate::paths::joined_path;
use crate::paths::path_join;

verus! {

/// Errors of setting up the node's service.
#[derive(Debug, Clone, PartialEq, Eq)]
pub enum ServiceError {
    /// Any other failure, with its description.
    Other(String),
}

/// The characters of an optional string.
pub open spec fn string_option_view(o: Option<String>) -> Option<Seq<char>> {
    match o {
        Some(s) => Some(s@),
        None => None,
    }
}

/// The characters of an optional string slice.
pub open spec fn str_option_view(o: Option<&str>) -> Option<Seq<char>> {
    match o {
        Some(s) => Some(s@),
        None => None,
    }
}

/// Folder under the node's base path that holds AlephBFT backups by default.
pub const DEFAULT_BACKUP_FOLDER: &'static str = "backup-stash";

/// Where AlephBFT backups go: nowhere when backups are switched off, else the
/// configured directory, else the default folder under `base_path`.
pub open spec fn spec_backup_path(
    no_backup: bool,
    configured: Option<String>,
    base_path: Seq<char>,
) -> Option<Seq<char>> {
    if no_backup {
        None
    } else {
        match configured {
            Some(path) => Some(path@),
            None => Some(joined_path(base_path, DEFAULT_BACKUP_FOLDER@)),
        }
    }
}

/// Chooses the directory for AlephBFT backups.
pub fn backup_path(aleph_config: &AlephCli, base_path: &str) -> (r: Option<String>)
    ensures
        string_option_view(r) == spec_backup_path(
            aleph_config.no_backup,
            aleph_config.backup_path,
            base_path@,
        ),
        aleph_config.no_backup ==> r is None,
        !aleph_config.no_backup && aleph_config.backup_path is Some ==> r
            == aleph_config.backup_path,
        !aleph_config.no_backup && aleph_config.backup_path is None ==> (r matches Some(p) && p@
            == joined_path(base_path@, "backup-stash"@)),
{
    if aleph_config.no_backup() {
        return None;
    }
    if let Some(path) = aleph_config.backup_path() {
        Some(path)
    } else {
        Some(path_join(base_path, DEFAULT_BACKUP_FOLDER))
    }
}

/// Rate limits of the validator network.
#[derive(Debug, Clone, Copy, PartialEq, Eq, Structural)]
pub struct RateLimiterConfig {
    /// Bits per second allowed on one AlephBFT connection.
    pub alephbft_bit_rate_per_connection: usize,
}

/// The configured bit rate, or `usize::MAX` where it does not fit in a `usize`.
pub fn get_rate_limit_config(aleph_config: &AlephCli) -> (r: RateLimiterConfig)
    ensures
        r.alephbft_bit_rate_per_connection == (if aleph_config.alephbft_bit_rate_per_connection
            <= usize::MAX {
            aleph_config.alephbft_bit_rate_per_connection as int
        } else {
            usize::MAX as int
        }),
{
    let rate = aleph_config.alephbft_bit_rate_per_connection();
    if rate <= usize::MAX as u64 {
        RateLimiterConfig { alephbft_bit_rate_per_connection: rate as usize }
    } else {
        RateLimiterConfig { alephbft_bit_rate_per_connection: usize::MAX }
    }
}

/// Whether the service keeps a cache of validator addresses: exactly when the
/// option `no_collection_of_extra_debugging_data` is set.
pub fn validator_address_cache_enabled(aleph_config: &AlephCli) -> (r: bool)
    ensures
        r == aleph_config.no_collection_of_extra_debugging_data,
{
    aleph_config.no_collection_of_extra_debugging_data()
}

/// A validator can only start with at least one external address.
pub fn has_external_addresses(aleph_config: &AlephCli) -> (r: bool)
    ensures
        r == (aleph_config.external_addresses@.len() > 0),
{
    aleph_config.external_addresses.len() > 0
}

/// The backoff strategy of block authoring: pause at the configured number of
/// non-finalized blocks.
pub fn backoff_authoring_blocks(aleph_config: &AlephCli) -> (r: Option<LimitNonfinalized>)
    ensures
        r matches Some(limit) && limit.0 == aleph_config.max_nonfinalized_blocks,
{
    Some(LimitNonfinalized(aleph_config.max_nonfinalized_blocks()))
}

/// The lower-case hexadecimal digit of a value below sixteen.
pub open spec fn hex_digit(n: int) -> char {
    seq!['0', '1', '2', '3', '4', '5', '6', '7', '8', '9', 'a', 'b', 'c', 'd', 'e', 'f'][n]
}

/// A byte as two lower-case hexadecimal digits.
pub open spec fn hex_byte(b: u8) -> Seq<char> {
    seq![hex_digit((b / 16) as int), hex_digit((b % 16) as int)]
}

/// How a 32-byte hash displays: `0x`, its first two bytes in hexadecimal, an
/// ellipsis, and its last two bytes.
pub open spec fn hash_display(bytes: Seq<u8>) -> Seq<char> {
    seq!['0', 'x'] + hex_byte(bytes[0]) + hex_byte(bytes[1]) + seq!['…'] + hex_byte(bytes[30])
        + hex_byte(bytes[31])
}

/// The displayed hash is eleven characters: `0x`, the first byte's two
/// hexadecimal digits (high nibble first), the second byte's, an ellipsis, and
/// the two digits of each of the last two bytes; every digit is the one for
/// the nibble's value.
pub proof fn lemma_hash_display_shows_bytes(bytes: Seq<u8>)
    requires
        bytes.len() == 32,
    ensures
        ({
            let shown = hash_display(bytes);
            let digits = seq!['0', '1', '2', '3', '4', '5', '6', '7', '8', '9', 'a', 'b', 'c', 'd', 'e', 'f'];
            &&& shown.len() == 11
            &&& shown[0] == '0' && shown[1] == 'x'
            &&& shown[2] == digits[(bytes[0] / 16) as int] && shown[3] == digits[(bytes[0] % 16) as int]
            &&& shown[4] == digits[(bytes[1] / 16) as int] && shown[5] == digits[(bytes[1] % 16) as int]
            &&& shown[6] == '…'
            &&& shown[7] == digits[(bytes[30] / 16) as int] && shown[8] == digits[(bytes[30] % 16) as int]
            &&& shown[9] == digits[(bytes[31] / 16) as int] && shown[10] == digits[(bytes[31] % 16) as int]
        }),
{
}

/// `Display` of `sp_core::H256` (from `fixed-hash`), on the hash's bytes:
/// `0x`, the first two bytes as lower-case hexadecimal, `…`, the last two bytes.
#[verifier::external_body]
fn display_hash(hash: [u8; 32]) -> (r: String)
    ensures
        r@ == hash_display(hash@),
{
    format!("{}", sp_core::H256(hash))
}

/// Prefix of the node's network protocol names: a slash and the genesis hash
/// as it displays, then a slash and the fork id where the chain has one.
pub open spec fn spec_chain_prefix(genesis_hash: Seq<u8>, fork_id: Option<Seq<char>>) -> Seq<
    char,
> {
    match fork_id {
        Some(fork) => seq!['/'] + hash_display(genesis_hash) + seq!['/'] + fork,
        None => seq!['/'] + hash_display(genesis_hash),
    }
}

/// Builds the protocol name prefix from the genesis hash and the optional fork
/// id.
pub fn chain_prefix(genesis_hash: [u8; 32], fork_id: Option<&str>) -> (r: String)
    ensures
        r@ == spec_chain_prefix(genesis_hash@, str_option_view(fork_id)),
        fork_id is None ==> r@ == seq!['/'] + hash_display(genesis_hash@),
        fork_id matches Some(fork) ==> r@ == seq!['/'] + hash_display(genesis_hash@) + seq!['/']
            + fork@,
{
    let shown = display_hash(genesis_hash);
    let mut prefix = String::from_str("/");
    proof {
        reveal_strlit("/");
    }
    prefix.append(shown.as_str());
    match fork_id {
        Some(fork) => {
            prefix.append("/");
            prefix.append(fork);
        },
        None => {},
    }
    prefix
}

/// Notification protocols of the validator network.
#[derive(Debug, Clone, Copy, PartialEq, Eq, Structural)]
pub enum Protocol {
    /// Exchange of authentication data between validators.
    Authentication,
    /// Block synchronization.
    BlockSync,
}

/// The notification protocols added to the network configuration, in order:
/// authentication, then block sync.
pub fn notification_protocols() -> (r: Vec<Protocol>)
    ensures
        r@ == seq![Protocol::Authentication, Protocol::BlockSync],
{
    let mut protocols: Vec<Protocol> = Vec::new();
    protocols.push(Protocol::Authentication);
    protocols.push(Protocol::BlockSync);
    assert(protocols@ =~= seq![Protocol::Authentication, Protocol::BlockSync]);
    protocols
}

/// Where and how the Frontier database is opened.
#[derive(Debug, Clone, PartialEq, Eq)]
pub enum FrontierBackendSettings {
    /// A key-value database in the given directory.
    KeyValue { path: String },
    /// An SQLite database in directory `path`, opened through `url`.
    Sql {
        path: String,
        url: String,
        create_if_missing: bool,
        thread_count: u32,
        cache_size: u64,
        pool_size: u32,
        num_ops_timeout: Option<u32>,
    },
}

/// Directory of the SQL backend under the database configuration directory.
pub open spec fn sql_db_path(db_config_dir: Seq<char>) -> Seq<char> {
    joined_path(db_config_dir, "sql"@)
}

/// Address of the SQLite database file.
pub open spec fn sql_db_url(db_config_dir: Seq<char>) -> Seq<char> {
    joined_path(joined_path("sqlite:///"@, sql_db_path(db_config_dir)), "frontier.db3"@)
}

/// The Frontier database settings: the key-value store lives in the database
/// configuration directory; the SQL one in its `sql` subdirectory, in file
/// `frontier.db3`, created where missing, with the SQL options of the
/// configuration and no query timeout when that option is zero.
pub fn frontier_backend_settings(eth_config: &EthConfiguration, db_config_dir: &str) -> (r:
    FrontierBackendSettings)
    ensures
        eth_config.frontier_backend_type == BackendType::KeyValue ==> (r matches FrontierBackendSettings::KeyValue {
            path,
        } && path@ == db_config_dir@),
        eth_config.frontier_backend_type == BackendType::Sql ==> (r matches FrontierBackendSettings::Sql {
            path,
            url,
            create_if_missing,
            thread_count,
            cache_size,
            pool_size,
            num_ops_timeout,
        } && path@ == sql_db_path(db_config_dir@) && url@ == sql_db_url(db_config_dir@)
            && path@ == joined_path(db_config_dir@, "sql"@) && url@ == joined_path(
            joined_path("sqlite:///"@, joined_path(db_config_dir@, "sql"@)),
            "frontier.db3"@,
        ) && create_if_missing && thread_count == eth_config.frontier_sql_backend_thread_count
            && cache_size == eth_config.frontier_sql_backend_cache_size && pool_size
            == eth_config.frontier_sql_backend_pool_size && num_ops_timeout == (if eth_config.frontier_sql_backend_num_ops_timeout == 0 {
            None
        } else {
            Some(eth_config.frontier_sql_backend_num_ops_timeout)
        })),
{
    match eth_config.frontier_backend_type {
        BackendType::KeyValue => FrontierBackendSettings::KeyValue {
            path: String::from_str(db_config_dir),
        },
        BackendType::Sql => {
            let db_path = path_join(db_config_dir, "sql");
            let base = path_join("sqlite:///", db_path.as_str());
            let url = path_join(base.as_str(), "frontier.db3");
            let timeout = eth_config.frontier_sql_backend_num_ops_timeout;
            FrontierBackendSettings::Sql {
                path: db_path,
                url,
                create_if_missing: true,
                thread_count: eth_config.frontier_sql_backend_thread_count,
                cache_size: eth_config.frontier_sql_backend_cache_size,
                pool_size: eth_config.frontier_sql_backend_pool_size,
                num_ops_timeout: if timeout == 0 {
                    None
                } else {
                    Some(timeout)
                },
            }
        },
    }
}

/// Timestamp of the pending block: one slot after now.
pub fn pending_timestamp(now_ms: u64, slot_duration_ms: u64) -> (r: u64)
    requires
        now_ms + slot_duration_ms <= u64::MAX,
    ensures
        r == now_ms + slot_duration_ms,
{
    now_ms + slot_duration_ms
}

/// `sp_consensus_slots::Slot::from_timestamp` on millisecond values: the
/// timestamp divided by the slot duration, rounded down. A zero duration
/// divides by zero, so it is excluded.
#[verifier::external_body]
fn slot_from_timestamp(timestamp_ms: u64, slot_duration_ms: u64) -> (r: u64)
    requires
        slot_duration_ms > 0,
    ensures
        r == timestamp_ms / slot_duration_ms,
{
    u64::from(
        sp_consensus_slots::Slot::from_timestamp(
            sp_timestamp::Timestamp::new(timestamp_ms),
            sp_consensus_slots::SlotDuration::from_millis(slot_duration_ms),
        ),
    )
}

/// The slot a timestamp falls in.
pub fn slot_at(timestamp_ms: u64, slot_duration_ms: u64) -> (r: u64)
    requires
        slot_duration_ms > 0,
    ensures
        r == timestamp_ms / slot_duration_ms,
{
    slot_from_timestamp(timestamp_ms, slot_duration_ms)
}

/// The pending block is authored in the slot right after the current one.
pub proof fn lemma_pending_slot_follows_current(now_ms: u64, slot_duration_ms: u64)
    requires
        slot_duration_ms > 0,
    ensures
        (now_ms as int + slot_duration_ms as int) / (slot_duration_ms as int) == (now_ms as int)
            / (slot_duration_ms as int) + 1,
{
    vstd::arithmetic::div_mod::lemma_div_plus_one(now_ms as int, slot_duration_ms as int);
}

/// Disabling backups always wins over a configured backup directory, and backups
/// are kept whenever they are not disabled.
pub proof fn lemma_backup_disabled_iff_none(
    no_backup: bool,
    configured: Option<String>,
    base_path: Seq<char>,
)
    ensures
        spec_backup_path(no_backup, configured, base_path) is None <==> no_backup,
{
}

/// A configured backup directory is used exactly as given, whatever the base
/// path, unless backups are switched off; without one, backups go to the
/// `backup-stash` folder joined onto the base path.
pub proof fn lemma_configured_backup_path_is_kept(
    configured: String,
    base_path: Seq<char>,
    other_base_path: Seq<char>,
)
    ensures
        spec_backup_path(false, Some(configured), base_path) == Some(configured@),
        spec_backup_path(false, Some(configured), base_path) == spec_backup_path(
            false,
            Some(configured),
            other_base_path,
        ),
        spec_backup_path(false, None, base_path) == Some(
            joined_path(base_path, "backup-stash"@),
        ),
{
}

/// The SQL backend lives in the `sql` directory joined onto the database
/// directory, and its URL is `frontier.db3` joined onto that directory joined
/// onto `sqlite:///`.
pub proof fn lemma_sql_url_names_database_file(db_config_dir: Seq<char>)
    ensures
        sql_db_path(db_config_dir) == joined_path(db_config_dir, "sql"@),
        sql_db_url(db_config_dir) == joined_path(
            joined_path("sqlite:///"@, joined_path(db_config_dir, "sql"@)),
            "frontier.db3"@,
        ),
{
}

/// The protocol prefix is a slash followed by the displayed genesis hash
/// itself (its first two and last two bytes as hexadecimal), then a slash and
/// the fork id where there is one; chains that differ in those bytes or in
/// their fork id get different prefixes.
pub proof fn lemma_chain_prefix_shows_genesis(
    genesis_hash: Seq<u8>,
    fork_id: Option<Seq<char>>,
)
    requires
        genesis_hash.len() == 32,
    ensures
        ({
            let prefix = spec_chain_prefix(genesis_hash, fork_id);
            &&& prefix[0] == '/'
            &&& prefix.subrange(1, 12) == hash_display(genesis_hash)
            &&& fork_id is None ==> prefix.len() == 12
            &&& fork_id matches Some(fork) ==> prefix.len() == 13 + fork.len() && prefix[12]
                == '/' && prefix.subrange(13, prefix.len() as int) == fork
        }),
{
    lemma_hash_display_shows_bytes(genesis_hash);
    let prefix = spec_chain_prefix(genesis_hash, fork_id);
    match fork_id {
        Some(fork) => {
            assert(prefix.subrange(1, 12) =~= hash_display(genesis_hash));
            assert(prefix.subrange(13, prefix.len() as int) =~= fork);
        },
        None => {
            assert(prefix.subrange(1, 12) =~= hash_display(genesis_hash));
        },
    }
}

} // verus!
