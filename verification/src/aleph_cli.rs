//! The validator options that the node's service reads.
use vstd::prelude::*;

verus! {

/// The Aleph-specific command-line options of a validator, as read by the
/// service.
#[derive(Debug, Clone, PartialEq, Eq)]
pub struct AlephCli {
    /// Directory for AlephBFT backups, where one was given.
    pub backup_path: Option<String>,
    /// Whether AlephBFT backups are switched off.
    pub no_backup: bool,
    /// How many non-finalized blocks block production tolerates.
    pub max_nonfinalized_blocks: u32,
    /// Addresses under which the validator is reachable.
    pub external_addresses: Vec<String>,
    /// Port of the validator network.
    pub validator_port: u16,
    /// Delay between AlephBFT unit creations, in milliseconds.
    pub unit_creation_delay: u64,
    /// Bit rate allowed per AlephBFT connection.
    pub alephbft_bit_rate_per_connection: u64,
    /// The option of that name; the service keeps a cache of validator
    /// addresses exactly when it is set.
    pub no_collection_of_extra_debugging_data: bool,
}

impl AlephCli {
    /// The configured backup directory.
    pub fn backup_path(&self) -> (r: Option<String>)
        ensures
            r == self.backup_path,
    {
        self.backup_path.clone()
    }

    /// Whether backups are switched off.
    pub fn no_backup(&self) -> (r: bool)
        ensures
            r == self.no_backup,
    {
        self.no_backup
    }

    /// The limit on non-finalized blocks.
    pub fn max_nonfinalized_blocks(&self) -> (r: u32)
        ensures
            r == self.max_nonfinalized_blocks,
    {
        self.max_nonfinalized_blocks
    }

    /// The bit rate per AlephBFT connection.
    pub fn alephbft_bit_rate_per_connection(&self) -> (r: u64)
        ensures
            r == self.alephbft_bit_rate_per_connection,
    {
        self.alephbft_bit_rate_per_connection
    }

    /// The option that decides whether validator addresses are cached.
    pub fn no_collection_of_extra_debugging_data(&self) -> (r: bool)
        ensures
            r == self.no_collection_of_extra_debugging_data,
    {
        self.no_collection_of_extra_debugging_data
    }
}

} // verus!
