use vstd::prelude::*;

verus! {

/// The role that a node plays in the network.
#[derive(Clone, Copy, Debug, PartialEq, Eq, Structural)]
pub enum RoleType {
    Validator,
    FullNode,
}

/// A trusted checkpoint of the ledger: a version and the hash expected there.
#[derive(Clone, Copy, Debug, PartialEq, Eq)]
pub struct Waypoint {
    pub version: u64,
    pub hash: [u8; 32],
}

impl Waypoint {
    pub fn new(version: u64, hash: [u8; 32]) -> (r: Self)
        ensures
            r.version == version,
            r.hash == hash,
    {
        Waypoint { version, hash }
    }

    pub fn version(&self) -> (r: u64)
        ensures
            r == self.version,
    {
        self.version
    }

    /// True iff this waypoint is the genesis waypoint.
    pub open spec fn is_genesis(self) -> bool {
        self.version == 0
    }
}

/// The tunables of the driver.
#[derive(Clone, Copy, Debug, PartialEq, Eq, Structural)]
pub struct StateSyncDriverConfig {
    /// How often progress is checked, in milliseconds.
    pub progress_check_interval_ms: u64,
    /// How long a validator with a genesis waypoint waits for peers before it
    /// bootstraps on its own, in seconds.
    pub max_connection_deadline_secs: u64,
}

/// The configuration of the state sync driver.
#[derive(Clone, Copy, Debug, PartialEq, Eq)]
pub struct DriverConfiguration {
    pub config: StateSyncDriverConfig,
    pub role: RoleType,
    pub waypoint: Waypoint,
}

impl DriverConfiguration {
    pub fn new(config: StateSyncDriverConfig, role: RoleType, waypoint: Waypoint) -> (r: Self)
        ensures
            r.config == config,
            r.role == role,
            r.waypoint == waypoint,
    {
        DriverConfiguration { config, role, waypoint }
    }
}

} // verus!
