use vstd::prelude::*;

use crate::errors::SystemError;

verus! {

/// Battery limits of a storage node.
#[derive(Clone, Copy, Debug)]
pub struct BatteryConfig {
    pub capacity: u64,
    pub charge_threshold: u64,
    pub discharge_threshold: u64,
    pub max_charge_rate: u64,
    pub max_discharge_rate: u64,
    pub min_charge_rate: u64,
    pub min_discharge_rate: u64,
}

impl Default for BatteryConfig {
    fn default() -> (r: Self)
        ensures
            r.capacity == 100,
            r.charge_threshold == 10,
            r.discharge_threshold == 10,
            r.max_charge_rate == 10,
            r.max_discharge_rate == 10,
            r.min_charge_rate == 10,
            r.min_discharge_rate == 10,
    {
        BatteryConfig {
            capacity: 100,
            charge_threshold: 10,
            discharge_threshold: 10,
            max_charge_rate: 10,
            max_discharge_rate: 10,
            min_charge_rate: 10,
            min_discharge_rate: 10,
        }
    }
}

/// Retry limits of synchronisation.
#[derive(Clone, Copy, Debug)]
pub struct SyncConfig {
    pub max_attempts: u32,
    pub retry_timeout: u64,
    pub min_timeout: u64,
    pub max_timeout: u64,
}

impl Default for SyncConfig {
    fn default() -> (r: Self)
        ensures
            r.max_attempts == 3,
            r.retry_timeout == 1000,
            r.min_timeout == 1000,
            r.max_timeout == 1000,
    {
        SyncConfig { max_attempts: 3, retry_timeout: 1000, min_timeout: 1000, max_timeout: 1000 }
    }
}

/// Limits of message propagation.
#[derive(Clone, Copy, Debug)]
pub struct EpidemicProtocolConfig {
    pub max_propagations: u32,
    pub propagation_timeout: u64,
    pub max_retries: u32,
}

impl Default for EpidemicProtocolConfig {
    fn default() -> (r: Self)
        ensures
            r.max_propagations == 10,
            r.propagation_timeout == 30000,
            r.max_retries == 3,
    {
        EpidemicProtocolConfig { max_propagations: 10, propagation_timeout: 30000, max_retries: 3 }
    }
}

/// Size and staking limits of the network.
#[derive(Clone, Copy, Debug)]
pub struct NetworkConfig {
    pub max_peers: u32,
    pub max_nodes: u32,
    pub max_channels: u32,
    pub max_storage_nodes: u32,
    pub max_storage_nodes_per_channel: u32,
    pub min_stake: u64,
    pub min_storage_node_stake: u64,
    pub challenge_interval: u64,
    pub challenge_threshold: u64,
}

impl Default for NetworkConfig {
    fn default() -> (r: Self)
        ensures
            r.max_peers == 10,
            r.max_nodes == 100,
            r.max_channels == 10,
            r.max_storage_nodes == 100,
            r.max_storage_nodes_per_channel == 10,
            r.min_stake == 1000,
            r.min_storage_node_stake == 1000,
            r.challenge_interval == 60000,
            r.challenge_threshold == 1000,
    {
        NetworkConfig {
            max_peers: 10,
            max_nodes: 100,
            max_channels: 10,
            max_storage_nodes: 100,
            max_storage_nodes_per_channel: 10,
            min_stake: 1000,
            min_storage_node_stake: 1000,
            challenge_interval: 60000,
            challenge_threshold: 1000,
        }
    }
}

/// The configuration of a storage node. The whitelist holds each node id
/// once.
#[derive(Clone, Debug)]
pub struct StorageNodeConfig {
    pub battery_config: BatteryConfig,
    pub sync_config: SyncConfig,
    pub epidemic_protocol_config: EpidemicProtocolConfig,
    pub network_config: NetworkConfig,
    pub node_id: [u8; 32],
    pub fee: u64,
    pub whitelist: Vec<[u8; 32]>,
}

impl StorageNodeConfig {
    /// The configuration of node `node_id` charging `fee`, with the default
    /// limits and an empty whitelist.
    pub fn new(node_id: [u8; 32], fee: u64) -> (r: Result<Self, SystemError>)
        ensures
            r matches Ok(c) && {
                &&& c.node_id == node_id
                &&& c.fee == fee
                &&& c.whitelist@.len() == 0
                &&& c.battery_config.capacity == 100
                &&& c.sync_config.max_attempts == 3
                &&& c.epidemic_protocol_config.max_propagations == 10
                &&& c.network_config.max_peers == 10
            },
    {
        Ok(StorageNodeConfig {
            battery_config: BatteryConfig::default(),
            sync_config: SyncConfig::default(),
            epidemic_protocol_config: EpidemicProtocolConfig::default(),
            network_config: NetworkConfig::default(),
            node_id,
            fee,
            whitelist: Vec::new(),
        })
    }
}

} // verus!
