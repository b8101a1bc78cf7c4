use vstd::prelude::*;

use crate::types::Address;

verus! {

/// Addresses of the deployed bridge contracts.
#[derive(Clone, Copy, Debug)]
pub struct NetworkConfig {
    pub scroll_bridge_address: Address,
}

/// Node endpoints of the two chains.
#[derive(Debug)]
pub struct ProvidersConfig {
    pub primary_network_provider: String,
    pub world_id_network_provider: String,
}

/// The transaction signer.
#[derive(Clone, Copy, Debug)]
pub struct RelayerConfig {
    pub signer_address: Address,
}

/// Scanning and scheduling parameters.
#[derive(Clone, Copy, Debug)]
pub struct AppConfig {
    pub scanning_window_size: u64,
    pub scanning_chain_head_offset: u64,
    pub time_between_scans_secs: u64,
    pub sync_check_interval_secs: u64,
}

/// A configuration section that a component cannot start without.
#[derive(Clone, Copy, Debug, PartialEq, Eq, Structural)]
pub enum ConfigSection {
    Network,
    Providers,
    Relayer,
}

} // verus!
