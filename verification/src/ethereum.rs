//! Configuration of the EVM chain relayers and the relayer interface.
use vstd::prelude::*;

verus! {

/// The EVM relayers of one configuration file.
#[derive(Debug)]
pub struct RelayerConfigs {
    pub scalar_relayer_evm: Vec<RelayerConfig>,
}

/// One EVM relayer; every field may be absent from the file.
#[derive(Debug)]
pub struct RelayerConfig {
    pub name: Option<String>,
    /// The address of the gateway contract watched on the chain.
    pub contract_addr: Option<String>,
    pub rpc_addr: Option<String>,
    pub ws_addr: Option<String>,
    pub start_with_bridge: Option<bool>,
}

/// A relayer of events from an external chain.
pub trait Relayer {}

} // verus!
