//! The relayer program: its command line, its per-instance configuration
//! files and gRPC addresses, and which EVM chains it subscribes to.
use vstd::prelude::*;

use crate::text::{decimal, push_decimal};

verus! {

/// The namespace of the requests the relayer sends.
pub const NAMESPACE: &'static str = "scalar";

/// The relayer's command line.
#[derive(Debug)]
pub struct Args {
    /// The directory of the configuration files.
    pub config: String,
    /// The host of the gRPC server of the first instance.
    pub grpc_host: String,
    /// The port of the gRPC server of the first instance.
    pub grpc_port: u32,
    /// The number of relayer instances.
    pub instance: u32,
}

/// The EVM relayers of one configuration file.
#[derive(Debug)]
pub struct RelayerConfigs {
    pub scalar_relayer_evm: Vec<RelayerConfig>,
}

/// One EVM relayer; every field may be absent from the file.
#[derive(Debug)]
pub struct RelayerConfig {
    pub name: Option<String>,
    pub rpc_addr: Option<String>,
    pub ws_addr: Option<String>,
    pub start_with_bridge: Option<bool>,
}

/// The configuration file of instance `i`.
pub open spec fn instance_config_path(dir: Seq<char>, i: nat) -> Seq<char> {
    dir + "/evm_relayer"@ + decimal(i) + ".toml"@
}

/// The gRPC address at `host` and `port`.
pub open spec fn grpc_address(host: Seq<char>, port: nat) -> Seq<char> {
    host + ":"@ + decimal(port)
}

/// Where one relayer instance reads its configuration and sends its
/// requests.
#[derive(Debug)]
pub struct RelayerInstance {
    pub config_path: String,
    pub grpc_addr: String,
}

/// The relayer instances the command line asks for: instance `i` reads
/// `{config}/evm_relayer{i}.toml` and talks to `{grpc_host}:{grpc_port + i}`.
pub fn relayer_instances(args: &Args) -> (r: Vec<RelayerInstance>)
    requires
        args.grpc_port + args.instance <= u32::MAX + 1,
    ensures
        r@.len() == args.instance,
        forall|i: int|
            0 <= i < r@.len() ==> (#[trigger] r@[i]).config_path@ == instance_config_path(args.config@, i as nat)
                && r@[i].grpc_addr@ == grpc_address(args.grpc_host@, (args.grpc_port + i) as nat),
{
    let mut r: Vec<RelayerInstance> = Vec::new();
    let mut i: u32 = 0;
    while i < args.instance
        invariant
            i <= args.instance,
            args.grpc_port + args.instance <= u32::MAX + 1,
            r@.len() == i,
            forall|j: int|
                0 <= j < i ==> (#[trigger] r@[j]).config_path@ == instance_config_path(args.config@, j as nat)
                    && r@[j].grpc_addr@ == grpc_address(args.grpc_host@, (args.grpc_port + j) as nat),
        decreases args.instance - i,
    {
        let mut config_path = args.config.clone();
        config_path.append("/evm_relayer");
        push_decimal(&mut config_path, i as u64);
        config_path.append(".toml");
        let mut grpc_addr = args.grpc_host.clone();
        grpc_addr.append(":");
        push_decimal(&mut grpc_addr, (args.grpc_port + i) as u64);
        r.push(RelayerInstance { config_path, grpc_addr });
        i = i + 1;
    }
    r
}

/// The websocket endpoint a relayer subscribes to for new blocks: only one
/// whose configuration sets both the endpoint and `start_with_bridge` to
/// true.
pub open spec fn bridge_endpoint(config: RelayerConfig) -> Option<Seq<char>> {
    match (config.ws_addr, config.start_with_bridge) {
        (Some(url), Some(true)) => Some(url@),
        _ => None,
    }
}

impl RelayerConfig {
    /// The websocket endpoint to subscribe to, if this relayer is started
    /// with the bridge.
    pub fn bridge_endpoint(&self) -> (r: Option<&String>)
        ensures
            match r {
                Some(u) => bridge_endpoint(*self) == Some(u@),
                None => bridge_endpoint(*self) is None,
            },
    {
        match (&self.ws_addr, &self.start_with_bridge) {
            (Some(url), Some(start)) => {
                if *start {
                    Some(url)
                } else {
                    None
                }
            },
            _ => None,
        }
    }
}

} // verus!
