//! The settings that the supervised services are started from.
//!
//! A service never reads live settings: it is handed a copy, and works on
//! that copy until the next one arrives.

use crate::modules::credentials::{is_repair_of, restore_credentials};
use crate::network::Network;
use crate::text::{is_blank, str_eq, trim};
use rand::Rng;
use vstd::prelude::*;
use vstd::string::StringExecFns;

verus! {

/// The revision of the settings layout. Settings of another revision are
/// replaced by the defaults.
pub const SETTINGS_REVISION: &'static str = "0.0.0";

// ---------------------------------------------------------------------------
// Node kinds
// ---------------------------------------------------------------------------

/// How the node is run.
#[derive(Clone, Copy, Debug, PartialEq, Eq, Structural)]
pub enum KaspadNodeKind {
    Disable,
    Remote,
    IntegratedInProc,
    IntegratedAsDaemon,
    IntegratedAsPassiveSync,
    ExternalAsDaemon,
}

impl Default for KaspadNodeKind {
    fn default() -> (r: Self)
        ensures
            r == KaspadNodeKind::IntegratedAsDaemon,
    {
        KaspadNodeKind::IntegratedAsDaemon
    }
}

impl KaspadNodeKind {
    /// All kinds, in the order in which they are offered.
    pub open spec fn all() -> Seq<KaspadNodeKind> {
        seq![
            KaspadNodeKind::Disable,
            KaspadNodeKind::Remote,
            KaspadNodeKind::IntegratedInProc,
            KaspadNodeKind::IntegratedAsDaemon,
            KaspadNodeKind::IntegratedAsPassiveSync,
            KaspadNodeKind::ExternalAsDaemon,
        ]
    }

    pub fn iter() -> (v: Vec<KaspadNodeKind>)
        ensures
            v@ == Self::all(),
    {
        let mut v: Vec<KaspadNodeKind> = Vec::new();
        v.push(KaspadNodeKind::Disable);
        v.push(KaspadNodeKind::Remote);
        v.push(KaspadNodeKind::IntegratedInProc);
        v.push(KaspadNodeKind::IntegratedAsDaemon);
        v.push(KaspadNodeKind::IntegratedAsPassiveSync);
        v.push(KaspadNodeKind::ExternalAsDaemon);
        assert(v@ =~= Self::all());
        v
    }

    /// What the kind means, in a sentence.
    pub open spec fn description(self) -> Seq<char> {
        match self {
            KaspadNodeKind::Disable => "Disables node connectivity (Offline Mode)."@,
            KaspadNodeKind::Remote => "Connects to a Remote Rusty Kaspa Node via wRPC."@,
            KaspadNodeKind::IntegratedInProc => "The node runs as a part of the Kaspa-NG application process. This reduces communication overhead (experimental)."@,
            KaspadNodeKind::IntegratedAsDaemon => "The node is spawned as a child daemon process (recommended)."@,
            KaspadNodeKind::IntegratedAsPassiveSync => "The node synchronizes in the background while Kaspa-NG is connected to a public node. Once the node is synchronized, you can switch to the 'Integrated Daemon' mode."@,
            KaspadNodeKind::ExternalAsDaemon => "A binary at another location is spawned a child process (experimental, for development purposes only)."@,
        }
    }

    pub fn describe(&self) -> (r: &'static str)
        ensures
            r@ == self.description(),
    {
        match self {
            KaspadNodeKind::Disable => "Disables node connectivity (Offline Mode).",
            KaspadNodeKind::Remote => "Connects to a Remote Rusty Kaspa Node via wRPC.",
            KaspadNodeKind::IntegratedInProc => "The node runs as a part of the Kaspa-NG application process. This reduces communication overhead (experimental).",
            KaspadNodeKind::IntegratedAsDaemon => "The node is spawned as a child daemon process (recommended).",
            KaspadNodeKind::IntegratedAsPassiveSync => "The node synchronizes in the background while Kaspa-NG is connected to a public node. Once the node is synchronized, you can switch to the 'Integrated Daemon' mode.",
            KaspadNodeKind::ExternalAsDaemon => "A binary at another location is spawned a child process (experimental, for development purposes only).",
        }
    }

    /// Whether the node runs on this machine.
    pub open spec fn local(self) -> bool {
        self != KaspadNodeKind::Disable && self != KaspadNodeKind::Remote
    }

    /// Whether the node takes its configuration from the settings.
    pub fn is_config_capable(&self) -> (b: bool)
        ensures
            b == self.local(),
    {
        match self {
            KaspadNodeKind::Disable => false,
            KaspadNodeKind::Remote => false,
            KaspadNodeKind::IntegratedInProc => true,
            KaspadNodeKind::IntegratedAsDaemon => true,
            KaspadNodeKind::IntegratedAsPassiveSync => true,
            KaspadNodeKind::ExternalAsDaemon => true,
        }
    }

    /// Whether the node runs on this machine.
    pub fn is_local(&self) -> (b: bool)
        ensures
            b == self.local(),
    {
        match self {
            KaspadNodeKind::Disable => false,
            KaspadNodeKind::Remote => false,
            KaspadNodeKind::IntegratedInProc => true,
            KaspadNodeKind::IntegratedAsDaemon => true,
            KaspadNodeKind::IntegratedAsPassiveSync => true,
            KaspadNodeKind::ExternalAsDaemon => true,
        }
    }
}

// ---------------------------------------------------------------------------
// RPC
// ---------------------------------------------------------------------------

/// Options for choosing an RPC server.
pub struct RpcOptions {
    pub blacklist_servers: Vec<String>,
}

impl RpcOptions {
    pub fn new() -> (r: Self)
        ensures
            r.blacklist_servers@ == Seq::<String>::empty(),
    {
        RpcOptions { blacklist_servers: Vec::new() }
    }

    /// The options with `server` added to the servers to avoid.
    pub fn blacklist(self, server: String) -> (r: Self)
        ensures
            r.blacklist_servers@ == self.blacklist_servers@.push(server),
    {
        let mut this = self;
        this.blacklist_servers.push(server);
        this
    }
}

impl Default for RpcOptions {
    fn default() -> (r: Self)
        ensures
            r.blacklist_servers@ == Seq::<String>::empty(),
    {
        RpcOptions::new()
    }
}

#[derive(Clone, Copy, Debug, PartialEq, Eq, Structural)]
pub enum RpcKind {
    Wrpc,
    Grpc,
}

impl Default for RpcKind {
    fn default() -> (r: Self)
        ensures
            r == RpcKind::Wrpc,
    {
        RpcKind::Wrpc
    }
}

/// The encoding spoken over wRPC.
#[derive(Clone, Copy, Debug, PartialEq, Eq, Structural)]
pub enum WrpcEncoding {
    Borsh,
    SerdeJson,
}

#[derive(Clone, Copy, Debug, PartialEq, Eq, Structural)]
pub enum NetworkInterfaceKind {
    Local,
    Any,
    Custom,
}

impl Default for NetworkInterfaceKind {
    fn default() -> (r: Self)
        ensures
            r == NetworkInterfaceKind::Local,
    {
        NetworkInterfaceKind::Local
    }
}

/// The interface a server of the node listens on. `custom` holds an
/// address, with or without a port, in its written form.
#[derive(Clone, Debug, PartialEq, Eq)]
pub struct NetworkInterfaceConfig {
    pub kind: NetworkInterfaceKind,
    pub custom: String,
}

impl NetworkInterfaceConfig {
    /// The address that the configuration stands for.
    pub open spec fn address(&self) -> Seq<char> {
        match self.kind {
            NetworkInterfaceKind::Local => "127.0.0.1"@,
            NetworkInterfaceKind::Any => "0.0.0.0"@,
            NetworkInterfaceKind::Custom => self.custom@,
        }
    }

    pub fn to_address(&self) -> (r: String)
        ensures
            r@ == self.address(),
    {
        match self.kind {
            NetworkInterfaceKind::Local => String::from_str("127.0.0.1"),
            NetworkInterfaceKind::Any => String::from_str("0.0.0.0"),
            NetworkInterfaceKind::Custom => self.custom.clone(),
        }
    }

    pub fn duplicate(&self) -> (r: Self)
        ensures
            r == *self,
    {
        NetworkInterfaceConfig { kind: self.kind, custom: self.custom.clone() }
    }

    /// Whether two configurations say the same.
    pub fn same(&self, other: &NetworkInterfaceConfig) -> (b: bool)
        ensures
            b == (self.kind == other.kind && self.custom@ == other.custom@),
    {
        self.kind == other.kind && str_eq(self.custom.as_str(), other.custom.as_str())
    }
}

impl NetworkInterfaceConfig {
    /// Whether these are the defaults: an interface of this machine only.
    pub open spec fn is_default(&self) -> bool {
        &&& self.kind == NetworkInterfaceKind::Local
        &&& self.custom@ == "127.0.0.1"@
    }
}

impl Default for NetworkInterfaceConfig {
    fn default() -> (r: Self)
        ensures
            r.is_default(),
    {
        NetworkInterfaceConfig {
            kind: NetworkInterfaceKind::Local,
            custom: String::from_str("127.0.0.1"),
        }
    }
}

#[derive(Clone, Copy, Debug, PartialEq, Eq, Structural)]
pub enum NodeConnectionConfigKind {
    PublicServerRandom,
    PublicServerCustom,
    Custom,
}

impl Default for NodeConnectionConfigKind {
    fn default() -> (r: Self)
        ensures
            r == NodeConnectionConfigKind::PublicServerRandom,
    {
        NodeConnectionConfigKind::PublicServerRandom
    }
}

impl NodeConnectionConfigKind {
    /// The kinds that are offered, in order.
    pub open spec fn offered() -> Seq<NodeConnectionConfigKind> {
        seq![NodeConnectionConfigKind::PublicServerRandom, NodeConnectionConfigKind::Custom]
    }

    pub fn iter() -> (v: Vec<NodeConnectionConfigKind>)
        ensures
            v@ == Self::offered(),
    {
        let mut v: Vec<NodeConnectionConfigKind> = Vec::new();
        v.push(NodeConnectionConfigKind::PublicServerRandom);
        v.push(NodeConnectionConfigKind::Custom);
        assert(v@ =~= Self::offered());
        v
    }

    pub fn is_public(&self) -> (b: bool)
        ensures
            b == (*self != NodeConnectionConfigKind::Custom),
    {
        match self {
            NodeConnectionConfigKind::PublicServerRandom => true,
            NodeConnectionConfigKind::PublicServerCustom => true,
            NodeConnectionConfigKind::Custom => false,
        }
    }

    /// The name shown for the kind.
    pub open spec fn label(self) -> Seq<char> {
        match self {
            NodeConnectionConfigKind::PublicServerRandom => "Random Public Node"@,
            NodeConnectionConfigKind::PublicServerCustom => "Custom Public Node"@,
            NodeConnectionConfigKind::Custom => "Custom"@,
        }
    }

    pub fn as_str(&self) -> (r: &'static str)
        ensures
            r@ == self.label(),
    {
        match self {
            NodeConnectionConfigKind::PublicServerRandom => "Random Public Node",
            NodeConnectionConfigKind::PublicServerCustom => "Custom Public Node",
            NodeConnectionConfigKind::Custom => "Custom",
        }
    }
}

// ---------------------------------------------------------------------------
// Memory
// ---------------------------------------------------------------------------

pub const GIGABYTE: u64 = 1073741824;

#[derive(Clone, Copy, Debug, PartialEq, Eq, Structural)]
pub enum NodeMemoryScale {
    Default,
    Conservative,
    Performance,
}

impl Default for NodeMemoryScale {
    fn default() -> (r: Self)
        ensures
            r == NodeMemoryScale::Default,
    {
        NodeMemoryScale::Default
    }
}

/// The memory class, in gigabytes, that a machine with `total` bytes of
/// memory falls in. Machines beyond 128 gigabytes count as 16.
pub open spec fn memory_class(total: u64) -> u64 {
    if total <= 8 * GIGABYTE {
        8
    } else if total <= 16 * GIGABYTE {
        16
    } else if total <= 32 * GIGABYTE {
        32
    } else if total <= 64 * GIGABYTE {
        64
    } else if total <= 96 * GIGABYTE {
        96
    } else if total <= 128 * GIGABYTE {
        128
    } else {
        16
    }
}

/// Ten times the factor by which the node's memory use is scaled.
pub open spec fn scale_tenths(scale: NodeMemoryScale, class: u64) -> u64 {
    match scale {
        NodeMemoryScale::Default => 10,
        NodeMemoryScale::Conservative => if class == 8 {
            3
        } else if class == 16 {
            10
        } else if class == 32 {
            15
        } else if class == 64 {
            20
        } else if class == 96 {
            30
        } else if class == 128 {
            40
        } else {
            10
        },
        NodeMemoryScale::Performance => if class == 8 {
            4
        } else if class == 16 {
            10
        } else if class == 32 {
            20
        } else if class == 64 {
            40
        } else if class == 96 {
            60
        } else if class == 128 {
            80
        } else {
            10
        },
    }
}

impl NodeMemoryScale {
    pub open spec fn all() -> Seq<NodeMemoryScale> {
        seq![NodeMemoryScale::Default, NodeMemoryScale::Conservative, NodeMemoryScale::Performance]
    }

    pub fn iter() -> (v: Vec<NodeMemoryScale>)
        ensures
            v@ == Self::all(),
    {
        let mut v: Vec<NodeMemoryScale> = Vec::new();
        v.push(NodeMemoryScale::Default);
        v.push(NodeMemoryScale::Conservative);
        v.push(NodeMemoryScale::Performance);
        assert(v@ =~= Self::all());
        v
    }

    pub open spec fn description(self) -> Seq<char> {
        match self {
            NodeMemoryScale::Default => "Managed by the Rusty Kaspa daemon"@,
            NodeMemoryScale::Conservative => "Use 50%-75% of available system memory"@,
            NodeMemoryScale::Performance => "Use all available system memory"@,
        }
    }

    pub fn describe(&self) -> (r: &'static str)
        ensures
            r@ == self.description(),
    {
        match self {
            NodeMemoryScale::Default => "Managed by the Rusty Kaspa daemon",
            NodeMemoryScale::Conservative => "Use 50%-75% of available system memory",
            NodeMemoryScale::Performance => "Use all available system memory",
        }
    }

    /// Ten times the scaling factor for a machine with `total_memory`
    /// bytes of memory.
    pub fn tenths(&self, total_memory: u64) -> (r: u64)
        ensures
            r == scale_tenths(*self, memory_class(total_memory)),
    {
        let class: u64 = if total_memory <= 8 * GIGABYTE {
            8
        } else if total_memory <= 16 * GIGABYTE {
            16
        } else if total_memory <= 32 * GIGABYTE {
            32
        } else if total_memory <= 64 * GIGABYTE {
            64
        } else if total_memory <= 96 * GIGABYTE {
            96
        } else if total_memory <= 128 * GIGABYTE {
            128
        } else {
            16
        };
        match self {
            NodeMemoryScale::Default => 10,
            NodeMemoryScale::Conservative => if class == 8 {
                3
            } else if class == 16 {
                10
            } else if class == 32 {
                15
            } else if class == 64 {
                20
            } else if class == 96 {
                30
            } else {
                40
            },
            NodeMemoryScale::Performance => if class == 8 {
                4
            } else if class == 16 {
                10
            } else if class == 32 {
                20
            } else if class == 64 {
                40
            } else if class == 96 {
                60
            } else {
                80
            },
        }
    }
}

// ---------------------------------------------------------------------------
// Services of the node
// ---------------------------------------------------------------------------

#[derive(Clone, Debug, PartialEq, Eq)]
pub struct StratumBridgeSettings {
    pub stratum_port: String,
    pub min_share_diff: u32,
    pub var_diff: bool,
    pub shares_per_min: u32,
    pub var_diff_stats: bool,
    pub pow2_clamp: bool,
    pub block_wait_time_ms: u64,
    pub print_stats: bool,
    pub log_to_file: bool,
    pub health_check_port: String,
    pub extranonce_size: u8,
    pub coinbase_tag_suffix: String,
}

impl StratumBridgeSettings {
    pub fn duplicate(&self) -> (r: Self)
        ensures
            r == *self,
    {
        StratumBridgeSettings {
            stratum_port: self.stratum_port.clone(),
            min_share_diff: self.min_share_diff,
            var_diff: self.var_diff,
            shares_per_min: self.shares_per_min,
            var_diff_stats: self.var_diff_stats,
            pow2_clamp: self.pow2_clamp,
            block_wait_time_ms: self.block_wait_time_ms,
            print_stats: self.print_stats,
            log_to_file: self.log_to_file,
            health_check_port: self.health_check_port.clone(),
            extranonce_size: self.extranonce_size,
            coinbase_tag_suffix: self.coinbase_tag_suffix.clone(),
        }
    }
}

impl StratumBridgeSettings {
    /// Whether these are the defaults: the bridge as a fresh installation
    /// sets it up.
    pub open spec fn is_default(&self) -> bool {
        &&& self.stratum_port@ == ":5555"@
        &&& self.min_share_diff == 2048
        &&& self.var_diff
        &&& self.shares_per_min == 20
        &&& self.var_diff_stats
        &&& self.pow2_clamp
        &&& self.block_wait_time_ms == 1000
        &&& self.print_stats
        &&& !self.log_to_file
        &&& self.health_check_port@ == Seq::<char>::empty()
        &&& self.extranonce_size == 2
        &&& self.coinbase_tag_suffix@ == "KaspaNG"@
    }
}

impl Default for StratumBridgeSettings {
    fn default() -> (r: Self)
        ensures
            r.is_default(),
    {
        StratumBridgeSettings {
            stratum_port: String::from_str(":5555"),
            min_share_diff: 2048,
            var_diff: true,
            shares_per_min: 20,
            var_diff_stats: true,
            pow2_clamp: true,
            block_wait_time_ms: 1000,
            print_stats: true,
            log_to_file: false,
            health_check_port: String::new(),
            extranonce_size: 2,
            coinbase_tag_suffix: String::from_str("KaspaNG"),
        }
    }
}

#[derive(Clone, Debug, PartialEq, Eq)]
pub struct CpuMinerSettings {
    pub mining_address: String,
    pub kaspad_address: String,
    pub kaspad_port: u16,
    pub threads: u16,
    pub mine_when_not_synced: bool,
}

impl CpuMinerSettings {
    pub fn duplicate(&self) -> (r: Self)
        ensures
            r == *self,
    {
        CpuMinerSettings {
            mining_address: self.mining_address.clone(),
            kaspad_address: self.kaspad_address.clone(),
            kaspad_port: self.kaspad_port,
            threads: self.threads,
            mine_when_not_synced: self.mine_when_not_synced,
        }
    }
}

impl CpuMinerSettings {
    /// Whether these are the defaults: the miner as a fresh installation sets
    /// it up.
    pub open spec fn is_default(&self) -> bool {
        &&& self.mining_address@ == Seq::<char>::empty()
        &&& self.kaspad_address@ == "127.0.0.1"@
        &&& self.kaspad_port == 16210
        &&& self.threads == 1
        &&& !self.mine_when_not_synced
    }
}

impl Default for CpuMinerSettings {
    fn default() -> (r: Self)
        ensures
            r.is_default(),
    {
        CpuMinerSettings {
            mining_address: String::new(),
            kaspad_address: String::from_str("127.0.0.1"),
            kaspad_port: 16210,
            threads: 1,
            mine_when_not_synced: false,
        }
    }
}

#[derive(Clone, Debug, PartialEq, Eq)]
pub struct RothschildSettings {
    pub mnemonic: String,
    pub private_key: String,
    pub address: String,
    pub tps: u64,
    pub rpc_server: String,
    pub threads: u8,
}

impl RothschildSettings {
    pub fn duplicate(&self) -> (r: Self)
        ensures
            r == *self,
    {
        RothschildSettings {
            mnemonic: self.mnemonic.clone(),
            private_key: self.private_key.clone(),
            address: self.address.clone(),
            tps: self.tps,
            rpc_server: self.rpc_server.clone(),
            threads: self.threads,
        }
    }
}

impl RothschildSettings {
    /// Whether these are the defaults: the transaction generator as a fresh
    /// installation sets it up, without credentials.
    pub open spec fn is_default(&self) -> bool {
        &&& self.mnemonic@ == Seq::<char>::empty()
        &&& self.private_key@ == Seq::<char>::empty()
        &&& self.address@ == Seq::<char>::empty()
        &&& self.tps == 1
        &&& self.rpc_server@ == "localhost:16210"@
        &&& self.threads == 1
    }
}

impl Default for RothschildSettings {
    fn default() -> (r: Self)
        ensures
            r.is_default(),
    {
        RothschildSettings {
            mnemonic: String::new(),
            private_key: String::new(),
            address: String::new(),
            tps: 1,
            rpc_server: String::from_str("localhost:16210"),
            threads: 1,
        }
    }
}

/// Whether the stratum bridge is switched on where the settings do not say.
pub fn default_stratum_bridge_enabled() -> (b: bool)
    ensures
        b,
{
    true
}

#[derive(Clone, Debug, PartialEq, Eq)]
pub struct NodeSettings {
    pub connection_config_kind: NodeConnectionConfigKind,
    pub rpc_kind: RpcKind,
    pub wrpc_url: String,
    pub enable_wrpc_borsh: bool,
    pub wrpc_borsh_network_interface: NetworkInterfaceConfig,
    pub wrpc_encoding: WrpcEncoding,
    pub enable_wrpc_json: bool,
    pub wrpc_json_network_interface: NetworkInterfaceConfig,
    pub enable_grpc: bool,
    pub grpc_network_interface: NetworkInterfaceConfig,
    pub enable_upnp: bool,
    pub memory_scale: NodeMemoryScale,
    pub network: Network,
    pub node_kind: KaspadNodeKind,
    pub kaspad_daemon_binary: String,
    pub kaspad_daemon_args: String,
    pub kaspad_daemon_args_enable: bool,
    pub kaspad_daemon_storage_folder_enable: bool,
    pub kaspad_daemon_storage_folder: String,
    pub stratum_bridge: StratumBridgeSettings,
    pub stratum_bridge_enabled: bool,
    pub cpu_miner: CpuMinerSettings,
    pub cpu_miner_enabled: bool,
    pub rothschild: RothschildSettings,
    pub rothschild_enabled: bool,
}

/// Whether the node has to be restarted to go from `a` to `b`: `None`
/// where nothing that concerns the node differs.
pub open spec fn node_change(a: NodeSettings, b: NodeSettings) -> Option<bool> {
    if a.network != b.network {
        Some(true)
    } else if a.node_kind != b.node_kind {
        Some(true)
    } else if a.memory_scale != b.memory_scale {
        Some(true)
    } else if a.connection_config_kind != b.connection_config_kind {
        Some(true)
    } else if a.kaspad_daemon_storage_folder_enable != b.kaspad_daemon_storage_folder_enable || (
    b.kaspad_daemon_storage_folder_enable && a.kaspad_daemon_storage_folder@
        != b.kaspad_daemon_storage_folder@) {
        Some(true)
    } else if a.enable_grpc != b.enable_grpc || a.grpc_network_interface.kind
        != b.grpc_network_interface.kind || a.grpc_network_interface.custom@
        != b.grpc_network_interface.custom@ || a.wrpc_url@ != b.wrpc_url@ || a.wrpc_encoding
        != b.wrpc_encoding || a.enable_wrpc_json != b.enable_wrpc_json
        || a.wrpc_json_network_interface.kind != b.wrpc_json_network_interface.kind
        || a.wrpc_json_network_interface.custom@ != b.wrpc_json_network_interface.custom@
        || a.enable_upnp != b.enable_upnp {
        Some(a.node_kind != KaspadNodeKind::IntegratedInProc)
    } else if a.kaspad_daemon_args@ != b.kaspad_daemon_args@ || a.kaspad_daemon_args_enable
        != b.kaspad_daemon_args_enable {
        Some(a.node_kind.local())
    } else if a.kaspad_daemon_binary@ != b.kaspad_daemon_binary@ {
        Some(a.node_kind == KaspadNodeKind::ExternalAsDaemon)
    } else {
        None
    }
}

impl NodeSettings {
    pub fn duplicate(&self) -> (r: Self)
        ensures
            r == *self,
    {
        NodeSettings {
            connection_config_kind: self.connection_config_kind,
            rpc_kind: self.rpc_kind,
            wrpc_url: self.wrpc_url.clone(),
            enable_wrpc_borsh: self.enable_wrpc_borsh,
            wrpc_borsh_network_interface: self.wrpc_borsh_network_interface.duplicate(),
            wrpc_encoding: self.wrpc_encoding,
            enable_wrpc_json: self.enable_wrpc_json,
            wrpc_json_network_interface: self.wrpc_json_network_interface.duplicate(),
            enable_grpc: self.enable_grpc,
            grpc_network_interface: self.grpc_network_interface.duplicate(),
            enable_upnp: self.enable_upnp,
            memory_scale: self.memory_scale,
            network: self.network,
            node_kind: self.node_kind,
            kaspad_daemon_binary: self.kaspad_daemon_binary.clone(),
            kaspad_daemon_args: self.kaspad_daemon_args.clone(),
            kaspad_daemon_args_enable: self.kaspad_daemon_args_enable,
            kaspad_daemon_storage_folder_enable: self.kaspad_daemon_storage_folder_enable,
            kaspad_daemon_storage_folder: self.kaspad_daemon_storage_folder.clone(),
            stratum_bridge: self.stratum_bridge.duplicate(),
            stratum_bridge_enabled: self.stratum_bridge_enabled,
            cpu_miner: self.cpu_miner.duplicate(),
            cpu_miner_enabled: self.cpu_miner_enabled,
            rothschild: self.rothschild.duplicate(),
            rothschild_enabled: self.rothschild_enabled,
        }
    }

    /// Whether the node has to be restarted to go from these settings to
    /// `other`: `None` where nothing that concerns the node differs.
    pub fn compare(&self, other: &NodeSettings) -> (r: Option<bool>)
        ensures
            r == node_change(*self, *other),
    {
        if self.network != other.network {
            Some(true)
        } else if self.node_kind != other.node_kind {
            Some(true)
        } else if self.memory_scale != other.memory_scale {
            Some(true)
        } else if self.connection_config_kind != other.connection_config_kind {
            Some(true)
        } else if self.kaspad_daemon_storage_folder_enable
            != other.kaspad_daemon_storage_folder_enable || (
        other.kaspad_daemon_storage_folder_enable && !str_eq(
            self.kaspad_daemon_storage_folder.as_str(),
            other.kaspad_daemon_storage_folder.as_str(),
        )) {
            Some(true)
        } else if self.enable_grpc != other.enable_grpc || !self.grpc_network_interface.same(
            &other.grpc_network_interface,
        ) || !str_eq(self.wrpc_url.as_str(), other.wrpc_url.as_str()) || self.wrpc_encoding
            != other.wrpc_encoding || self.enable_wrpc_json != other.enable_wrpc_json
            || !self.wrpc_json_network_interface.same(&other.wrpc_json_network_interface)
            || self.enable_upnp != other.enable_upnp {
            Some(self.node_kind != KaspadNodeKind::IntegratedInProc)
        } else if !str_eq(self.kaspad_daemon_args.as_str(), other.kaspad_daemon_args.as_str())
            || self.kaspad_daemon_args_enable != other.kaspad_daemon_args_enable {
            Some(self.node_kind.is_config_capable())
        } else if !str_eq(self.kaspad_daemon_binary.as_str(), other.kaspad_daemon_binary.as_str()) {
            Some(self.node_kind == KaspadNodeKind::ExternalAsDaemon)
        } else {
            None
        }
    }
}

impl NodeSettings {
    /// Whether these are the defaults: the node as a fresh installation sets
    /// it up.
    pub open spec fn is_default(&self) -> bool {
        &&& self.connection_config_kind == NodeConnectionConfigKind::PublicServerRandom
        &&& self.rpc_kind == RpcKind::Wrpc
        &&& self.wrpc_url@ == "127.0.0.1"@
        &&& self.wrpc_encoding == WrpcEncoding::Borsh
        &&& self.enable_wrpc_borsh
        &&& self.wrpc_borsh_network_interface.is_default()
        &&& !self.enable_wrpc_json
        &&& self.wrpc_json_network_interface.is_default()
        &&& self.enable_grpc
        &&& self.grpc_network_interface.kind == NetworkInterfaceKind::Any
        &&& self.grpc_network_interface.custom@ == "127.0.0.1"@
        &&& self.enable_upnp
        &&& self.memory_scale == NodeMemoryScale::Default
        &&& self.network == Network::Mainnet
        &&& self.node_kind == KaspadNodeKind::IntegratedAsDaemon
        &&& self.kaspad_daemon_binary@ == Seq::<char>::empty()
        &&& self.kaspad_daemon_args@ == Seq::<char>::empty()
        &&& !self.kaspad_daemon_args_enable
        &&& !self.kaspad_daemon_storage_folder_enable
        &&& self.kaspad_daemon_storage_folder@ == Seq::<char>::empty()
        &&& self.stratum_bridge_enabled
        &&& !self.cpu_miner_enabled
        &&& !self.rothschild_enabled
        &&& self.stratum_bridge.is_default()
        &&& self.cpu_miner.is_default()
        &&& self.rothschild.is_default()
    }
}

impl Default for NodeSettings {
    fn default() -> (r: Self)
        ensures
            r.is_default(),
    {
        NodeSettings {
            connection_config_kind: NodeConnectionConfigKind::default(),
            rpc_kind: RpcKind::Wrpc,
            wrpc_url: String::from_str("127.0.0.1"),
            wrpc_encoding: WrpcEncoding::Borsh,
            enable_wrpc_borsh: true,
            wrpc_borsh_network_interface: NetworkInterfaceConfig::default(),
            enable_wrpc_json: false,
            wrpc_json_network_interface: NetworkInterfaceConfig::default(),
            enable_grpc: true,
            grpc_network_interface: NetworkInterfaceConfig {
                kind: NetworkInterfaceKind::Any,
                custom: String::from_str("127.0.0.1"),
            },
            enable_upnp: true,
            memory_scale: NodeMemoryScale::default(),
            network: Network::default(),
            node_kind: KaspadNodeKind::default(),
            kaspad_daemon_binary: String::new(),
            kaspad_daemon_args: String::new(),
            kaspad_daemon_args_enable: false,
            kaspad_daemon_storage_folder_enable: false,
            kaspad_daemon_storage_folder: String::new(),
            stratum_bridge: StratumBridgeSettings::default(),
            stratum_bridge_enabled: default_stratum_bridge_enabled(),
            cpu_miner: CpuMinerSettings::default(),
            cpu_miner_enabled: false,
            rothschild: RothschildSettings::default(),
            rothschild_enabled: false,
        }
    }
}

/// How the node is reached.
#[allow(inconsistent_fields)]
#[derive(Clone, Debug, PartialEq, Eq)]
pub enum RpcConfig {
    Wrpc { url: Option<String>, encoding: WrpcEncoding, resolver_urls: Option<Vec<String>> },
    Grpc { url: Option<NetworkInterfaceConfig> },
}

impl RpcConfig {
    /// The connection that the node settings ask for: the own URL or
    /// interface where the connection is custom, a public server otherwise.
    pub fn from_node_settings(settings: &NodeSettings, _options: Option<RpcOptions>) -> (r: Self)
        ensures
            match settings.connection_config_kind {
                NodeConnectionConfigKind::Custom => match settings.rpc_kind {
                    RpcKind::Wrpc => r == (RpcConfig::Wrpc {
                        url: Some(settings.wrpc_url),
                        encoding: settings.wrpc_encoding,
                        resolver_urls: None,
                    }),
                    RpcKind::Grpc => r == (RpcConfig::Grpc {
                        url: Some(settings.grpc_network_interface),
                    }),
                },
                _ => r == (RpcConfig::Wrpc {
                    url: None,
                    encoding: settings.wrpc_encoding,
                    resolver_urls: None,
                }),
            },
    {
        match settings.connection_config_kind {
            NodeConnectionConfigKind::Custom => match settings.rpc_kind {
                RpcKind::Wrpc => RpcConfig::Wrpc {
                    url: Some(settings.wrpc_url.clone()),
                    encoding: settings.wrpc_encoding,
                    resolver_urls: None,
                },
                RpcKind::Grpc => RpcConfig::Grpc {
                    url: Some(settings.grpc_network_interface.duplicate()),
                },
            },
            NodeConnectionConfigKind::PublicServerCustom
            | NodeConnectionConfigKind::PublicServerRandom => RpcConfig::Wrpc {
                url: None,
                encoding: settings.wrpc_encoding,
                resolver_urls: None,
            },
        }
    }
}

impl Default for RpcConfig {
    fn default() -> (r: Self)
        ensures
            r matches RpcConfig::Wrpc { url: Some(u), encoding, resolver_urls: None } && u@
                == "127.0.0.1"@ && encoding == WrpcEncoding::Borsh,
    {
        RpcConfig::Wrpc {
            url: Some(String::from_str("127.0.0.1")),
            encoding: WrpcEncoding::Borsh,
            resolver_urls: None,
        }
    }
}

// ---------------------------------------------------------------------------
// Explorer
// ---------------------------------------------------------------------------

#[derive(Clone, Copy, Debug, PartialEq, Eq, Structural)]
pub enum ExplorerDataSource {
    Official,
    SelfHosted,
}

impl Default for ExplorerDataSource {
    fn default() -> (r: Self)
        ensures
            r == ExplorerDataSource::Official,
    {
        ExplorerDataSource::Official
    }
}

#[derive(Clone, Debug, PartialEq, Eq)]
pub struct ExplorerEndpoint {
    pub api_base: String,
    pub socket_url: String,
    pub socket_path: String,
}

impl ExplorerEndpoint {
    /// Whether the endpoint is made of the given three texts.
    pub open spec fn is(&self, api_base: Seq<char>, socket_url: Seq<char>, socket_path: Seq<char>) -> bool {
        self.api_base@ == api_base && self.socket_url@ == socket_url && self.socket_path@
            == socket_path
    }

    pub fn new(api_base: &str, socket_url: &str, socket_path: &str) -> (r: Self)
        ensures
            r.is(api_base@, socket_url@, socket_path@),
    {
        ExplorerEndpoint {
            api_base: String::from_str(api_base),
            socket_url: String::from_str(socket_url),
            socket_path: String::from_str(socket_path),
        }
    }
}

#[derive(Clone, Debug, PartialEq, Eq)]
pub struct ExplorerNetworkProfiles {
    pub mainnet: ExplorerEndpoint,
    pub testnet10: ExplorerEndpoint,
    pub testnet12: ExplorerEndpoint,
}

impl ExplorerNetworkProfiles {
    pub open spec fn of(&self, network: Network) -> ExplorerEndpoint {
        match network {
            Network::Mainnet => self.mainnet,
            Network::Testnet10 => self.testnet10,
            Network::Testnet12 => self.testnet12,
        }
    }

    /// The endpoint for the given network.
    pub fn for_network(&self, network: Network) -> (r: &ExplorerEndpoint)
        ensures
            *r == self.of(network),
    {
        match network {
            Network::Mainnet => &self.mainnet,
            Network::Testnet10 => &self.testnet10,
            Network::Testnet12 => &self.testnet12,
        }
    }

    /// The endpoints of a self-hosted explorer on this machine.
    pub open spec fn is_local(&self) -> bool {
        forall|n: Network|
            (#[trigger] self.of(n)).is(
                "http://127.0.0.1:19112"@,
                "http://127.0.0.1:19113"@,
                "/ws/socket.io"@,
            )
    }

    pub fn local() -> (r: Self)
        ensures
            r.is_local(),
    {
        ExplorerNetworkProfiles {
            mainnet: ExplorerEndpoint::new(
                "http://127.0.0.1:19112",
                "http://127.0.0.1:19113",
                "/ws/socket.io",
            ),
            testnet10: ExplorerEndpoint::new(
                "http://127.0.0.1:19112",
                "http://127.0.0.1:19113",
                "/ws/socket.io",
            ),
            testnet12: ExplorerEndpoint::new(
                "http://127.0.0.1:19112",
                "http://127.0.0.1:19113",
                "/ws/socket.io",
            ),
        }
    }
}

impl ExplorerNetworkProfiles {
    /// Whether these are the defaults: the public endpoints of the explorer.
    pub open spec fn is_default(&self) -> bool {
        &&& self.mainnet.is("https://api.kaspa.org"@, "wss://t2-3.kaspa.ws"@, "/ws/socket.io"@)
        &&& self.testnet10.is("https://api-tn10.kaspa.org"@, "wss://t-2.kaspa.ws"@, "/ws/socket.io"@)
        &&& self.testnet12.is("https://api-tn12.kaspa.org"@, "wss://t2-3.kaspa.ws"@, "/ws/socket.io"@)
    }
}

impl Default for ExplorerNetworkProfiles {
    fn default() -> (r: Self)
        ensures
            r.is_default(),
    {
        ExplorerNetworkProfiles {
            mainnet: ExplorerEndpoint::new(
                "https://api.kaspa.org",
                "wss://t2-3.kaspa.ws",
                "/ws/socket.io",
            ),
            testnet10: ExplorerEndpoint::new(
                "https://api-tn10.kaspa.org",
                "wss://t-2.kaspa.ws",
                "/ws/socket.io",
            ),
            testnet12: ExplorerEndpoint::new(
                "https://api-tn12.kaspa.org",
                "wss://t2-3.kaspa.ws",
                "/ws/socket.io",
            ),
        }
    }
}

#[derive(Clone, Debug, PartialEq, Eq)]
pub struct ExplorerSettings {
    pub source: ExplorerDataSource,
    pub official: ExplorerNetworkProfiles,
    pub self_hosted: ExplorerNetworkProfiles,
}

impl ExplorerSettings {
    /// The endpoint in use for the given network.
    pub fn endpoint(&self, network: Network) -> (r: &ExplorerEndpoint)
        ensures
            *r == match self.source {
                ExplorerDataSource::Official => self.official.of(network),
                ExplorerDataSource::SelfHosted => self.self_hosted.of(network),
            },
    {
        match self.source {
            ExplorerDataSource::Official => self.official.for_network(network),
            ExplorerDataSource::SelfHosted => self.self_hosted.for_network(network),
        }
    }
}

impl ExplorerSettings {
    /// Whether these are the defaults: the explorer as a fresh installation
    /// sets it up.
    pub open spec fn is_default(&self) -> bool {
        &&& self.source == ExplorerDataSource::Official
        &&& self.official.is_default()
        &&& self.self_hosted.is_local()
    }
}

impl Default for ExplorerSettings {
    fn default() -> (r: Self)
        ensures
            r.is_default(),
    {
        ExplorerSettings {
            source: ExplorerDataSource::Official,
            official: ExplorerNetworkProfiles::default(),
            self_hosted: ExplorerNetworkProfiles::local(),
        }
    }
}

// ---------------------------------------------------------------------------
// Self-hosted services
// ---------------------------------------------------------------------------

pub fn default_explorer_rest_port() -> (p: u16)
    ensures
        p == 19112,
{
    19112
}

pub fn default_explorer_socket_port() -> (p: u16)
    ensures
        p == 19113,
{
    19113
}

#[derive(Clone, Debug, PartialEq, Eq)]
pub struct SelfHostedSettings {
    pub enabled: bool,
    pub api_bind: String,
    pub api_port: u16,
    pub explorer_rest_port: u16,
    pub explorer_socket_port: u16,
    pub db_host: String,
    pub db_port: u16,
    pub db_user: String,
    pub db_password: String,
    pub db_name: String,
    pub indexer_enabled: bool,
    pub indexer_binary: String,
    pub indexer_rpc_url: String,
    pub indexer_listen: String,
    pub indexer_extra_args: String,
    pub indexer_upgrade_db: bool,
    pub postgres_enabled: bool,
    pub postgres_data_dir: String,
    pub k_enabled: bool,
    pub k_web_port: u16,
}

impl SelfHostedSettings {
    pub fn duplicate(&self) -> (r: Self)
        ensures
            r == *self,
    {
        SelfHostedSettings {
            enabled: self.enabled,
            api_bind: self.api_bind.clone(),
            api_port: self.api_port,
            explorer_rest_port: self.explorer_rest_port,
            explorer_socket_port: self.explorer_socket_port,
            db_host: self.db_host.clone(),
            db_port: self.db_port,
            db_user: self.db_user.clone(),
            db_password: self.db_password.clone(),
            db_name: self.db_name.clone(),
            indexer_enabled: self.indexer_enabled,
            indexer_binary: self.indexer_binary.clone(),
            indexer_rpc_url: self.indexer_rpc_url.clone(),
            indexer_listen: self.indexer_listen.clone(),
            indexer_extra_args: self.indexer_extra_args.clone(),
            indexer_upgrade_db: self.indexer_upgrade_db,
            postgres_enabled: self.postgres_enabled,
            postgres_data_dir: self.postgres_data_dir.clone(),
            k_enabled: self.k_enabled,
            k_web_port: self.k_web_port,
        }
    }
}

impl SelfHostedSettings {
    /// Whether these are the defaults: the self-hosted services as a fresh
    /// installation sets them up.
    pub open spec fn is_default(&self) -> bool {
        &&& !self.enabled
        &&& self.api_bind@ == "127.0.0.1"@
        &&& self.api_port == 19111
        &&& self.explorer_rest_port == 19112
        &&& self.explorer_socket_port == 19113
        &&& self.db_host@ == "127.0.0.1"@
        &&& self.db_port == 5432
        &&& self.db_user@ == "kaspa"@
        &&& self.db_password@ == Seq::<char>::empty()
        &&& self.db_name@ == "kaspa"@
        &&& self.indexer_enabled
        &&& self.indexer_binary@ == Seq::<char>::empty()
        &&& self.indexer_rpc_url@ == "ws://127.0.0.1:17110"@
        &&& self.indexer_listen@ == "127.0.0.1:8500"@
        &&& self.indexer_extra_args@
            == "--prune-db --retention=7d --enable=transactions_inputs_resolve"@
        &&& self.indexer_upgrade_db
        &&& self.postgres_enabled
        &&& self.postgres_data_dir@ == Seq::<char>::empty()
        &&& !self.k_enabled
        &&& self.k_web_port == 3000
    }
}

impl Default for SelfHostedSettings {
    fn default() -> (r: Self)
        ensures
            r.is_default(),
    {
        SelfHostedSettings {
            enabled: false,
            api_bind: String::from_str("127.0.0.1"),
            api_port: 19111,
            explorer_rest_port: default_explorer_rest_port(),
            explorer_socket_port: default_explorer_socket_port(),
            db_host: String::from_str("127.0.0.1"),
            db_port: 5432,
            db_user: String::from_str("kaspa"),
            db_password: String::new(),
            db_name: String::from_str("kaspa"),
            indexer_enabled: true,
            indexer_binary: String::new(),
            indexer_rpc_url: String::from_str("ws://127.0.0.1:17110"),
            indexer_listen: String::from_str("127.0.0.1:8500"),
            indexer_extra_args: String::from_str(
                "--prune-db --retention=7d --enable=transactions_inputs_resolve",
            ),
            indexer_upgrade_db: true,
            postgres_enabled: true,
            postgres_data_dir: String::new(),
            k_enabled: false,
            k_web_port: 3000,
        }
    }
}

/// The values of the self-hosted settings that are in effect on the
/// selected network. Settings that hold one value for all networks are in
/// effect as they are stored; where a deployment keeps its networks
/// apart, it states here what holds on the selected one.
#[derive(Clone, Debug, PartialEq, Eq)]
pub struct Effective {
    pub db_name: String,
    pub db_port: u16,
    pub api_port: u16,
    pub indexer_listen: String,
    pub explorer_rest_port: u16,
    pub explorer_socket_port: u16,
}

impl Effective {
    /// The stored values, as they are.
    pub fn stored(settings: &SelfHostedSettings) -> (e: Self)
        ensures
            e.db_name@ == settings.db_name@,
            e.db_port == settings.db_port,
            e.api_port == settings.api_port,
            e.indexer_listen@ == settings.indexer_listen@,
            e.explorer_rest_port == settings.explorer_rest_port,
            e.explorer_socket_port == settings.explorer_socket_port,
    {
        Effective {
            db_name: settings.db_name.clone(),
            db_port: settings.db_port,
            api_port: settings.api_port,
            indexer_listen: settings.indexer_listen.clone(),
            explorer_rest_port: settings.explorer_rest_port,
            explorer_socket_port: settings.explorer_socket_port,
        }
    }

    pub fn duplicate(&self) -> (r: Self)
        ensures
            r == *self,
    {
        Effective {
            db_name: self.db_name.clone(),
            db_port: self.db_port,
            api_port: self.api_port,
            indexer_listen: self.indexer_listen.clone(),
            explorer_rest_port: self.explorer_rest_port,
            explorer_socket_port: self.explorer_socket_port,
        }
    }
}

// ---------------------------------------------------------------------------
// Developer and estimator
// ---------------------------------------------------------------------------

#[derive(Clone, Copy, Debug, PartialEq, Eq, Structural)]
pub struct DeveloperSettings {
    pub enable: bool,
    pub enable_screen_capture: bool,
    pub disable_password_restrictions: bool,
    pub enable_experimental_features: bool,
    pub enable_custom_daemon_args: bool,
    pub market_monitor_on_testnet: bool,
}

impl Default for DeveloperSettings {
    fn default() -> (r: Self)
        ensures
            r == (DeveloperSettings {
                enable: false,
                enable_screen_capture: true,
                disable_password_restrictions: false,
                enable_experimental_features: false,
                enable_custom_daemon_args: true,
                market_monitor_on_testnet: false,
            }),
    {
        DeveloperSettings {
            enable: false,
            enable_screen_capture: true,
            disable_password_restrictions: false,
            enable_experimental_features: false,
            enable_custom_daemon_args: true,
            market_monitor_on_testnet: false,
        }
    }
}

impl DeveloperSettings {
    pub fn screen_capture_enabled(&self) -> (b: bool)
        ensures
            b == (self.enable && self.enable_screen_capture),
    {
        self.enable && self.enable_screen_capture
    }

    pub fn password_restrictions_disabled(&self) -> (b: bool)
        ensures
            b == (self.enable && self.disable_password_restrictions),
    {
        self.enable && self.disable_password_restrictions
    }

    pub fn experimental_features_enabled(&self) -> (b: bool)
        ensures
            b == (self.enable && self.enable_experimental_features),
    {
        self.enable && self.enable_experimental_features
    }

    pub fn custom_daemon_args_enabled(&self) -> (b: bool)
        ensures
            b == (self.enable && self.enable_custom_daemon_args),
    {
        self.enable && self.enable_custom_daemon_args
    }
}

#[derive(Clone, Copy, Debug, PartialEq, Eq, Structural)]
pub enum EstimatorMode {
    FeeMarketOnly,
    NetworkPressure,
}

impl Default for EstimatorMode {
    fn default() -> (r: Self)
        ensures
            r == EstimatorMode::NetworkPressure,
    {
        EstimatorMode::NetworkPressure
    }
}

impl EstimatorMode {
    pub open spec fn description(self) -> Seq<char> {
        match self {
            EstimatorMode::FeeMarketOnly => "Fee Market Only"@,
            EstimatorMode::NetworkPressure => "Fee Market & Network Pressure"@,
        }
    }

    pub fn describe(&self) -> (r: &'static str)
        ensures
            r@ == self.description(),
    {
        match self {
            EstimatorMode::FeeMarketOnly => "Fee Market Only",
            EstimatorMode::NetworkPressure => "Fee Market & Network Pressure",
        }
    }
}

#[derive(Clone, Copy, Debug, PartialEq, Eq, Structural)]
pub struct EstimatorSettings {
    pub mode: EstimatorMode,
}

impl EstimatorSettings {
    /// Whether these are the defaults: the estimator as a fresh installation
    /// sets it up.
    pub open spec fn is_default(&self) -> bool {
        &&& self.mode == EstimatorMode::NetworkPressure
    }
}

impl Default for EstimatorSettings {
    fn default() -> (r: Self)
        ensures
            r.is_default(),
    {
        EstimatorSettings { mode: EstimatorMode::NetworkPressure }
    }
}

impl EstimatorSettings {
    pub fn track_network_load(&self) -> (m: EstimatorMode)
        ensures
            m == self.mode,
    {
        self.mode
    }
}

// ---------------------------------------------------------------------------
// The settings as a whole
// ---------------------------------------------------------------------------

/// The version that fresh settings are marked with.
pub const VERSION: &'static str = "0.1.0";

#[derive(Clone, Debug, PartialEq, Eq)]
pub struct UserInterfaceSettings {
    pub theme_color: String,
    pub theme_style: String,
    pub balance_padding: bool,
    pub disable_frame: bool,
    pub explorer_last_path: String,
    pub explorer_port: u16,
}

impl UserInterfaceSettings {
    /// Whether these are the defaults: the user interface as a fresh
    /// installation sets it up.
    pub open spec fn is_default(&self) -> bool {
        &&& self.theme_color@ == "Dark"@
        &&& self.theme_style@ == "Rounded"@
        &&& self.balance_padding
        &&& self.disable_frame
        &&& self.explorer_last_path@ == "/"@
        &&& self.explorer_port == 51963
    }
}

impl Default for UserInterfaceSettings {
    fn default() -> (r: Self)
        ensures
            r.is_default(),
    {
        UserInterfaceSettings {
            theme_color: String::from_str("Dark"),
            theme_style: String::from_str("Rounded"),
            balance_padding: true,
            disable_frame: true,
            explorer_last_path: String::from_str("/"),
            explorer_port: 51963,
        }
    }
}

#[derive(Clone, Debug, PartialEq, Eq)]
pub struct Settings {
    pub revision: String,
    pub initialized: bool,
    pub splash_screen: bool,
    pub version: String,
    pub update: String,
    pub developer: DeveloperSettings,
    pub estimator: EstimatorSettings,
    pub explorer: ExplorerSettings,
    pub self_hosted: SelfHostedSettings,
    pub node: NodeSettings,
    pub user_interface: UserInterfaceSettings,
    pub language_code: String,
    pub update_monitor: bool,
    pub market_monitor: bool,
}

impl Default for Settings {
    fn default() -> (r: Self)
        ensures
            r.is_fresh(),
    {
        Settings {
            initialized: false,
            revision: String::from_str(SETTINGS_REVISION),
            splash_screen: true,
            version: String::from_str("0.0.0"),
            update: String::from_str(VERSION),
            developer: DeveloperSettings::default(),
            estimator: EstimatorSettings::default(),
            explorer: ExplorerSettings::default(),
            self_hosted: SelfHostedSettings::default(),
            node: NodeSettings::default(),
            user_interface: UserInterfaceSettings::default(),
            language_code: String::from_str("en"),
            update_monitor: false,
            market_monitor: true,
        }
    }
}

/// Whether a character is an ASCII letter or digit.
pub open spec fn is_alphanumeric(c: char) -> bool {
    let n = c as u32;
    (0x30 <= n && n <= 0x39) || (0x41 <= n && n <= 0x5A) || (0x61 <= n && n <= 0x7A)
}

/// Whether a text can serve as the password of the database: twenty-four
/// ASCII letters and digits.
pub open spec fn is_generated_password(s: Seq<char>) -> bool {
    s.len() == 24 && forall|k: int| 0 <= k < s.len() ==> is_alphanumeric(#[trigger] s[k])
}

/// A random text of `len` ASCII letters and digits.
///
/// Wraps `rand::thread_rng` with `Rng::sample_iter` over
/// `rand::distributions::Alphanumeric`, which samples bytes uniformly from
/// `a-z`, `A-Z` and `0-9`. The characters are random: only the length and
/// the alphabet are claimed.
#[verifier::external_body]
fn random_alphanumeric(len: usize) -> (s: String)
    ensures
        s@.len() == len,
        forall|k: int| 0 <= k < s@.len() ==> is_alphanumeric(#[trigger] s@[k]),
{
    rand::thread_rng().sample_iter(rand::distributions::Alphanumeric).take(len).map(char::from).collect()
}

/// A fresh password for the database.
pub fn generate_db_password() -> (s: String)
    ensures
        is_generated_password(s@),
{
    random_alphanumeric(24)
}

/// Whether the self-hosted explorer endpoints are those that earlier
/// settings wrote for every network.
pub open spec fn has_legacy_explorer_profiles(p: ExplorerNetworkProfiles) -> bool {
    forall|n: Network|
        (#[trigger] p.of(n)).api_base@ == "http://127.0.0.1:8000"@ && p.of(n).socket_url@
            == "http://127.0.0.1:8001"@
}

/// Whether the database password has to be replaced: it is blank or the
/// password that earlier settings shipped with.
pub open spec fn is_weak_password(s: Seq<char>) -> bool {
    trim(s).len() == 0 || s == "kaspa"@
}

impl Settings {
    /// Whether the settings are those that a fresh installation starts
    /// from.
    pub open spec fn is_fresh(&self) -> bool {
        &&& !self.initialized
        &&& self.revision@ == SETTINGS_REVISION@
        &&& self.splash_screen
        &&& self.version@ == "0.0.0"@
        &&& self.update@ == VERSION@
        &&& self.developer == (DeveloperSettings {
            enable: false,
            enable_screen_capture: true,
            disable_password_restrictions: false,
            enable_experimental_features: false,
            enable_custom_daemon_args: true,
            market_monitor_on_testnet: false,
        })
        &&& self.estimator.is_default()
        &&& self.explorer.is_default()
        &&& self.self_hosted.is_default()
        &&& self.node.is_default()
        &&& self.user_interface.is_default()
        &&& self.language_code@ == "en"@
        &&& !self.update_monitor
        &&& self.market_monitor
    }

    /// The stored settings as they are taken over: a retired kind of
    /// connection is replaced.
    pub open spec fn kept(s: Settings) -> Settings {
        Settings {
            node: NodeSettings {
                connection_config_kind: if s.node.connection_config_kind
                    == NodeConnectionConfigKind::PublicServerCustom {
                    NodeConnectionConfigKind::PublicServerRandom
                } else {
                    s.node.connection_config_kind
                },
                ..s.node
            },
            ..s
        }
    }

    /// The settings to work with, given what was found in the store,
    /// and whether they are to be stored again. Settings in the current
    /// layout are taken over, brought up to date, and their credentials
    /// completed; anything else gives way to fresh settings.
    pub fn load(stored: Option<Settings>) -> (r: (Settings, bool))
        ensures
            match stored {
                Some(s) => if s.revision@ == SETTINGS_REVISION@ {
                    exists|password: Seq<char>, mid: Settings, repaired: bool|
                        {
                            &&& is_generated_password(password)
                            &&& #[trigger] mid.is_migration_of(Self::kept(s), password)
                            &&& #[trigger] is_repair_of(r.0.node, mid.node, repaired)
                            &&& r.0 == (Settings { node: r.0.node, ..mid })
                            &&& r.1 == (Self::kept(s).is_outdated() || repaired)
                        }
                } else {
                    r.0.is_fresh() && !r.1
                },
                None => r.0.is_fresh() && !r.1,
            },
    {
        let current = match &stored {
            Some(s) => s.is_current(),
            None => false,
        };
        let mut settings = Self::restore(stored);
        if !current {
            return (settings, false);
        }
        let ghost kept = settings;
        let migrated = settings.migrate();
        let ghost mid = settings;
        let mut node = settings.node.duplicate();
        let repaired = restore_credentials(&mut node);
        settings.node = node;
        proof {
            let password = choose|password: Seq<char>|
                is_generated_password(password) && #[trigger] mid.is_migration_of(kept, password);
            assert(mid.is_migration_of(kept, password));
            assert(is_repair_of(settings.node, mid.node, repaired));
        }
        (settings, migrated || repaired)
    }

    /// Whether the stored settings are taken over: they were written in
    /// the current layout.
    pub fn is_current(&self) -> (b: bool)
        ensures
            b == (self.revision@ == SETTINGS_REVISION@),
    {
        str_eq(self.revision.as_str(), SETTINGS_REVISION)
    }

    /// The settings to work with, given what was found in the store:
    /// fresh ones where nothing usable was found or the layout differs,
    /// the stored ones otherwise, with a retired kind of connection
    /// replaced.
    pub fn restore(stored: Option<Settings>) -> (r: Settings)
        ensures
            match stored {
                Some(s) => if s.revision@ == SETTINGS_REVISION@ {
                    &&& r.node.connection_config_kind == if s.node.connection_config_kind
                        == NodeConnectionConfigKind::PublicServerCustom {
                        NodeConnectionConfigKind::PublicServerRandom
                    } else {
                        s.node.connection_config_kind
                    }
                    &&& r == (Settings {
                        node: NodeSettings {
                            connection_config_kind: r.node.connection_config_kind,
                            ..s.node
                        },
                        ..s
                    })
                } else {
                    r.is_fresh()
                },
                None => r.is_fresh(),
            },
    {
        match stored {
            Some(s) => {
                if s.is_current() {
                    let mut s = s;
                    match s.node.connection_config_kind {
                        NodeConnectionConfigKind::PublicServerCustom => {
                            s.node.connection_config_kind =
                                NodeConnectionConfigKind::PublicServerRandom;
                        },
                        _ => {},
                    }
                    s
                } else {
                    Settings::default()
                }
            },
            None => Settings::default(),
        }
    }

    /// Brings stored settings up to date: gaps are filled with the
    /// defaults, retired values are replaced, and a database password
    /// that is blank or the shipped one gives way to `password`. Answers
    /// whether anything changed, so that the settings are stored again.
    pub fn migrate_with(&mut self, password: String) -> (migrated: bool)
        ensures
            migrated == old(self).is_outdated(),
            final(self).is_migration_of(*old(self), password@),
    {
        let a = self.node.migrate();
        let d = self.self_hosted.migrate(password);
        let e = self.explorer.migrate();
        let f = if self.user_interface.explorer_port == 0 {
            self.user_interface.explorer_port = 51963;
            true
        } else {
            false
        };
        a || d || e || f
    }

    /// Brings stored settings up to date, with a fresh random password
    /// for the database where one is due.
    pub fn migrate(&mut self) -> (migrated: bool)
        ensures
            migrated == old(self).is_outdated(),
            exists|password: Seq<char>|
                is_generated_password(password) && #[trigger] final(self).is_migration_of(
                    *old(self),
                    password,
                ),
    {
        let password = generate_db_password();
        let ghost p = password@;
        let migrated = self.migrate_with(password);
        assert(self.is_migration_of(*old(self), p));
        migrated
    }

    /// Whether bringing the settings up to date changes them.
    pub open spec fn is_outdated(&self) -> bool {
        ||| self.node.is_outdated()
        ||| self.self_hosted.is_outdated()
        ||| self.explorer.is_outdated()
        ||| self.user_interface.explorer_port == 0
    }

    /// Whether these settings are `old` brought up to date, with
    /// `password` in the place of a weak password.
    pub open spec fn is_migration_of(&self, old: Settings, password: Seq<char>) -> bool {
        &&& self.node.is_migration_of(old.node)
        &&& self.self_hosted.is_migration_of(old.self_hosted, password)
        &&& self.explorer.is_migration_of(old.explorer)
        &&& self.user_interface.explorer_port == if old.user_interface.explorer_port == 0 {
            51963u16
        } else {
            old.user_interface.explorer_port
        }
        &&& self.user_interface.theme_color == old.user_interface.theme_color
        &&& self.user_interface.theme_style == old.user_interface.theme_style
        &&& self.user_interface.balance_padding == old.user_interface.balance_padding
        &&& self.user_interface.disable_frame == old.user_interface.disable_frame
        &&& self.user_interface.explorer_last_path == old.user_interface.explorer_last_path
        &&& self.revision == old.revision
        &&& self.initialized == old.initialized
        &&& self.splash_screen == old.splash_screen
        &&& self.version == old.version
        &&& self.update == old.update
        &&& self.developer == old.developer
        &&& self.estimator == old.estimator
        &&& self.language_code == old.language_code
        &&& self.update_monitor == old.update_monitor
        &&& self.market_monitor == old.market_monitor
    }
}

impl NodeSettings {
    #[verifier::opaque]
    pub open spec fn is_outdated(&self) -> bool {
        self.stratum_bridge.is_outdated() || self.cpu_miner.is_outdated()
            || self.rothschild.is_outdated()
    }

    /// Whether these settings are `old` brought up to date: the settings
    /// of the bridge, of the miner and of the transaction generator are,
    /// and nothing else differs.
    #[verifier::opaque]
    pub open spec fn is_migration_of(&self, old: NodeSettings) -> bool {
        &&& self.stratum_bridge.is_migration_of(old.stratum_bridge)
        &&& self.cpu_miner.is_migration_of(old.cpu_miner)
        &&& self.rothschild.is_migration_of(old.rothschild)
        &&& self.connection_config_kind == old.connection_config_kind
        &&& self.rpc_kind == old.rpc_kind
        &&& self.wrpc_url == old.wrpc_url
        &&& self.enable_wrpc_borsh == old.enable_wrpc_borsh
        &&& self.wrpc_borsh_network_interface == old.wrpc_borsh_network_interface
        &&& self.wrpc_encoding == old.wrpc_encoding
        &&& self.enable_wrpc_json == old.enable_wrpc_json
        &&& self.wrpc_json_network_interface == old.wrpc_json_network_interface
        &&& self.enable_grpc == old.enable_grpc
        &&& self.grpc_network_interface == old.grpc_network_interface
        &&& self.enable_upnp == old.enable_upnp
        &&& self.memory_scale == old.memory_scale
        &&& self.network == old.network
        &&& self.node_kind == old.node_kind
        &&& self.kaspad_daemon_binary == old.kaspad_daemon_binary
        &&& self.kaspad_daemon_args == old.kaspad_daemon_args
        &&& self.kaspad_daemon_args_enable == old.kaspad_daemon_args_enable
        &&& self.kaspad_daemon_storage_folder_enable == old.kaspad_daemon_storage_folder_enable
        &&& self.kaspad_daemon_storage_folder == old.kaspad_daemon_storage_folder
        &&& self.stratum_bridge_enabled == old.stratum_bridge_enabled
        &&& self.cpu_miner_enabled == old.cpu_miner_enabled
        &&& self.rothschild_enabled == old.rothschild_enabled
    }

    pub fn migrate(&mut self) -> (migrated: bool)
        ensures
            migrated == old(self).is_outdated(),
            final(self).is_migration_of(*old(self)),
    {
        reveal(NodeSettings::is_outdated);
        reveal(NodeSettings::is_migration_of);
        let a = self.stratum_bridge.migrate();
        let b = self.cpu_miner.migrate();
        let c = self.rothschild.migrate();
        a || b || c
    }
}

impl StratumBridgeSettings {
    #[verifier::opaque]
    pub open spec fn is_outdated(&self) -> bool {
        self.coinbase_tag_suffix@.len() == 0 || !self.var_diff || !self.var_diff_stats
    }

    /// Whether these settings are `old` brought up to date: an empty tag
    /// is replaced and the variable difficulty is switched on.
    #[verifier::opaque]
    pub open spec fn is_migration_of(&self, old: StratumBridgeSettings) -> bool {
        &&& self.coinbase_tag_suffix@ == if old.coinbase_tag_suffix@.len() == 0 {
            "KaspaNG"@
        } else {
            old.coinbase_tag_suffix@
        }
        &&& *self == (StratumBridgeSettings {
            coinbase_tag_suffix: self.coinbase_tag_suffix,
            var_diff: true,
            var_diff_stats: true,
            ..old
        })
    }

    pub fn migrate(&mut self) -> (migrated: bool)
        ensures
            migrated == old(self).is_outdated(),
            final(self).is_migration_of(*old(self)),
    {
        reveal(StratumBridgeSettings::is_outdated);
        reveal(StratumBridgeSettings::is_migration_of);
        let mut migrated = false;
        if self.coinbase_tag_suffix.as_str().is_empty() {
            self.coinbase_tag_suffix = String::from_str("KaspaNG");
            migrated = true;
        }
        if !self.var_diff {
            self.var_diff = true;
            migrated = true;
        }
        if !self.var_diff_stats {
            self.var_diff_stats = true;
            migrated = true;
        }
        migrated
    }
}

impl CpuMinerSettings {
    #[verifier::opaque]
    pub open spec fn is_outdated(&self) -> bool {
        trim(self.kaspad_address@).len() == 0 || self.kaspad_port == 0 || self.threads == 0
    }

    /// Whether these settings are `old` brought up to date: a blank node
    /// address, a port and a thread count of zero give way to the
    /// defaults.
    #[verifier::opaque]
    pub open spec fn is_migration_of(&self, old: CpuMinerSettings) -> bool {
        &&& self.kaspad_address@ == if trim(old.kaspad_address@).len() == 0 {
            "127.0.0.1"@
        } else {
            old.kaspad_address@
        }
        &&& self.kaspad_port == if old.kaspad_port == 0 {
            16210u16
        } else {
            old.kaspad_port
        }
        &&& self.threads == if old.threads == 0 {
            1u16
        } else {
            old.threads
        }
        &&& self.mining_address == old.mining_address
        &&& self.mine_when_not_synced == old.mine_when_not_synced
    }

    pub fn migrate(&mut self) -> (migrated: bool)
        ensures
            migrated == old(self).is_outdated(),
            final(self).is_migration_of(*old(self)),
    {
        reveal(CpuMinerSettings::is_outdated);
        reveal(CpuMinerSettings::is_migration_of);
        let mut migrated = false;
        if is_blank(self.kaspad_address.as_str()) {
            self.kaspad_address = String::from_str("127.0.0.1");
            migrated = true;
        }
        if self.kaspad_port == 0 {
            self.kaspad_port = 16210;
            migrated = true;
        }
        if self.threads == 0 {
            self.threads = 1;
            migrated = true;
        }
        migrated
    }
}

impl RothschildSettings {
    #[verifier::opaque]
    pub open spec fn is_outdated(&self) -> bool {
        trim(self.rpc_server@).len() == 0 || self.tps == 0
    }

    /// Whether these settings are `old` brought up to date: a blank
    /// server and a rate of zero give way to the defaults.
    #[verifier::opaque]
    pub open spec fn is_migration_of(&self, old: RothschildSettings) -> bool {
        &&& self.rpc_server@ == if trim(old.rpc_server@).len() == 0 {
            "localhost:16210"@
        } else {
            old.rpc_server@
        }
        &&& self.tps == if old.tps == 0 {
            1u64
        } else {
            old.tps
        }
        &&& self.mnemonic == old.mnemonic
        &&& self.private_key == old.private_key
        &&& self.address == old.address
        &&& self.threads == old.threads
    }

    pub fn migrate(&mut self) -> (migrated: bool)
        ensures
            migrated == old(self).is_outdated(),
            final(self).is_migration_of(*old(self)),
    {
        reveal(RothschildSettings::is_outdated);
        reveal(RothschildSettings::is_migration_of);
        let mut migrated = false;
        if is_blank(self.rpc_server.as_str()) {
            self.rpc_server = String::from_str("localhost:16210");
            migrated = true;
        }
        if self.tps == 0 {
            self.tps = 1;
            migrated = true;
        }
        migrated
    }
}

impl SelfHostedSettings {
    #[verifier::opaque]
    pub open spec fn is_outdated(&self) -> bool {
        ||| trim(self.db_user@).len() == 0
        ||| trim(self.db_name@).len() == 0
        ||| is_weak_password(self.db_password@)
        ||| self.db_port == 0
        ||| !self.postgres_enabled
        ||| !self.indexer_enabled
        ||| self.explorer_rest_port == 0
        ||| self.explorer_rest_port == 8000
        ||| self.explorer_socket_port == 0
        ||| self.explorer_socket_port == 8001
    }

    /// Whether these settings are `old` brought up to date: blank names
    /// and ports of zero give way to the defaults, the retired explorer
    /// ports to the current ones, a weak password to `password`, and the
    /// database and the indexer are switched on.
    #[verifier::opaque]
    pub open spec fn is_migration_of(&self, old: SelfHostedSettings, password: Seq<char>) -> bool {
        &&& self.db_user@ == if trim(old.db_user@).len() == 0 {
            "kaspa"@
        } else {
            old.db_user@
        }
        &&& self.db_name@ == if trim(old.db_name@).len() == 0 {
            "kaspa"@
        } else {
            old.db_name@
        }
        &&& self.db_password@ == if is_weak_password(old.db_password@) {
            password
        } else {
            old.db_password@
        }
        &&& self.db_port == if old.db_port == 0 {
            5432u16
        } else {
            old.db_port
        }
        &&& self.postgres_enabled
        &&& self.indexer_enabled
        &&& self.explorer_rest_port == if old.explorer_rest_port == 0 || old.explorer_rest_port
            == 8000 {
            19112u16
        } else {
            old.explorer_rest_port
        }
        &&& self.explorer_socket_port == if old.explorer_socket_port == 0
            || old.explorer_socket_port == 8001 {
            19113u16
        } else {
            old.explorer_socket_port
        }
        &&& self.enabled == old.enabled
        &&& self.api_bind == old.api_bind
        &&& self.api_port == old.api_port
        &&& self.db_host == old.db_host
        &&& self.indexer_binary == old.indexer_binary
        &&& self.indexer_rpc_url == old.indexer_rpc_url
        &&& self.indexer_listen == old.indexer_listen
        &&& self.indexer_extra_args == old.indexer_extra_args
        &&& self.indexer_upgrade_db == old.indexer_upgrade_db
        &&& self.postgres_data_dir == old.postgres_data_dir
        &&& self.k_enabled == old.k_enabled
        &&& self.k_web_port == old.k_web_port
    }

    pub fn migrate(&mut self, password: String) -> (migrated: bool)
        ensures
            migrated == old(self).is_outdated(),
            final(self).is_migration_of(*old(self), password@),
    {
        reveal(SelfHostedSettings::is_outdated);
        reveal(SelfHostedSettings::is_migration_of);
        let a = self.migrate_database(password);
        let b = self.migrate_services();
        a || b
    }

    fn migrate_database(&mut self, password: String) -> (migrated: bool)
        ensures
            migrated == (trim(old(self).db_user@).len() == 0 || trim(old(self).db_name@).len() == 0
                || is_weak_password(old(self).db_password@) || old(self).db_port == 0),
            final(self).db_user@ == if trim(old(self).db_user@).len() == 0 {
                "kaspa"@
            } else {
                old(self).db_user@
            },
            final(self).db_name@ == if trim(old(self).db_name@).len() == 0 {
                "kaspa"@
            } else {
                old(self).db_name@
            },
            final(self).db_password@ == if is_weak_password(old(self).db_password@) {
                password@
            } else {
                old(self).db_password@
            },
            final(self).db_port == if old(self).db_port == 0 {
                5432u16
            } else {
                old(self).db_port
            },
            *final(self) == (SelfHostedSettings {
                db_user: final(self).db_user,
                db_name: final(self).db_name,
                db_password: final(self).db_password,
                db_port: final(self).db_port,
                ..*old(self)
            }),
    {
        let mut migrated = false;
        if is_blank(self.db_user.as_str()) {
            self.db_user = String::from_str("kaspa");
            migrated = true;
        }
        if is_blank(self.db_name.as_str()) {
            self.db_name = String::from_str("kaspa");
            migrated = true;
        }
        if is_blank(self.db_password.as_str()) || str_eq(self.db_password.as_str(), "kaspa") {
            self.db_password = password;
            migrated = true;
        }
        if self.db_port == 0 {
            self.db_port = 5432;
            migrated = true;
        }
        migrated
    }

    fn migrate_services(&mut self) -> (migrated: bool)
        ensures
            migrated == (!old(self).postgres_enabled || !old(self).indexer_enabled || old(
                self,
            ).explorer_rest_port == 0 || old(self).explorer_rest_port == 8000 || old(
                self,
            ).explorer_socket_port == 0 || old(self).explorer_socket_port == 8001),
            final(self).explorer_rest_port == if old(self).explorer_rest_port == 0 || old(
                self,
            ).explorer_rest_port == 8000 {
                19112u16
            } else {
                old(self).explorer_rest_port
            },
            final(self).explorer_socket_port == if old(self).explorer_socket_port == 0 || old(
                self,
            ).explorer_socket_port == 8001 {
                19113u16
            } else {
                old(self).explorer_socket_port
            },
            *final(self) == (SelfHostedSettings {
                postgres_enabled: true,
                indexer_enabled: true,
                explorer_rest_port: final(self).explorer_rest_port,
                explorer_socket_port: final(self).explorer_socket_port,
                ..*old(self)
            }),
    {
        let mut migrated = false;
        if !self.postgres_enabled {
            self.postgres_enabled = true;
            migrated = true;
        }
        if !self.indexer_enabled {
            self.indexer_enabled = true;
            migrated = true;
        }
        if self.explorer_rest_port == 0 || self.explorer_rest_port == 8000 {
            self.explorer_rest_port = default_explorer_rest_port();
            migrated = true;
        }
        if self.explorer_socket_port == 0 || self.explorer_socket_port == 8001 {
            self.explorer_socket_port = default_explorer_socket_port();
            migrated = true;
        }
        migrated
    }
}

impl ExplorerSettings {
    #[verifier::opaque]
    pub open spec fn is_outdated(&self) -> bool {
        has_legacy_explorer_profiles(self.self_hosted) || trim(self.official.mainnet.api_base@).len()
            == 0
    }

    /// Whether these settings are `old` brought up to date: the defaults
    /// where the official endpoint was blank; otherwise `old`, with the
    /// retired self-hosted endpoints replaced by the current ones.
    #[verifier::opaque]
    pub open spec fn is_migration_of(&self, old: ExplorerSettings) -> bool {
        if trim(old.official.mainnet.api_base@).len() == 0 {
            &&& self.source == ExplorerDataSource::Official
            &&& self.self_hosted.is_local()
            &&& self.official.mainnet.is(
                "https://api.kaspa.org"@,
                "wss://t2-3.kaspa.ws"@,
                "/ws/socket.io"@,
            )
            &&& self.official.testnet10.is(
                "https://api-tn10.kaspa.org"@,
                "wss://t-2.kaspa.ws"@,
                "/ws/socket.io"@,
            )
            &&& self.official.testnet12.is(
                "https://api-tn12.kaspa.org"@,
                "wss://t2-3.kaspa.ws"@,
                "/ws/socket.io"@,
            )
        } else {
            &&& self.source == old.source
            &&& self.official == old.official
            &&& if has_legacy_explorer_profiles(old.self_hosted) {
                self.self_hosted.is_local()
            } else {
                self.self_hosted == old.self_hosted
            }
        }
    }

    pub fn migrate(&mut self) -> (migrated: bool)
        ensures
            migrated == old(self).is_outdated(),
            final(self).is_migration_of(*old(self)),
    {
        reveal(ExplorerSettings::is_outdated);
        reveal(ExplorerSettings::is_migration_of);
        let mut migrated = false;
        let p = &self.self_hosted;
        let legacy = str_eq(p.mainnet.api_base.as_str(), "http://127.0.0.1:8000") && str_eq(
            p.mainnet.socket_url.as_str(),
            "http://127.0.0.1:8001",
        ) && str_eq(p.testnet10.api_base.as_str(), "http://127.0.0.1:8000") && str_eq(
            p.testnet10.socket_url.as_str(),
            "http://127.0.0.1:8001",
        ) && str_eq(p.testnet12.api_base.as_str(), "http://127.0.0.1:8000") && str_eq(
            p.testnet12.socket_url.as_str(),
            "http://127.0.0.1:8001",
        );
        proof {
            let q = old(self).self_hosted;
            assert(q.of(Network::Mainnet) == q.mainnet);
            assert(q.of(Network::Testnet10) == q.testnet10);
            assert(q.of(Network::Testnet12) == q.testnet12);
            assert(legacy == has_legacy_explorer_profiles(q));
        }
        if legacy {
            self.self_hosted = ExplorerNetworkProfiles::local();
            migrated = true;
        }
        if is_blank(self.official.mainnet.api_base.as_str()) {
            *self = ExplorerSettings::default();
            migrated = true;
        }
        migrated
    }
}

} // verus!
