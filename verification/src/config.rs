//! The configuration of a super node and the rules it has to meet before the
//! node may start.

use crate::units::MIN_STAKE_TOKENS;
use vstd::prelude::*;

verus! {

/// The lowest bandwidth, in megabits per second, a node may offer.
pub const MIN_BANDWIDTH_MBPS: u32 = 10;

/// The lowest storage limit, in gigabytes, a node may offer.
pub const MIN_STORAGE_GB: u64 = 10;

/// Everything a super node is configured with.
#[derive(Debug, Clone)]
pub struct Config {
    pub node: NodeConfig,
    pub network: NetworkConfig,
    pub api: ApiConfig,
    pub blockchain: BlockchainConfig,
    pub storage: StorageConfig,
    pub database_url: String,
    pub solana_rpc_url: String,
}

/// What the node offers to the network.
#[derive(Debug, Clone)]
pub struct NodeConfig {
    pub bandwidth_mbps: u32,
    pub max_connections: usize,
    pub storage_limit_gb: u64,
    /// The stake behind the node, in whole tokens.
    pub stake_amount: u64,
}

/// Where the node listens and whom it asks first.
#[derive(Debug, Clone)]
pub struct NetworkConfig {
    pub listen_addresses: Vec<String>,
    pub bootstrap_nodes: Vec<String>,
    pub quic_port: u16,
    pub tcp_port: u16,
    pub mdns_enabled: bool,
}

/// Where the control interface is served.
#[derive(Debug, Clone)]
pub struct ApiConfig {
    pub host: String,
    pub port: u16,
    pub cors_origins: Vec<String>,
}

/// How the node reaches the chain.
#[derive(Debug, Clone)]
pub struct BlockchainConfig {
    pub rpc_url: String,
    pub program_id: String,
    pub commitment: String,
}

/// Where the node keeps its data.
#[derive(Debug, Clone)]
pub struct StorageConfig {
    pub data_dir: String,
    pub cache_size_mb: usize,
    pub cleanup_interval_hours: u64,
}

/// The rule a configuration breaks.
#[derive(Clone, Copy, Debug, PartialEq, Eq, Structural)]
pub enum ConfigError {
    /// The bandwidth is below `MIN_BANDWIDTH_MBPS`.
    BandwidthTooLow,
    /// The stake is below `MIN_STAKE_TOKENS`.
    StakeTooLow,
    /// The storage limit is below `MIN_STORAGE_GB`.
    StorageTooLow,
    /// There is no address to listen on.
    NoListenAddress,
}

impl ConfigError {
    /// The text shown to the operator for this error.
    pub open spec fn text(self) -> Seq<char> {
        match self {
            ConfigError::BandwidthTooLow => "Minimum bandwidth requirement: 10 Mbps"@,
            ConfigError::StakeTooLow => "Minimum stake requirement: 10000 TF"@,
            ConfigError::StorageTooLow => "Minimum storage requirement: 10 GB"@,
            ConfigError::NoListenAddress => "At least one listen address required"@,
        }
    }

    /// The text shown to the operator for this error.
    pub fn message(&self) -> (text: &'static str)
        ensures
            text@ == self.text(),
    {
        match self {
            ConfigError::BandwidthTooLow => "Minimum bandwidth requirement: 10 Mbps",
            ConfigError::StakeTooLow => "Minimum stake requirement: 10000 TF",
            ConfigError::StorageTooLow => "Minimum storage requirement: 10 GB",
            ConfigError::NoListenAddress => "At least one listen address required",
        }
    }
}

/// Whether a stake of `stake_tokens` whole tokens is enough to run a node.
pub fn stake_is_sufficient(stake_tokens: u64) -> (enough: bool)
    ensures
        enough == (stake_tokens >= MIN_STAKE_TOKENS),
{
    stake_tokens >= MIN_STAKE_TOKENS
}

impl Config {
    /// The first rule this configuration breaks, if it breaks one: bandwidth,
    /// then stake, then storage, then listen addresses.
    pub open spec fn violation(&self) -> Option<ConfigError> {
        if self.node.bandwidth_mbps < MIN_BANDWIDTH_MBPS {
            Some(ConfigError::BandwidthTooLow)
        } else if self.node.stake_amount < MIN_STAKE_TOKENS {
            Some(ConfigError::StakeTooLow)
        } else if self.node.storage_limit_gb < MIN_STORAGE_GB {
            Some(ConfigError::StorageTooLow)
        } else if self.network.listen_addresses@.len() == 0 {
            Some(ConfigError::NoListenAddress)
        } else {
            None
        }
    }

    /// Whether this is the configuration a node starts from when it was given
    /// none.
    pub open spec fn is_default(&self) -> bool {
        &&& self.node.bandwidth_mbps == 100
        &&& self.node.max_connections == 1000
        &&& self.node.storage_limit_gb == 100
        &&& self.node.stake_amount == 10000
        &&& self.network.listen_addresses@.len() == 2
        &&& self.network.listen_addresses@[0]@ == "/ip4/0.0.0.0/tcp/7001"@
        &&& self.network.listen_addresses@[1]@ == "/ip4/0.0.0.0/udp/7001/quic-v1"@
        &&& self.network.bootstrap_nodes@.len() == 0
        &&& self.network.quic_port == 7001
        &&& self.network.tcp_port == 7001
        &&& self.network.mdns_enabled
        &&& self.api.host@ == "0.0.0.0"@
        &&& self.api.port == 8001
        &&& self.api.cors_origins@.len() == 1
        &&& self.api.cors_origins@[0]@ == "*"@
        &&& self.blockchain.rpc_url@ == "https://api.devnet.solana.com"@
        &&& self.blockchain.program_id@ == "TF1111111111111111111111111111111111111111"@
        &&& self.blockchain.commitment@ == "confirmed"@
        &&& self.storage.data_dir@ == "./data"@
        &&& self.storage.cache_size_mb == 1024
        &&& self.storage.cleanup_interval_hours == 24
        &&& self.database_url@ == "postgresql://localhost/thunderfuel"@
        &&& self.solana_rpc_url@ == "https://api.devnet.solana.com"@
    }

    /// Checks the configuration against the rules for running a node and
    /// names the first one it breaks.
    pub fn validate(&self) -> (res: Result<(), ConfigError>)
        ensures
            res == match self.violation() {
                Some(error) => Err::<(), ConfigError>(error),
                None => Ok::<(), ConfigError>(()),
            },
    {
        if self.node.bandwidth_mbps < MIN_BANDWIDTH_MBPS {
            return Err(ConfigError::BandwidthTooLow);
        }
        if !stake_is_sufficient(self.node.stake_amount) {
            return Err(ConfigError::StakeTooLow);
        }
        if self.node.storage_limit_gb < MIN_STORAGE_GB {
            return Err(ConfigError::StorageTooLow);
        }
        if self.network.listen_addresses.is_empty() {
            return Err(ConfigError::NoListenAddress);
        }
        Ok(())
    }
}

impl Default for Config {
    /// The configuration a node starts from when it was given none. It meets
    /// every rule that `validate` checks.
    fn default() -> (res: Self)
        ensures
            res.is_default(),
            res.violation() is None,
    {
        broadcast use vstd::string::to_string_from_display_ensures_for_str;

        Config {
            node: NodeConfig {
                bandwidth_mbps: 100,
                max_connections: 1000,
                storage_limit_gb: 100,
                stake_amount: 10000,
            },
            network: NetworkConfig {
                listen_addresses: vec![
                    "/ip4/0.0.0.0/tcp/7001".to_string(),
                    "/ip4/0.0.0.0/udp/7001/quic-v1".to_string(),
                ],
                bootstrap_nodes: vec![],
                quic_port: 7001,
                tcp_port: 7001,
                mdns_enabled: true,
            },
            api: ApiConfig {
                host: "0.0.0.0".to_string(),
                port: 8001,
                cors_origins: vec!["*".to_string()],
            },
            blockchain: BlockchainConfig {
                rpc_url: "https://api.devnet.solana.com".to_string(),
                program_id: "TF1111111111111111111111111111111111111111".to_string(),
                commitment: "confirmed".to_string(),
            },
            storage: StorageConfig {
                data_dir: "./data".to_string(),
                cache_size_mb: 1024,
                cleanup_interval_hours: 24,
            },
            database_url: "postgresql://localhost/thunderfuel".to_string(),
            solana_rpc_url: "https://api.devnet.solana.com".to_string(),
        }
    }
}

} // verus!
