use thunderfuel::config::{
    stake_is_sufficient, Config, ConfigError, MIN_BANDWIDTH_MBPS, MIN_STORAGE_GB,
};
use thunderfuel::units::MIN_STAKE_TOKENS;

#[test]
fn default_config_has_the_documented_values() {
    let config = Config::default();
    assert_eq!(config.node.bandwidth_mbps, 100);
    assert_eq!(config.node.max_connections, 1000);
    assert_eq!(config.node.storage_limit_gb, 100);
    assert_eq!(config.node.stake_amount, 10000);
    assert_eq!(
        config.network.listen_addresses,
        vec!["/ip4/0.0.0.0/tcp/7001".to_string(), "/ip4/0.0.0.0/udp/7001/quic-v1".to_string()]
    );
    assert!(config.network.bootstrap_nodes.is_empty());
    assert_eq!(config.network.quic_port, 7001);
    assert_eq!(config.network.tcp_port, 7001);
    assert!(config.network.mdns_enabled);
    assert_eq!(config.api.host, "0.0.0.0");
    assert_eq!(config.api.port, 8001);
    assert_eq!(config.api.cors_origins, vec!["*".to_string()]);
    assert_eq!(config.blockchain.rpc_url, "https://api.devnet.solana.com");
    assert_eq!(config.blockchain.program_id, "TF1111111111111111111111111111111111111111");
    assert_eq!(config.blockchain.commitment, "confirmed");
    assert_eq!(config.storage.data_dir, "./data");
    assert_eq!(config.storage.cache_size_mb, 1024);
    assert_eq!(config.storage.cleanup_interval_hours, 24);
    assert_eq!(config.database_url, "postgresql://localhost/thunderfuel");
    assert_eq!(config.solana_rpc_url, "https://api.devnet.solana.com");
}

#[test]
fn default_config_is_valid() {
    assert_eq!(Config::default().validate(), Ok(()));
}

#[test]
fn config_limits_have_their_values() {
    assert_eq!(MIN_BANDWIDTH_MBPS, 10);
    assert_eq!(MIN_STORAGE_GB, 10);
    assert_eq!(MIN_STAKE_TOKENS, 10000);
}

#[test]
fn validate_refuses_low_bandwidth() {
    let mut config = Config::default();
    config.node.bandwidth_mbps = 9;
    assert_eq!(config.validate(), Err(ConfigError::BandwidthTooLow));
    config.node.bandwidth_mbps = 10;
    assert_eq!(config.validate(), Ok(()));
}

#[test]
fn validate_refuses_low_stake() {
    let mut config = Config::default();
    config.node.stake_amount = 9999;
    assert_eq!(config.validate(), Err(ConfigError::StakeTooLow));
    config.node.stake_amount = 10000;
    assert_eq!(config.validate(), Ok(()));
}

#[test]
fn validate_refuses_low_storage() {
    let mut config = Config::default();
    config.node.storage_limit_gb = 9;
    assert_eq!(config.validate(), Err(ConfigError::StorageTooLow));
    config.node.storage_limit_gb = 10;
    assert_eq!(config.validate(), Ok(()));
}

#[test]
fn validate_refuses_missing_listen_addresses() {
    let mut config = Config::default();
    config.network.listen_addresses.clear();
    assert_eq!(config.validate(), Err(ConfigError::NoListenAddress));
    config.network.listen_addresses.push("/ip4/127.0.0.1/tcp/1".to_string());
    assert_eq!(config.validate(), Ok(()));
}

#[test]
fn validate_names_the_first_broken_rule() {
    let mut config = Config::default();
    config.network.listen_addresses.clear();
    config.node.storage_limit_gb = 0;
    assert_eq!(config.validate(), Err(ConfigError::StorageTooLow));
    config.node.stake_amount = 0;
    assert_eq!(config.validate(), Err(ConfigError::StakeTooLow));
    config.node.bandwidth_mbps = 0;
    assert_eq!(config.validate(), Err(ConfigError::BandwidthTooLow));
}

#[test]
fn validate_ignores_what_it_has_no_rule_for() {
    let mut config = Config::default();
    config.node.max_connections = 0;
    config.network.bootstrap_nodes.push("peer".to_string());
    config.api.cors_origins.clear();
    config.database_url.clear();
    assert_eq!(config.validate(), Ok(()));
}

#[test]
fn config_error_messages_name_the_rule() {
    assert_eq!(ConfigError::BandwidthTooLow.message(), "Minimum bandwidth requirement: 10 Mbps");
    assert_eq!(ConfigError::StakeTooLow.message(), "Minimum stake requirement: 10000 TF");
    assert_eq!(ConfigError::StorageTooLow.message(), "Minimum storage requirement: 10 GB");
    assert_eq!(ConfigError::NoListenAddress.message(), "At least one listen address required");
}

#[test]
fn stake_floor_for_nodes_is_ten_thousand_tokens() {
    assert!(!stake_is_sufficient(0));
    assert!(!stake_is_sufficient(9999));
    assert!(stake_is_sufficient(10000));
    assert!(stake_is_sufficient(u64::MAX));
}
