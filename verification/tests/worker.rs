use stellar_aid::worker::{logging_settings, WorkerConfig};

#[test]
fn test_default_config() {
    let config = WorkerConfig::default();
    assert_eq!(config.network, "testnet");
    assert_eq!(config.poll_interval, 30);
}

#[test]
fn default_config_points_at_testnet_rpc() {
    let config = WorkerConfig::default();
    assert_eq!(config.rpc_url, "https://soroban-testnet.stellar.org/");
}

#[test]
fn logging_settings_follow_the_environment() {
    let defaults = logging_settings(None, None);
    assert_eq!(defaults.log_level, "info");
    assert_eq!(defaults.filter, "worker=info");
    assert!(!defaults.production);
    let prod = logging_settings(Some("debug".to_string()), Some("production".to_string()));
    assert_eq!(prod.filter, "worker=debug");
    assert!(prod.production);
    assert!(!logging_settings(None, Some("staging".to_string())).production);
}
