use paging_core::config::Config;

#[test]
fn test_default_config() {
    let config = Config::default();
    assert_eq!(config.network.default_port, 5004);
    assert_eq!(config.network.default_ttl, 32);
    assert_eq!(config.audio.buffer_size_ms, 100);
    assert_eq!(config.monitor.idle_timeout_secs, 5);
}

#[test]
fn test_config_reset_restores_defaults() {
    let mut config = Config::default();
    config.network.default_port = 9999;
    config.monitored_ranges.push("224.0.1.1:5004".to_string());
    config.reset();
    assert_eq!(config.network.default_port, 5004);
    assert!(config.monitored_ranges.is_empty());
}
