use reestream::srt::bridge::{BridgeConfig, BridgeStats};
use reestream::srt::config::SrtConfig;
use reestream::srt::error::SrtError;

#[test]
fn test_bridge_config_default() {
    let config = BridgeConfig::default();
    assert!(!config.enabled);
    assert_eq!(config.srt_listen_port, 3000);
    assert!(config.rtmp_forward_url.is_none());
    assert!(config.hls_output);
}

#[test]
fn test_bridge_stats_default() {
    let stats = BridgeStats::default();
    let snap = stats.to_snapshot();
    assert_eq!(snap.packets_received, 0);
    assert!(!snap.active);
}

#[test]
fn test_default_config() {
    let config = SrtConfig::default();
    assert!(!config.enabled);
    assert_eq!(config.listen_addr, "0.0.0.0");
    assert_eq!(config.listen_port, 3000);
    assert_eq!(config.latency_ms, 200);
    assert_eq!(config.max_bandwidth, -1);
    assert!(config.passphrase.is_none());
}

#[test]
fn test_validate_ok() {
    let config = SrtConfig::default();
    assert!(config.validate().is_ok());
}

#[test]
fn test_validate_zero_port() {
    let config = SrtConfig { listen_port: 0, ..Default::default() };
    assert!(config.validate().is_err());
}

#[test]
fn test_validate_empty_addr() {
    let config = SrtConfig { listen_addr: "".into(), ..Default::default() };
    assert!(config.validate().is_err());
}

#[test]
fn test_validate_zero_latency() {
    let config = SrtConfig { latency_ms: 0, ..Default::default() };
    assert!(config.validate().is_err());
}

#[test]
fn test_validate_short_passphrase() {
    let config = SrtConfig { passphrase: Some("short".into()), ..Default::default() };
    assert!(config.validate().is_err());
}

#[test]
fn test_validate_enabled_requires_passphrase() {
    let config = SrtConfig { enabled: true, ..Default::default() };
    assert!(config.validate().is_err());
}

#[test]
fn test_validate_valid_passphrase() {
    let config = SrtConfig { passphrase: Some("longenoughpassphrase".into()), ..Default::default() };
    assert!(config.validate().is_ok());
}

#[test]
fn test_validate_invalid_pbkey_len() {
    let config = SrtConfig { pbkey_len: Some(12), ..Default::default() };
    assert!(config.validate().is_err());
}

#[test]
fn test_validate_valid_pbkey_len() {
    for len in [16, 24, 32] {
        let config = SrtConfig { pbkey_len: Some(len), ..Default::default() };
        assert!(config.validate().is_ok(), "pbkey_len={len} should be valid");
    }
}

#[test]
fn test_display_bind_failed() {
    let err = SrtError::BindFailed("port in use".into());
    assert!(err.message().contains("bind failed"));
}

#[test]
fn test_display_connection_failed() {
    let err = SrtError::ConnectionFailed("refused".into());
    assert!(err.message().contains("connection failed"));
}

#[test]
fn test_display_send_failed() {
    let err = SrtError::SendFailed("buffer full".into());
    assert!(err.message().contains("send failed"));
}

#[test]
fn test_display_receive_failed() {
    let err = SrtError::ReceiveFailed("timeout".into());
    assert!(err.message().contains("receive failed"));
}

#[test]
fn error_test_display_invalid_config() {
    let err = SrtError::InvalidConfig("bad latency".into());
    assert!(err.message().contains("Invalid SRT config"));
}

#[test]
fn error_test_display_timeout() {
    let err = SrtError::Timeout("30s".into());
    assert!(err.message().contains("timeout"));
}

#[test]
fn error_test_from_io_error() {
    let io = std::io::Error::new(std::io::ErrorKind::NotFound, "test");
    let err: SrtError = io.into();
    assert!(matches!(err, SrtError::IoError(_)));
}

#[test]
fn error_test_error_trait() {
    let err = SrtError::BindFailed("test".into());
    assert!(err.message().contains("bind failed"));
}
