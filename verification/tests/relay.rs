use reestream::relay::config::Orientation;
use reestream::relay::pipeline::{InputType, PipelineStatus, detect_input_type};
use reestream::relay::provider::{OAuth2Config, StreamKey, StreamKeyError};
use reestream::relay::rtsp::{RtspConfig, RtspInput};
use reestream::relay::security::{AcmeConfig, IpFilter, SecurityConfig};

#[test]
fn test_orientation_clone_copy() {
    let o = Orientation::Horizontal;
    let o2 = o;
    assert_eq!(o, o2);
}

#[test]
fn test_pipeline_status_display() {
    assert_eq!(PipelineStatus::Idle.to_text(), "idle");
    assert_eq!(PipelineStatus::Running.to_text(), "running");
    assert_eq!(PipelineStatus::Error("test".into()).to_text(), "error: test");
    assert_eq!(PipelineStatus::Stopped.to_text(), "stopped");
}

#[test]
fn test_pipeline_status_default() {
    assert_eq!(PipelineStatus::default(), PipelineStatus::Idle);
}

#[test]
fn test_detect_input_type_rtmp() {
    assert!(matches!(detect_input_type("rtmp://live.twitch.tv/app"), InputType::Rtmp));
}

#[test]
fn test_detect_input_type_rtmps() {
    assert!(matches!(
        detect_input_type("rtmps://live-api-s.facebook.com:443/rtmp/"),
        InputType::Rtmp
    ));
}

#[test]
fn test_detect_input_type_srt() {
    assert!(matches!(detect_input_type("srt://0.0.0.0:3000"), InputType::Srt));
}

#[test]
fn test_detect_input_type_file() {
    assert!(matches!(detect_input_type("/tmp/video.mp4"), InputType::File));
}

#[test]
fn test_oauth2_config_fields() {
    let config = OAuth2Config {
        client_id: "my-id".to_string(),
        client_secret: "my-secret".to_string(),
        redirect_uri: "http://localhost/callback".to_string(),
        access_token: Some("token123".to_string()),
    };
    assert_eq!(config.client_id, "my-id");
    assert_eq!(config.client_secret, "my-secret");
    assert_eq!(config.redirect_uri, "http://localhost/callback");
    assert_eq!(config.access_token.as_deref(), Some("token123"));
}

#[test]
fn test_oauth2_config_no_token() {
    let config = OAuth2Config {
        client_id: "id".to_string(),
        client_secret: "secret".to_string(),
        redirect_uri: "http://localhost".to_string(),
        access_token: None,
    };
    assert!(config.access_token.is_none());
}

#[test]
fn test_stream_key_error_display() {
    let err = StreamKeyError::OAuthError("invalid_grant".into());
    assert_eq!(err.message(), "OAuth Error: invalid_grant");

    let err = StreamKeyError::ApiError("rate limited".into());
    assert_eq!(err.message(), "API Error: rate limited");

    let err = StreamKeyError::ParseError("bad json".into());
    assert_eq!(err.message(), "Parse Error: bad json");

    let err = StreamKeyError::NetworkError("connection refused".into());
    assert_eq!(err.message(), "Network Error: connection refused");
}

#[test]
fn test_stream_key_error_is_std_error() {
    let err = StreamKeyError::OAuthError("test".into());
    assert!(err.message().contains("OAuth Error"));
}

#[test]
fn test_stream_key_debug() {
    let key = StreamKey { key: "debug".to_string(), rtmp_url: "rtmp://debug.com".to_string() };
    let debug_str = format!("{:?}", key);
    assert!(debug_str.contains("StreamKey"));
    assert!(debug_str.contains("debug"));
}

#[test]
fn test_rtsp_config_default() {
    let config = RtspConfig::default();
    assert!(!config.enabled);
    assert_eq!(config.listen_port, 8554);
}

#[test]
fn test_rtsp_config_validate() {
    let config = RtspConfig::default();
    assert!(config.validate().is_ok());

    let bad = RtspConfig { listen_port: 0, ..Default::default() };
    assert!(bad.validate().is_err());
}

#[test]
fn test_rtsp_input_build_args() {
    let input = RtspInput::new(RtspConfig::default());
    let args = input.build_ffmpeg_input_args("rtsp://camera:554/stream");
    assert!(args.contains(&"-rtsp_transport".to_string()));
    assert!(args.contains(&"tcp".to_string()));
    assert!(args.contains(&"rtsp://camera:554/stream".to_string()));
}

#[test]
fn test_rtsp_input_restream_args() {
    let input = RtspInput::new(RtspConfig::default());
    let args = input.build_restream_args("rtsp://cam:554/live", "rtmp://server/live/key");
    assert!(args.contains(&"-c".to_string()));
    assert!(args.contains(&"copy".to_string()));
    assert!(args.contains(&"rtmp://server/live/key".to_string()));
}

#[test]
fn test_security_config_default() {
    let config = SecurityConfig::default();
    assert!(config.api_token.is_none());
    assert!(config.ip_allowlist.is_empty());
    assert_eq!(config.max_publishers, 10);
}

#[test]
fn test_api_token_validation() {
    let config = SecurityConfig { api_token: Some("secret123".into()), ..Default::default() };
    let filter = IpFilter::new(config);
    assert!(filter.validate_api_token("secret123"));
    assert!(!filter.validate_api_token("wrong"));
    assert!(filter.has_api_token());
}

#[test]
fn test_api_token_none() {
    let filter = IpFilter::new(SecurityConfig::default());
    assert!(filter.validate_api_token("anything"));
    assert!(!filter.has_api_token());
}

#[test]
fn test_acme_config_default() {
    let config = AcmeConfig::default();
    assert!(!config.enabled);
    assert!(config.validate().is_err());
}

#[test]
fn test_acme_config_validate() {
    let config = AcmeConfig {
        enabled: true,
        domain: "example.com".into(),
        email: "admin@example.com".into(),
        ..Default::default()
    };
    assert!(config.validate().is_ok());
}
