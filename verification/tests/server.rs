use reestream::server::api::api_routes;
use reestream::server::api_v1::parse_stream_type;
use reestream::server::dashboard::mime_guess;
use reestream::server::dvr::DvrConfig;
use reestream::server::hls::HlsConfig;
use reestream::server::recording::{RecordingConfig, RecordingFormat};
use reestream::server::recording_ext::{FormatConvertConfig, RotationConfig, S3Config, ScheduleConfig};
use reestream::server::restream::{StreamType, platform_catalog};
use reestream::server::stream::StreamStatus;
use reestream::server::webhook::{WebhookConfig, WebhookEvent, WebhookSender};
use reestream::server::webrtc::{AbrConfig, AbrVariant, WebRtcConfig, generate_master_playlist};

#[test]
fn test_api_routes_count() {
    assert_eq!(api_routes().len(), 19);
}

#[test]
fn test_platform_catalog_is_non_empty() {
    assert!(platform_catalog().len() >= 10);
}

#[test]
fn test_stream_type_parser() {
    assert!(matches!(parse_stream_type(Some("studio")), Ok(StreamType::Studio)));
    assert!(parse_stream_type(Some("unknown")).is_err());
}

#[test]
fn test_mime_guess_js() {
    assert_eq!(mime_guess("app.js"), "application/javascript");
}

#[test]
fn test_mime_guess_css() {
    assert_eq!(mime_guess("style.css"), "text/css");
}

#[test]
fn test_mime_guess_svg() {
    assert_eq!(mime_guess("icon.svg"), "image/svg+xml");
}

#[test]
fn test_mime_guess_unknown() {
    assert_eq!(mime_guess("file.xyz"), "application/octet-stream");
}

#[test]
fn test_dvr_config_default() {
    let config = DvrConfig::default();
    assert!(!config.enabled);
    assert_eq!(config.buffer_duration_secs, 7200);
    assert_eq!(config.segment_duration_secs, 6);
}

#[test]
fn test_hls_config_default() {
    let config = HlsConfig::default();
    assert_eq!(config.segment_duration, 2);
    assert_eq!(config.max_segments, 10);
    assert_eq!(config.http_port, 8080);
}

#[test]
fn test_recording_config_default() {
    let config = RecordingConfig::default();
    assert!(!config.enabled);
    assert_eq!(config.format, RecordingFormat::Mp4);
}

#[test]
fn test_recording_format_extension() {
    assert_eq!(RecordingFormat::Mp4.extension(), "mp4");
    assert_eq!(RecordingFormat::Flv.extension(), "flv");
    assert_eq!(RecordingFormat::Mkv.extension(), "mkv");
    assert_eq!(RecordingFormat::Ts.extension(), "ts");
}

#[test]
fn test_recording_format_ffmpeg() {
    assert_eq!(RecordingFormat::Mp4.ffmpeg_format(), "mp4");
    assert_eq!(RecordingFormat::Flv.ffmpeg_format(), "flv");
    assert_eq!(RecordingFormat::Mkv.ffmpeg_format(), "matroska");
    assert_eq!(RecordingFormat::Ts.ffmpeg_format(), "mpegts");
}

#[test]
fn test_rotation_config_default() {
    let config = RotationConfig::default();
    assert!(!config.enabled);
    assert_eq!(config.max_duration_secs, 3600);
    assert_eq!(config.max_files, 10);
}

#[test]
fn test_s3_config_default() {
    let config = S3Config::default();
    assert!(!config.enabled);
    assert_eq!(config.region, "us-east-1");
}

#[test]
fn test_s3_config_validate_empty_bucket() {
    let config = S3Config::default();
    assert!(config.validate().is_err());
}

#[test]
fn test_s3_config_validate_ok() {
    let config = S3Config {
        bucket: "my-bucket".into(),
        access_key: "AKIA...".into(),
        secret_key: "secret".into(),
        ..Default::default()
    };
    assert!(config.validate().is_ok());
}

#[test]
fn test_format_convert_default() {
    let config = FormatConvertConfig::default();
    assert_eq!(config.input_format, "flv");
    assert_eq!(config.output_format, "mp4");
    assert!(!config.delete_original);
}

#[test]
fn test_format_convert_ffmpeg_args() {
    let config = FormatConvertConfig::default();
    let args = config.to_ffmpeg_args("/tmp/input.flv", "/tmp/output.mp4");
    assert!(args.contains(&"-c".to_string()));
    assert!(args.contains(&"copy".to_string()));
    assert!(args.contains(&"-movflags".to_string()));
}

#[test]
fn test_schedule_config_default() {
    let config = ScheduleConfig::default();
    assert!(!config.enabled);
    assert!(config.schedules.is_empty());
}

#[test]
fn test_stream_status_default() {
    assert_eq!(StreamStatus::default(), StreamStatus::Idle);
}

#[test]
fn test_webhook_config_default() {
    let config = WebhookConfig::default();
    assert!(!config.enabled);
    assert!(config.url.is_empty());
    assert_eq!(config.timeout_secs, 10);
    assert!(config.on_stream_start);
    assert!(config.on_stream_end);
    assert!(config.on_stream_error);
    assert!(!config.on_viewer_connect);
    assert!(!config.on_viewer_disconnect);
}

#[test]
fn test_webhook_sender_should_send_disabled() {
    let config = WebhookConfig::default();
    let sender = WebhookSender::new(config);
    assert!(!sender.should_send(&WebhookEvent::StreamStart));
}

#[test]
fn test_webhook_sender_should_send_enabled() {
    let config = WebhookConfig { enabled: true, url: "http://example.com".into(), ..Default::default() };
    let sender = WebhookSender::new(config);
    assert!(sender.should_send(&WebhookEvent::StreamStart));
    assert!(sender.should_send(&WebhookEvent::StreamEnd));
    assert!(sender.should_send(&WebhookEvent::StreamError));
    assert!(!sender.should_send(&WebhookEvent::ViewerConnect));
}

#[test]
fn test_webrtc_config_default() {
    let config = WebRtcConfig::default();
    assert!(!config.enabled);
    assert_eq!(config.port, 8443);
    assert_eq!(config.ice_servers.len(), 1);
}

#[test]
fn test_abr_config_default() {
    let config = AbrConfig::default();
    assert!(!config.enabled);
    assert_eq!(config.variants.len(), 4);
}

#[test]
fn test_abr_variant_ffmpeg_args() {
    let variant = AbrVariant::new("720p", 1280, 720, 2500, 30);
    let args = variant.to_ffmpeg_args("rtmp://input", "/tmp/hls");
    assert!(args.iter().any(|a| a.contains("1280x720")));
    assert!(args.contains(&"2500k".to_string()));
    assert!(args.iter().any(|a| a.contains("720p.m3u8")));
}

#[test]
fn test_master_playlist_generation() {
    let variants = vec![AbrVariant::new("1080p", 1920, 1080, 5000, 60), AbrVariant::new("720p", 1280, 720, 2500, 30)];
    let playlist = generate_master_playlist(&variants, "/hls");
    assert!(playlist.contains("#EXTM3U"));
    assert!(playlist.contains("BANDWIDTH=5000000"));
    assert!(playlist.contains("1080p.m3u8"));
    assert!(playlist.contains("720p.m3u8"));
}
