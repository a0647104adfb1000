use reestream::ffmpeg::command::{FfmpegCommand, HardwareAccel, InputSource, OutputDestination};
use reestream::ffmpeg::error::FfmpegError;
use reestream::ffmpeg::process::{FfmpegSupervisor, RestartDecision};
use reestream::ffmpeg::processing::{ResizeConfig, ThumbnailConfig, TranscodeProfile, WatermarkPosition};
use reestream::ffmpeg::resolver::BinaryResolver;

fn rtmp_input() -> InputSource {
    InputSource::Rtmp { url: "rtmp://0.0.0.0:1935/live".into() }
}

#[test]
fn test_build_passthrough_command() {
    let cmd = FfmpegCommand::new("ffmpeg".to_string(), rtmp_input()).passthrough_to_rtmp("rtmp://live.twitch.tv/app/key");

    let args = cmd.build_args();
    assert!(args.contains(&"-i".to_string()));
    assert!(args.contains(&"-c".to_string()));
    assert!(args.contains(&"copy".to_string()));
    assert!(args.contains(&"-f".to_string()));
    assert!(args.contains(&"flv".to_string()));
    assert!(args.contains(&"rtmp://live.twitch.tv/app/key".to_string()));
}

#[test]
fn test_build_hls_command() {
    let cmd = FfmpegCommand::new("ffmpeg".to_string(), rtmp_input())
        .to_hls("/tmp/segments".to_string(), "/tmp/playlist.m3u8".to_string());

    let args = cmd.build_args();
    assert!(args.contains(&"-f".to_string()));
    assert!(args.contains(&"hls".to_string()));
    assert!(args.contains(&"-hls_time".to_string()));
    assert!(args.contains(&"2".to_string()));
}

#[test]
fn test_build_transcode_command() {
    let cmd = FfmpegCommand::new("ffmpeg".to_string(), rtmp_input()).transcode(
        OutputDestination::File { path: "/tmp/output.mp4".to_string() },
        "1280x720",
        "2500k",
    );

    let args = cmd.build_args();
    assert!(args.contains(&"-c:v".to_string()));
    assert!(args.contains(&"libx264".to_string()));
    assert!(args.contains(&"-b:v".to_string()));
    assert!(args.contains(&"2500k".to_string()));
}

#[test]
fn test_build_hwaccel_nvenc() {
    let cmd = FfmpegCommand::new("ffmpeg".to_string(), rtmp_input())
        .hw_accel(HardwareAccel::Nvenc)
        .passthrough_to_rtmp("rtmp://output/app");

    let args = cmd.build_args();
    assert!(args.contains(&"-hwaccel".to_string()));
    assert!(args.contains(&"cuda".to_string()));
}

#[test]
fn test_build_hwaccel_vaapi() {
    let cmd = FfmpegCommand::new("ffmpeg".to_string(), rtmp_input())
        .hw_accel(HardwareAccel::Vaapi)
        .passthrough_to_rtmp("rtmp://output/app");

    let args = cmd.build_args();
    assert!(args.contains(&"-vaapi_device".to_string()));
    assert!(args.contains(&"/dev/dri/renderD128".to_string()));
}

#[test]
fn test_build_multiple_outputs() {
    let cmd = FfmpegCommand::new("ffmpeg".to_string(), rtmp_input())
        .passthrough_to_rtmp("rtmp://twitch.tv/app/key1")
        .passthrough_to_rtmp("rtmp://youtube.com/live2/key2");

    let args = cmd.build_args();
    assert!(args.contains(&"rtmp://twitch.tv/app/key1".to_string()));
    assert!(args.contains(&"rtmp://youtube.com/live2/key2".to_string()));
}

#[test]
fn test_build_global_args() {
    let cmd = FfmpegCommand::new("ffmpeg".to_string(), rtmp_input())
        .global_arg("-loglevel")
        .global_arg("warning")
        .passthrough_to_rtmp("rtmp://output/app");

    let args = cmd.build_args();
    assert_eq!(args[0], "-loglevel");
    assert_eq!(args[1], "warning");
}

#[test]
fn test_input_source_variants() {
    let rtmp = InputSource::Rtmp { url: "rtmp://test".into() };
    let file = InputSource::File { path: "/tmp/test.mp4".to_string() };
    let pipe = InputSource::Pipe;

    assert!(matches!(rtmp, InputSource::Rtmp { .. }));
    assert!(matches!(file, InputSource::File { .. }));
    assert!(matches!(pipe, InputSource::Pipe));
}

#[test]
fn test_output_destination_variants() {
    let hls = OutputDestination::Hls {
        segment_path: "/tmp/seg".to_string(),
        playlist_path: "/tmp/playlist.m3u8".to_string(),
    };
    let file = OutputDestination::File { path: "/tmp/out.mp4".to_string() };
    let rtmp = OutputDestination::Rtmp { url: "rtmp://test".into() };
    let flv = OutputDestination::FlvHttp { endpoint: "/stream.flv".into() };
    let pipe = OutputDestination::Pipe;

    assert!(matches!(hls, OutputDestination::Hls { .. }));
    assert!(matches!(file, OutputDestination::File { .. }));
    assert!(matches!(rtmp, OutputDestination::Rtmp { .. }));
    assert!(matches!(flv, OutputDestination::FlvHttp { .. }));
    assert!(matches!(pipe, OutputDestination::Pipe));
}

#[test]
fn test_display_binary_not_found() {
    let err = FfmpegError::BinaryNotFound("not in PATH".into());
    assert!(err.message().contains("not found"));
}

#[test]
fn test_display_download_failed() {
    let err = FfmpegError::DownloadFailed("404".into());
    assert!(err.message().contains("download failed"));
}

#[test]
fn test_display_checksum_mismatch() {
    let err = FfmpegError::ChecksumMismatch { expected: "abc".into(), actual: "def".into() };
    assert!(err.message().contains("Checksum mismatch"));
}

#[test]
fn test_display_process_failed() {
    let err = FfmpegError::ProcessFailed { exit_code: 1, stderr: "error".into() };
    assert!(err.message().contains("exited with code 1"));
}

#[test]
fn test_from_io_error() {
    let io = std::io::Error::new(std::io::ErrorKind::NotFound, "test");
    let err: FfmpegError = io.into();
    assert!(matches!(err, FfmpegError::IoError(_)));
}

#[test]
fn test_error_trait() {
    let err = FfmpegError::InvalidArgument("bad".into());
    assert!(err.message().contains("Invalid"));
}

#[test]
fn test_supervisor_config() {
    let supervisor = FfmpegSupervisor::new("ffmpeg".to_string(), vec!["-i".into(), "test".into()])
        .max_restarts(3)
        .restart_delay(1000);

    assert_eq!(supervisor.max_restarts, 3);
    assert_eq!(supervisor.restart_delay_ms, 1000);
}

#[test]
fn test_supervisor_default_config() {
    let supervisor = FfmpegSupervisor::new("ffmpeg".to_string(), vec![]);
    assert_eq!(supervisor.max_restarts, 5);
    assert_eq!(supervisor.restart_delay_ms, 2000);
}

#[test]
fn test_transcode_profile_default() {
    let p = TranscodeProfile::new("720p", "1280x720", "2500k", "128k");
    assert_eq!(p.name, "720p");
    assert_eq!(p.resolution, "1280x720");
    assert_eq!(p.codec, "libx264");
}

#[test]
fn test_transcode_profile_args() {
    let p = TranscodeProfile::new("480p", "854x480", "1000k", "96k");
    let args = p.to_ffmpeg_args("rtmp://input", "rtmp://output");
    assert!(args.contains(&"-c:v".to_string()));
    assert!(args.contains(&"libx264".to_string()));
    assert!(args.iter().any(|a| a.contains("854x480")));
}

#[test]
fn test_watermark_position_overlay() {
    assert_eq!(WatermarkPosition::TopLeft.to_overlay(10), "10:10");
    assert_eq!(WatermarkPosition::Center.to_overlay(10), "(main_w-overlay_w)/2:(main_h-overlay_h)/2");
}

#[test]
fn test_thumbnail_config_default() {
    let config = ThumbnailConfig::default();
    assert_eq!(config.interval_secs, 10);
    assert_eq!(config.width, 320);
}

#[test]
fn test_thumbnail_ffmpeg_args() {
    let config = ThumbnailConfig::default();
    let args = config.to_ffmpeg_args("rtmp://input");
    assert!(args.contains(&"-vf".to_string()));
    assert!(args.iter().any(|a| a.contains("thumb_")));
}

#[test]
fn test_resize_config_filter() {
    let resize = ResizeConfig { width: 1280, height: 720, maintain_aspect: true };
    assert!(resize.to_filter().contains("force_original_aspect_ratio"));

    let resize2 = ResizeConfig { width: 1920, height: 1080, maintain_aspect: false };
    assert!(!resize2.to_filter().contains("force_original_aspect_ratio"));
}

#[test]
fn test_binary_resolver_paths() {
    let resolver = BinaryResolver::new("/tmp/reestream".to_string(), false);
    assert_eq!(resolver.bin_dir(), "/tmp/reestream/bin");
    assert!(resolver.ffmpeg_path().contains("ffmpeg"));
    assert!(!resolver.ffmpeg_path().contains(".exe"));
}

#[test]
fn test_custom_path() {
    let resolver = BinaryResolver::new("/tmp".to_string(), false).with_custom_path("/usr/bin/ffmpeg".to_string());
    assert_eq!(resolver.custom_path, Some("/usr/bin/ffmpeg".to_string()));
}

#[test]
fn supervisor_gives_up_after_its_restarts() {
    let sup = FfmpegSupervisor::new("ffmpeg".to_string(), vec![]).max_restarts(1).restart_delay(10);
    assert_eq!(sup.after_exit(0, true, Some(0)), RestartDecision::Finished);
    assert_eq!(sup.after_exit(0, false, Some(1)), RestartDecision::Restart { restarts: 1, delay_ms: 10 });
    assert_eq!(
        sup.after_exit(1, false, None),
        RestartDecision::GiveUp { exit_code: -1, stderr: "Max restarts exceeded".to_string() }
    );
}
