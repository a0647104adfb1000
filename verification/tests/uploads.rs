use reestream::relay::publisher::{ForwardStep, forward_step};
use reestream::server::hls::{HlsConfig, generate_playlist, is_segment_file, join_path, transmuxer_args};
use reestream::server::requests::{check_new_webhook, check_webhook_update};
use reestream::server::uploads::{DEFAULT_UPLOAD_LIMIT, Upload, check_storage_metadata, parse_labels, upload_limit};

#[test]
fn upload_limit_reads_positive_numbers_only() {
    assert_eq!(upload_limit(None), DEFAULT_UPLOAD_LIMIT);
    assert_eq!(upload_limit(Some("1024")), 1024);
    assert_eq!(upload_limit(Some("0")), DEFAULT_UPLOAD_LIMIT);
    assert_eq!(upload_limit(Some("lots")), DEFAULT_UPLOAD_LIMIT);
    assert_eq!(DEFAULT_UPLOAD_LIMIT, 2 * 1024 * 1024 * 1024);
}

#[test]
fn labels_are_trimmed_and_blank_ones_dropped() {
    assert_eq!(parse_labels(" news , ,sports,"), vec!["news".to_string(), "sports".to_string()]);
    assert!(parse_labels("").is_empty());
}

#[test]
fn upload_collects_its_parts() {
    let mut upload = Upload::new();
    assert!(upload.file_part(Some("video/mp4".to_string()), Some("clip.mp4")).is_ok());
    assert!(upload.file_chunk(10, 100).is_ok());
    assert!(upload.file_chunk(20, 100).is_ok());
    upload.labels_part("a,b");
    let (name, mime, size, labels) = upload.finish().unwrap();
    assert_eq!(name, "clip.mp4");
    assert_eq!(mime, "video/mp4");
    assert_eq!(size, 30);
    assert_eq!(labels, vec!["a".to_string(), "b".to_string()]);
}

#[test]
fn upload_name_field_wins_over_file_name() {
    let mut upload = Upload::new();
    upload.name_part("chosen.mp4".to_string());
    assert!(upload.file_part(None, Some("other.mp4")).is_ok());
    let (name, mime, _, _) = upload.finish().unwrap();
    assert_eq!(name, "chosen.mp4");
    assert_eq!(mime, "application/octet-stream");
}

#[test]
fn upload_refuses_a_second_file() {
    let mut upload = Upload::new();
    assert!(upload.file_part(None, Some("a.mp4")).is_ok());
    let err = upload.file_part(None, Some("b.mp4")).unwrap_err();
    assert_eq!(err.status, 400);
    assert_eq!(err.message, "only one file field is supported");
}

#[test]
fn upload_over_the_limit_is_refused() {
    let mut upload = Upload::new();
    assert!(upload.file_part(None, Some("a.mp4")).is_ok());
    let err = upload.file_chunk(101, 100).unwrap_err();
    assert_eq!(err.status, 413);
    assert_eq!(err.code, "upload_too_large");
    assert_eq!(err.message, "file exceeds the 100 byte upload limit");
}

#[test]
fn upload_without_a_file_is_refused() {
    let mut upload = Upload::new();
    upload.name_part("x.mp4".to_string());
    let err = upload.finish().unwrap_err();
    assert_eq!(err.status, 400);
    assert_eq!(err.message, "multipart field `file` is required");
}

#[test]
fn storage_metadata_checks() {
    assert!(check_storage_metadata("clip", Some(5), 10, None, false).is_ok());
    let blank = check_storage_metadata("  ", Some(5), 10, None, false).unwrap_err();
    assert_eq!(blank.message, "name is required");
    let large = check_storage_metadata("clip", Some(11), 10, None, false).unwrap_err();
    assert_eq!(large.status, 413);
    let outside = check_storage_metadata("clip", None, 10, Some("/etc/passwd"), false).unwrap_err();
    assert_eq!(outside.message, "path must point to an existing file inside the storage root");
    assert!(check_storage_metadata("clip", None, 10, Some("media/a.mp4"), true).is_ok());
}

#[test]
fn playlist_lists_segments_after_the_header() {
    let config = HlsConfig::default();
    let entries = vec![
        ("2.000".to_string(), "segment_0.ts".to_string()),
        ("1.500".to_string(), "segment_1.ts".to_string()),
    ];
    let live = generate_playlist(&config, &entries, true);
    assert_eq!(
        live,
        "#EXTM3U\n#EXT-X-VERSION:3\n#EXT-X-TARGETDURATION:2\n#EXT-X-MEDIA-SEQUENCE:0\n\
         #EXTINF:2.000,\nsegment_0.ts\n#EXTINF:1.500,\nsegment_1.ts\n"
    );
    let ended = generate_playlist(&config, &Vec::new(), false);
    assert_eq!(
        ended,
        "#EXTM3U\n#EXT-X-VERSION:3\n#EXT-X-TARGETDURATION:2\n#EXT-X-MEDIA-SEQUENCE:0\n#EXT-X-ENDLIST\n"
    );
}

#[test]
fn webhook_urls_are_checked() {
    assert!(check_new_webhook(Some("https://hooks.example.com/in")).is_ok());
    assert_eq!(check_new_webhook(None).unwrap_err().message, "url is required");
    assert_eq!(
        check_new_webhook(Some("ftp://example.com")).unwrap_err().message,
        "url must use http:// or https:// and include a host"
    );
    assert_eq!(
        check_new_webhook(Some("http://127.0.0.1/hook")).unwrap_err().message,
        "url cannot target a private address"
    );
    assert!(check_webhook_update(None).is_ok());
    assert_eq!(
        check_webhook_update(Some("not a url")).unwrap_err().message,
        "url must be a valid HTTP(S) URL"
    );
}

#[test]
fn transmuxer_writes_segments_into_its_directory() {
    let args = transmuxer_args("/tmp/hls", "/tmp/hls/stream.m3u8");
    assert_eq!(args.len(), 20);
    assert_eq!(args[0], "-hide_banner");
    assert_eq!(args[6], "pipe:0");
    assert_eq!(args[16], "delete_segments+append_list");
    assert_eq!(args[18], "/tmp/hls/seg%03d.ts");
    assert_eq!(args[19], "/tmp/hls/stream.m3u8");
    assert_eq!(join_path("/tmp/hls/", "a.ts"), "/tmp/hls/a.ts");
    assert_eq!(join_path("", "a.ts"), "a.ts");
}

#[test]
fn push_clients_reconnect_publish_or_buffer() {
    assert_eq!(forward_step(true, true), ForwardStep::Reconnect);
    assert_eq!(forward_step(false, true), ForwardStep::Publish);
    assert_eq!(forward_step(false, false), ForwardStep::Buffer);
}

#[test]
fn only_ts_files_are_old_segments() {
    assert!(is_segment_file("seg000.ts"));
    assert!(is_segment_file("a.b.ts"));
    assert!(!is_segment_file(".ts"));
    assert!(!is_segment_file("stream.m3u8"));
    assert!(!is_segment_file("seg.TS"));
}
