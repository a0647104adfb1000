use reestream::server::api::ApiResponse;
use reestream::server::api_v1::{is_private_host, parse_http_url, validate_media_input_url};
use reestream::server::databus::DataBus;
use reestream::server::dvr::{DvrBuffer, DvrConfig};
use reestream::server::flv::{build_flv_header, build_flv_tag};
use reestream::srt::config::SrtConfig;
use reestream::weburl::UrlParts;

#[test]
fn api_test_api_response_ok() {
    let resp = ApiResponse::ok("test");
    assert!(resp.success);
    assert_eq!(resp.data.unwrap(), "test");
    assert!(resp.error.is_none());
}

#[test]
fn api_test_api_response_err() {
    let resp: ApiResponse<()> = ApiResponse::err("something failed");
    assert!(!resp.success);
    assert!(resp.data.is_none());
    assert_eq!(resp.error.unwrap(), "something failed");
}

#[test]
fn http_test_api_response_ok() {
    let resp = ApiResponse::ok("test");
    assert!(resp.success);
    assert_eq!(resp.data.unwrap(), "test");
}

#[test]
fn http_test_api_response_err() {
    let resp: ApiResponse<()> = ApiResponse::err("fail");
    assert!(!resp.success);
    assert_eq!(resp.error.unwrap(), "fail");
}

#[test]
fn test_data_bus_creation() {
    let _bus = DataBus::new();
}

#[test]
fn test_data_bus_allows_one_active_stream_and_releases_it() {
    let mut bus = DataBus::new();

    assert!(bus.try_activate_stream("first"));
    assert!(!bus.try_activate_stream("second"));
    assert!(bus.publish("second", b"ignored".to_vec(), true, 0).is_none());
    let packet = bus.publish("first", b"accepted".to_vec(), true, 1).unwrap();
    assert_eq!(packet.stream_id, "first");
    assert_eq!(packet.data, b"accepted".to_vec());

    bus.deactivate_stream("first");
    assert!(bus.try_activate_stream("second"));
}

#[test]
fn data_bus_holder_may_claim_again_and_others_cannot_release() {
    let mut bus = DataBus::new();
    assert!(bus.try_activate_stream("a"));
    assert!(bus.try_activate_stream("a"));
    bus.deactivate_stream("b");
    assert!(!bus.try_activate_stream("b"));
    let p = bus.publish("a", vec![1, 2], false, 7).unwrap();
    assert!(!p.is_video);
    assert_eq!(p.timestamp_ms, 7);
}

#[test]
fn test_dvr_ffmpeg_args() {
    let buffer: DvrBuffer<u64> = DvrBuffer::new(DvrConfig::default());
    let args = buffer.build_ffmpeg_dvr_args("rtmp://input");
    assert!(args.contains(&"-f".to_string()));
    assert!(args.contains(&"segment".to_string()));
    assert!(args.iter().any(|a| a.contains("dvr_")));
}

#[test]
fn dvr_args_in_full() {
    let buffer: DvrBuffer<u64> = DvrBuffer::new(DvrConfig::default());
    let args = buffer.build_ffmpeg_dvr_args("rtmp://input");
    assert_eq!(
        args,
        vec![
            "-i",
            "rtmp://input",
            "-c",
            "copy",
            "-f",
            "segment",
            "-segment_time",
            "6",
            "-segment_format",
            "mpegts",
            "-strftime",
            "1",
            "/tmp/reestream/dvr/dvr_%Y%m%d_%H%M%S.ts",
        ]
    );
}

#[test]
fn test_flv_header() {
    let header = build_flv_header();
    assert_eq!(header.len(), 13);
    assert_eq!(&header[..3], b"FLV");
    assert_eq!(header[3], 1);
}

#[test]
fn test_flv_tag_video() {
    let data = vec![0x17, 0x00, 0x00, 0x00, 0x00];
    let tag = build_flv_tag(0x09, 1000, &data);
    assert_eq!(tag[0], 0x09);
    assert!(tag.len() > 11 + data.len());
}

#[test]
fn test_flv_tag_audio() {
    let data = vec![0xAF, 0x00, 0x12, 0x10];
    let tag = build_flv_tag(0x08, 500, &data);
    assert_eq!(tag[0], 0x08);
}

#[test]
fn test_flv_header_signature() {
    let header = build_flv_header();
    assert_eq!(header[0], b'F');
    assert_eq!(header[1], b'L');
    assert_eq!(header[2], b'V');
}

#[test]
fn test_flv_tag_timestamp_encoding() {
    let tag = build_flv_tag(0x09, 0x01020304, &[0xAA]);
    assert_eq!(tag[4], 0x02);
    assert_eq!(tag[5], 0x03);
    assert_eq!(tag[6], 0x04);
    assert_eq!(tag[7], 0x01);
}

#[test]
fn flv_tag_bytes_in_full() {
    let tag = build_flv_tag(0x08, 0x00000102, &[0xAB, 0xCD]);
    assert_eq!(
        tag,
        vec![0x08, 0, 0, 2, 0, 1, 2, 0, 0, 0, 0, 0xAB, 0xCD, 0, 0, 0, 13]
    );
}

#[test]
fn test_external_url_validation_rejects_local_targets() {
    assert!(parse_http_url("https://example.test/hook", "url").is_ok());
    assert!(parse_http_url("http://127.0.0.1:8080/hook", "url").is_err());
    assert!(is_private_host(&UrlParts::parse("rtmp://127.0.0.1:1935/live").unwrap()));
    assert!(validate_media_input_url("rtmp://127.0.0.1:1935/live", "inputUrl", false).is_err());
}

#[test]
fn media_input_urls_allowed_private_when_enabled() {
    assert!(validate_media_input_url("rtmp://127.0.0.1:1935/live", "inputUrl", true).is_ok());
    let e = validate_media_input_url("ftp://example.com/a", "inputUrl", false).unwrap_err();
    assert_eq!(e.status, 400);
    assert_eq!(e.message, "inputUrl must use http(s) or RTMP without embedded credentials");
    let e = validate_media_input_url("not a url", "inputUrl", false).unwrap_err();
    assert_eq!(e.message, "inputUrl must be a valid media URL");
    let e = parse_http_url("https://user:pw@example.com/", "url").unwrap_err();
    assert_eq!(e.message, "url cannot contain embedded credentials");
    let e = parse_http_url("http://192.168.1.4/", "url").unwrap_err();
    assert_eq!(e.message, "url cannot target a private address");
}

#[test]
fn private_hosts_by_name_and_range() {
    for h in ["http://localhost/", "http://a.localhost/", "http://printer.local/", "http://10.1.2.3/",
              "http://172.16.0.1/", "http://172.31.255.255/", "http://169.254.1.1/", "http://0.0.0.0/"] {
        assert!(is_private_host(&UrlParts::parse(h).unwrap()), "{h}");
    }
    for h in ["http://172.32.0.1/", "http://8.8.8.8/", "http://example.com/"] {
        assert!(!is_private_host(&UrlParts::parse(h).unwrap()), "{h}");
    }
}

#[test]
fn config_test_config_clone() {
    let config = SrtConfig::default();
    let cloned = config.clone();
    assert_eq!(config.listen_port, cloned.listen_port);
}
