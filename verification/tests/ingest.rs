use reestream::server::events::new_event;
use reestream::server::ingest::{
    check_event_playback, configured_rtmps_url, event_recording_stream, event_srt_keys, recording_file_status,
    recording_input_url, recording_mime, request_access_token, srt_enabled, srt_ingest_url, srt_port, websocket_access_token,
};
use reestream::server::recording::{MonitorStep, RecordingFormat, RecordingStatus, monitor_step, size_limit_bytes};
use reestream::server::restream::{Event, StorageFile, StreamType};
use reestream::server::routes_v1::v1_routes;

fn event(id: &str, stream_type: StreamType, source: Option<&str>) -> Event {
    new_event(
        id,
        10,
        "rtmp://ingest.example/live",
        None,
        stream_type,
        "Show".to_string(),
        String::new(),
        None,
        Vec::new(),
        source.map(str::to_string),
        0,
    )
}

fn stored(id: &str) -> StorageFile {
    StorageFile {
        id: id.into(),
        name: "a.mp4".into(),
        mime_type: "video/mp4".into(),
        size_bytes: 1,
        duration_seconds: None,
        status: "ready".into(),
        path: format!("/s/{id}"),
        labels: vec![],
        created_at: 0,
        updated_at: 0,
    }
}

#[test]
fn websocket_token_comes_from_the_bearer_protocol() {
    assert_eq!(websocket_access_token(None), None);
    assert_eq!(websocket_access_token(Some("chat")), None);
    assert_eq!(
        websocket_access_token(Some("chat, reestream-bearer-abc123 ,other")),
        Some("abc123".to_string())
    );
    assert_eq!(
        websocket_access_token(Some("reestream-bearer-first,reestream-bearer-second")),
        Some("first".to_string())
    );
}

#[test]
fn srt_needs_its_switch_and_a_passphrase() {
    assert!(srt_enabled(Some("true"), Some("pw")));
    assert!(!srt_enabled(Some("true"), Some("   ")));
    assert!(!srt_enabled(Some("no"), Some("pw")));
    assert!(!srt_enabled(None, Some("pw")));
}

#[test]
fn srt_port_defaults_to_3000() {
    assert_eq!(srt_port(None), 3000);
    assert_eq!(srt_port(Some("9000")), 9000);
    assert_eq!(srt_port(Some("70000")), 3000);
}

#[test]
fn srt_ingest_url_carries_the_stream_id() {
    assert_eq!(srt_ingest_url(Some("1"), Some("pw"), None, "abc"), Some("srt://localhost:3000?streamid=abc".to_string()));
    assert_eq!(srt_ingest_url(Some("1"), Some("pw"), Some("9000"), "a b"), Some("srt://localhost:9000?streamid=a+b".to_string()));
    assert_eq!(srt_ingest_url(None, Some("pw"), None, "abc"), None);
}

#[test]
fn event_srt_keys_use_the_event_stream_key() {
    let e = event("ev-1", StreamType::Encoder, None);
    let keys = event_srt_keys(&e, Some("yes"), Some("pw"), None);
    assert_eq!(keys.passphrase, Some("pw".to_string()));
    assert_eq!(keys.url, Some(format!("srt://localhost:3000?streamid={}", e.ingest.stream_key)));
    let off = event_srt_keys(&e, None, Some("pw"), None);
    assert_eq!(off.url, None);
    assert_eq!(off.passphrase, None);
}

#[test]
fn rtmps_backup_must_be_rtmps() {
    assert_eq!(configured_rtmps_url(Some("rtmps://a/b".into())), Some("rtmps://a/b".to_string()));
    assert_eq!(configured_rtmps_url(Some("rtmp://a/b".into())), None);
    assert_eq!(configured_rtmps_url(None), None);
}

#[test]
fn file_events_need_a_stored_source_inside_the_root() {
    let files = vec![stored("f1")];
    assert!(check_event_playback(&event("e", StreamType::Encoder, None), &files, false).is_ok());
    assert_eq!(
        check_event_playback(&event("e", StreamType::File, None), &files, true).unwrap_err(),
        "file event has no source file"
    );
    assert_eq!(
        check_event_playback(&event("e", StreamType::Playlist, Some("f9")), &files, true).unwrap_err(),
        "source storage file not found"
    );
    assert_eq!(
        check_event_playback(&event("e", StreamType::File, Some("f1")), &files, false).unwrap_err(),
        "source file is outside the local storage root"
    );
    assert!(check_event_playback(&event("e", StreamType::File, Some("f1")), &files, true).is_ok());
}

#[test]
fn recording_state_follows_the_recorder() {
    assert_eq!(recording_file_status(&RecordingStatus::Recording, false), "recording");
    assert_eq!(recording_file_status(&RecordingStatus::Error, true), "failed");
    assert_eq!(recording_file_status(&RecordingStatus::Stopped, true), "ready");
    assert_eq!(recording_file_status(&RecordingStatus::Stopped, false), "failed");
}

#[test]
fn event_recordings_read_the_local_stream() {
    assert_eq!(recording_input_url(None, None), "http://127.0.0.1:8080/stream.flv");
    assert_eq!(recording_input_url(None, Some("9090")), "http://127.0.0.1:9090/stream.flv");
    assert_eq!(recording_input_url(Some("rtmp://src/live".into()), Some("9090")), "rtmp://src/live");
    assert_eq!(event_recording_stream("ev1"), "event-ev1");
    assert_eq!(recording_mime(&RecordingFormat::Mkv), "video/x-matroska");
    assert_eq!(recording_mime(&RecordingFormat::Ts), "video/mp2t");
}

#[test]
fn recording_monitor_decisions() {
    assert_eq!(size_limit_bytes(4096), 4096 * 1024 * 1024);
    assert_eq!(size_limit_bytes(u64::MAX), u64::MAX);
    assert_eq!(
        monitor_step(RecordingStatus::Recording, false, Some(true), 10, None),
        MonitorStep::Ended { status: RecordingStatus::Stopped }
    );
    assert_eq!(
        monitor_step(RecordingStatus::Recording, false, Some(false), 10, None),
        MonitorStep::Ended { status: RecordingStatus::Error }
    );
    assert_eq!(
        monitor_step(RecordingStatus::Stopped, false, Some(false), 10, None),
        MonitorStep::Ended { status: RecordingStatus::Stopped }
    );
    assert_eq!(monitor_step(RecordingStatus::Recording, false, None, 10, Some(11)), MonitorStep::KillOversized);
    assert_eq!(monitor_step(RecordingStatus::Recording, false, None, 0, Some(11)), MonitorStep::Wait);
    assert_eq!(monitor_step(RecordingStatus::Recording, false, None, 10, None), MonitorStep::Wait);
    assert_eq!(monitor_step(RecordingStatus::Recording, true, Some(true), 10, None), MonitorStep::Failed);
}

#[test]
fn request_tokens_come_from_header_then_protocol_then_query() {
    assert_eq!(request_access_token(Some("Bearer abc"), Some("reestream-bearer-ws"), Some("access_token=q")), "abc");
    assert_eq!(request_access_token(Some("Basic xyz"), Some("reestream-bearer-ws"), Some("access_token=q")), "ws");
    assert_eq!(request_access_token(None, Some("chat"), Some("a=1&access_token=q")), "q");
    assert_eq!(request_access_token(None, None, None), "");
}

#[test]
fn v1_routes_list_public_routes_first() {
    let routes = v1_routes();
    assert_eq!(routes.len(), 136);
    assert_eq!(routes[0], ("GET", "/api/v1/health", "health", false));
    assert!(routes.iter().any(|r| *r == ("POST", "/api/v1/auth/login", "login", false)));
    assert!(routes.iter().any(|r| *r == ("POST", "/api/v1/webhooks/{id}/test", "test_webhook", true)));
    assert!(routes.iter().filter(|r| !r.3).count() == 11);
}

#[test]
fn openapi_lists_the_documented_paths() {
    let paths = reestream::server::routes_v1::openapi_paths();
    assert_eq!(paths.len(), 102);
    assert_eq!(paths[0], "/api/v1/health");
    assert_eq!(paths[101], "/api/v1/webhooks/{id}/test");
}
