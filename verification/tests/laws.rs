use reestream::relay::config::{Orientation, Platform as RelayPlatform, PlatformEvent, platform_id_from};
use reestream::relay::client::sync_platforms_for_event;
use reestream::relay::hardening::{BandwidthLimiter, ConfigWatcher, ConnectionPool, RateLimiter, ViewerLimit};
use reestream::relay::publisher::{
    AfterConnect, ReleaseStep, after_connect, release_steps, step_report,
    after_attempt, default_input_url, publish_target, reconnect_step, ConnectOutcome, DestinationAction,
    PublishTarget, PublisherSession, ReconnectRegistry, ReconnectStep, ReconnectedAction, PublishDecision, publish_decision};
use reestream::server::auth::{accepts_stream_key, AuthConfig, AuthState};
use reestream::server::events::{cancel_event, end_event, new_event, promote_due_events, set_event_live};
use reestream::server::restream::{decode_hex_key, EventStatus, StreamType};
use reestream::server::schedule::{is_valid_scheduled_for, scheduled_epoch};
use reestream::server::secrets::{
    encrypt_sensitive_state, open_sensitive_state, retry_delay_ms, seal_with_nonce, webhook_signature,
};
use reestream::server::stream::StreamManager;
use reestream::weburl::UrlParts;

#[test]
fn rate_limiter_admits_the_limit_per_window() {
    let mut r = RateLimiter::new(3, 1000);
    assert!(r.try_acquire(1000));
    assert!(r.try_acquire(1200));
    assert!(r.try_acquire(1500));
    assert!(!r.try_acquire(1999));
    assert!(r.try_acquire(2000));
}

#[test]
fn rate_limiter_with_clock_running_back_keeps_window() {
    let mut r = RateLimiter::new(1, 5000);
    assert!(r.try_acquire(5000));
    assert!(!r.try_acquire(100));
}

#[test]
fn bandwidth_limiter_caps_bytes_per_window() {
    let mut b = BandwidthLimiter::new(100, 0);
    assert!(b.try_send(60, 10));
    assert!(!b.try_send(50, 20));
    assert!(b.try_send(40, 30));
    assert_eq!(b.bytes_used(), 100);
    assert!(b.try_send(100, 1000));
    assert_eq!(b.bytes_used(), 100);
}

#[test]
fn pool_release_gives_the_slot_back() {
    let mut p = ConnectionPool::new(1);
    let g = p.try_acquire().unwrap();
    assert_eq!(p.active_connections(), 1);
    assert!(p.try_acquire().is_none());
    p.release(g);
    assert_eq!(p.active_connections(), 0);
    assert!(p.try_acquire().is_some());
    assert_eq!(p.max_connections(), 1);
}

#[test]
fn viewer_leaving_makes_room() {
    let mut v = ViewerLimit::new(2);
    assert!(v.try_add_viewer());
    assert!(v.try_add_viewer());
    assert!(!v.try_add_viewer());
    v.remove_viewer();
    assert_eq!(v.current_viewers(), 1);
    assert!(v.try_add_viewer());
    assert_eq!(v.max_viewers(), 2);
}

#[test]
fn config_watcher_reports_each_change_once() {
    let mut w = ConfigWatcher::new("reestream.toml".to_string());
    assert!(!w.observe(None));
    assert!(w.observe(Some(10)));
    assert!(!w.observe(Some(10)));
    assert!(!w.observe(Some(5)));
    assert!(w.observe(Some(20)));
}

#[test]
fn fifth_failed_login_blocks_for_a_minute() {
    let auth = AuthConfig::from_settings(None, Some("pw".to_string()), Some("a@b.c".to_string()));
    assert!(auth.required);
    let mut s = AuthState::new();
    for t in 0..5u64 {
        assert!(s.login(&auth, "a@b.c", "wrong", t).is_err());
    }
    assert_eq!(s.login(&auth, "a@b.c", "pw", 10).unwrap_err(), "invalid credentials");
    assert!(s.login(&auth, "a@b.c", "pw", 64).is_ok());
}

#[test]
fn revoked_token_is_rejected() {
    let auth = AuthConfig::from_settings(Some("true"), Some("pw".to_string()), None);
    assert_eq!(auth.email, "admin@localhost");
    let mut s = AuthState::new();
    let t = s.create_session_with("a-b-c", "d-e-f", 100);
    assert_eq!(t.access_token, "rst_abc");
    assert_eq!(t.refresh_token, "rsr_def");
    assert_eq!(t.token_type, "Bearer");
    assert!(s.validate_access_token(&auth, "rst_abc", 101));
    s.revoke_session("rst_abc");
    assert!(!s.validate_access_token(&auth, "rst_abc", 101));
}

#[test]
fn refresh_replaces_the_session_tokens() {
    let auth = AuthConfig::from_settings(Some("1"), None, None);
    let mut s = AuthState::new();
    s.create_session_with("a", "r", 0);
    let t = s.refresh_session_with("rsr_r", "x-1", "y-2", 10).unwrap();
    assert_eq!(t.access_token, "rst_x1");
    assert!(!s.validate_access_token(&auth, "rst_a", 10));
    assert!(s.validate_access_token(&auth, "rst_x1", 10));
    assert_eq!(s.refresh_session_with("rsr_r", "p", "q", 10).unwrap_err(), "invalid refresh token");
}

#[test]
fn open_server_needs_no_token_and_blank_password_is_none() {
    let auth = AuthConfig::from_settings(Some("no"), Some("   ".to_string()), None);
    assert!(!auth.required);
    assert!(auth.password.is_none());
    assert!(AuthState::new().validate_access_token(&auth, "anything", 0));
}

#[test]
fn stream_keys_accepted_from_runtime_or_events() {
    let keys = vec!["event-1".to_string()];
    assert!(accepts_stream_key("live", "live", &keys));
    assert!(accepts_stream_key("event-1", "live", &keys));
    assert!(!accepts_stream_key("other", "live", &keys));
    assert!(!accepts_stream_key("", "", &keys));
}

#[test]
fn removed_platform_is_gone_and_toggle_last_wins() {
    let mut m = StreamManager::new();
    let mut events: Vec<PlatformEvent> = Vec::new();
    let id = m.add_platform("Twitch".into(), "rtmp://live.twitch.tv/app".into(), "k".into(), &mut events);
    assert_eq!(id.len(), 36);
    assert_eq!(m.get_platforms().len(), 1);
    m.toggle_platform(&id, false, &mut events);
    m.toggle_platform(&id, true, &mut events);
    assert!(m.get_platforms()[0].enabled);
    assert!(m.remove_platform(&id, &mut events));
    assert!(m.get_platforms().is_empty());
    assert!(!m.remove_platform(&id, &mut events));
}

#[test]
fn schedule_read_back() {
    assert_eq!(scheduled_epoch("2024-01-01T00:00:00Z"), Some(1704067200));
    assert_eq!(scheduled_epoch("1970-01-01T00:00:00Z"), Some(0));
    assert_eq!(scheduled_epoch("2024-01-01T01:00:00+01:00"), Some(1704067200));
    assert!(is_valid_scheduled_for("2030-06-15T12:30:00Z"));
    assert!(!is_valid_scheduled_for("tomorrow"));
    assert_eq!(scheduled_epoch("1969-12-31T23:59:59Z"), None);
}

fn event(id: &str, scheduled: Option<&str>) -> reestream::server::restream::Event {
    new_event(
        id,
        100,
        "rtmp://ingest.example/live",
        None,
        StreamType::Encoder,
        "Show".to_string(),
        String::new(),
        scheduled.map(|s| s.to_string()),
        Vec::new(),
        None,
        0,
    )
}

#[test]
fn event_lifecycle_records_duration() {
    let e = event("ab-cd", None);
    assert_eq!(e.status, EventStatus::Draft);
    assert_eq!(e.ingest.stream_key, "event-abcd");
    assert_eq!(e.guest_link.as_deref(), Some("/studio/guest/ab-cd"));
    let mut events = vec![e];
    assert!(end_event(&mut events, "ab-cd", 150).is_none());
    let live = set_event_live(&mut events, "ab-cd", 200).unwrap();
    assert_eq!(live.started_at, Some(200));
    let done = end_event(&mut events, "ab-cd", 260).unwrap();
    assert_eq!(done.status, EventStatus::Ended);
    assert_eq!(done.duration_seconds, Some(60));
    assert!(set_event_live(&mut events, "ab-cd", 300).is_none());
    let c = cancel_event(&mut events, "ab-cd", 400).unwrap();
    assert_eq!(c.status, EventStatus::Cancelled);
}

#[test]
fn due_events_go_live() {
    let mut events = vec![event("due", Some("1970-01-01T00:01:00Z")), event("later", Some("2999-01-01T00:00:00Z"))];
    assert_eq!(events[0].status, EventStatus::Scheduled);
    let promoted = promote_due_events(&mut events, 61);
    assert_eq!(promoted.len(), 1);
    assert_eq!(promoted[0].id, "due");
    assert_eq!(events[0].status, EventStatus::Live);
    assert_eq!(events[1].status, EventStatus::Scheduled);
}

#[test]
fn configured_key_publishes_others_resolve_or_reject() {
    assert_eq!(publish_target("live", "live", false), PublishTarget::Configured);
    assert_eq!(publish_target("live", "other", true), PublishTarget::AskResolver);
    assert_eq!(publish_target("live", "other", false), PublishTarget::Reject);
    assert_eq!(publish_target("", "", false), PublishTarget::Reject);
    assert_eq!(default_input_url("k"), "rtmp://localhost/live/k");
}

fn relay_platform(url: &str, key: &str, enabled: bool) -> RelayPlatform {
    RelayPlatform { url: UrlParts::parse(url).unwrap(), key: key.to_string(), enabled, orientation: Orientation::Horizontal }
}

#[test]
fn publisher_session_tracks_clients_and_headers() {
    let mut s = PublisherSession::new();
    assert!(s.has_no_clients());
    let event = PlatformEvent::Added {
        platform_id: "p1".into(),
        url: "rtmp://a.example/app".into(),
        key: "k".into(),
    };
    match s.on_platform_event(&event) {
        DestinationAction::Connect { platform_id, key, .. } => {
            assert_eq!(platform_id, "p1");
            assert_eq!(key, "k");
        },
        other => panic!("unexpected {:?}", other),
    }
    s.connected("p1");
    assert!(matches!(s.on_platform_event(&event), DestinationAction::AlreadyActive));
    let removed = PlatformEvent::Removed { platform_id: "p1".into() };
    assert!(matches!(s.on_platform_event(&removed), DestinationAction::ShutDown { position: 0 }));
    let bad = PlatformEvent::Added { platform_id: "p2".into(), url: "::".into(), key: "k".into() };
    assert!(matches!(s.on_platform_event(&bad), DestinationAction::InvalidUrl));
    s.register_stream("stream-1");
    s.connected("p3");
    let (stream, ids) = s.finish();
    assert_eq!(stream.as_deref(), Some("stream-1"));
    assert_eq!(ids, vec!["p3".to_string()]);
}

#[test]
fn reconnected_clients_replace_add_or_discard() {
    let p = relay_platform("rtmp://a.example/app", "k", true);
    let id = platform_id_from(p.url.as_str(), "k");
    let platforms = vec![p];
    let mut s = PublisherSession::new();
    assert_eq!(s.on_reconnected(&id, &platforms), ReconnectedAction::Add);
    s.connected(&id);
    assert_eq!(s.on_reconnected(&id, &platforms), ReconnectedAction::Replace { position: 0 });
    assert_eq!(s.on_reconnected("unknown", &platforms), ReconnectedAction::Discard);
    assert!(matches!(reconnect_step(true, &platforms, &id), ReconnectStep::Stop));
    assert!(matches!(reconnect_step(false, &platforms, &id), ReconnectStep::Attempt));
    assert!(matches!(reconnect_step(false, &platforms, "unknown"), ReconnectStep::Abandon));
    assert_eq!(after_attempt(ConnectOutcome::Connected), ("connected", None, true));
    assert_eq!(after_attempt(ConnectOutcome::TimedOut), ("error", Some("destination connection timed out"), false));
}

#[test]
fn one_reconnect_loop_per_destination() {
    let mut r = ReconnectRegistry::new();
    assert!(r.begin("a"));
    assert!(!r.begin("a"));
    assert!(r.begin("b"));
    r.finish("a");
    assert!(r.begin("a"));
}

#[test]
fn platform_ids_are_stable_hex() {
    let a = platform_id_from("rtmp://a/app", "k");
    assert_eq!(a.len(), 16);
    assert!(a.chars().all(|c| c.is_ascii_hexdigit()));
    assert_eq!(a, platform_id_from("rtmp://a/app", "k"));
    assert_ne!(a, platform_id_from("rtmp://a/app", "j"));
}

#[test]
fn webhook_signature_is_hmac_sha256_hex() {
    let sig = webhook_signature(Some("key"), b"The quick brown fox jumps over the lazy dog").unwrap();
    assert_eq!(sig, "sha256=f7bc83f430538424b13298e6aa6fb143ef4d59a14946175997479dbc2d1a3cd8");
    assert!(webhook_signature(None, b"x").is_none());
    assert_eq!(retry_delay_ms(0), 250);
    assert_eq!(retry_delay_ms(2), 750);
}

#[test]
fn sealed_secrets_open_again() {
    let key = [7u8; 32];
    let sealed = encrypt_sensitive_state(&key, b"{\"secret\":1}").unwrap();
    assert_eq!(sealed.len(), 12 + 12 + 16);
    assert_eq!(open_sensitive_state(&key, &sealed), Some(b"{\"secret\":1}".to_vec()));
    let other = [8u8; 32];
    assert_eq!(open_sensitive_state(&other, &sealed), None);
    assert_eq!(open_sensitive_state(&key, &sealed[..12].to_vec()), None);
    let fixed = seal_with_nonce(&key, &[1u8; 12], b"abc").unwrap();
    assert_eq!(&fixed[..12], &[1u8; 12]);
    assert_eq!(open_sensitive_state(&key, &fixed), Some(b"abc".to_vec()));
}

#[test]
fn hex_keys_decode_to_32_bytes() {
    let hex = "00".repeat(31) + "ff";
    let key = decode_hex_key(&hex).unwrap();
    assert_eq!(key[31], 0xff);
    assert_eq!(key[0], 0);
    assert!(decode_hex_key("abc").is_none());
    assert!(decode_hex_key(&"zz".repeat(32)).is_none());
    assert!(decode_hex_key(&"+f".repeat(32)).is_none());
    assert_eq!(decode_hex_key(&format!("  {}  ", "Ab".repeat(32))), Some([0xab; 32]));
}

#[test]
fn publish_requests_are_refused_or_accepted() {
    let configured = vec![relay_platform("rtmp://a.example/live", "k1", true)];
    match publish_decision("main", "wrong", false, configured.clone(), None, None) {
        PublishDecision::Reject { status, description } => {
            assert_eq!(status, "NetStream.Publish.BadName");
            assert_eq!(description, "Invalid key");
        }
        other => panic!("unexpected {other:?}"),
    }
    assert!(matches!(
        publish_decision("main", "event-key", true, configured.clone(), None, None),
        PublishDecision::Reject { .. }
    ));
    assert!(matches!(publish_decision("", "", false, configured.clone(), None, None), PublishDecision::Reject { .. }));
    match publish_decision("main", "main", false, configured.clone(), None, Some(false)) {
        PublishDecision::UnregisterAndReject { status, description } => {
            assert_eq!(status, "NetStream.Publish.BadName");
            assert_eq!(description, "Another preview stream is already active");
        }
        other => panic!("unexpected {other:?}"),
    }
    match publish_decision("main", "main", false, configured.clone(), None, Some(true)) {
        PublishDecision::Accept { platforms } => assert_eq!(platforms.len(), 1),
        other => panic!("unexpected {other:?}"),
    }
    let resolved = vec![relay_platform("rtmp://b.example/live", "k2", true), relay_platform("rtmp://c.example/live", "k3", true)];
    match publish_decision("main", "event-key", true, configured, Some(resolved), None) {
        PublishDecision::Accept { platforms } => assert_eq!(platforms[1].key, "k3"),
        other => panic!("unexpected {other:?}"),
    }
}

#[test]
fn login_hands_out_the_tokens_its_session_holds() {
    let auth = AuthConfig::from_settings(None, Some("pw".to_string()), Some("a@b.c".to_string()));
    let mut s = AuthState::new();
    let t = s.login(&auth, " A@B.c ", "pw", 0).unwrap_err();
    assert_eq!(t, "invalid credentials");
    let t = s.login(&auth, "a@b.c", "pw", 0).unwrap();
    assert!(t.access_token.starts_with("rst_") && t.access_token.len() == 36);
    assert!(t.refresh_token.starts_with("rsr_") && t.refresh_token.len() == 36);
    assert_eq!(t.token_type, "Bearer");
    assert!(s.validate_access_token(&auth, &t.access_token, 1));
    let renewed = s.refresh_session_with(&t.refresh_token, "x", "y", 5).unwrap();
    assert_eq!(renewed.access_token, "rst_x");
    let no_password = AuthConfig::from_settings(Some("1"), None, None);
    assert!(s.login(&no_password, "admin@localhost", "", 0).is_err());
}

#[test]
fn the_same_destination_event_twice_acts_once() {
    let url = "rtmp://a.example/live";
    let id = platform_id_from(url, "k1");
    let added = PlatformEvent::Added { platform_id: id.clone(), url: url.to_string(), key: "k1".to_string() };
    let mut ps = vec![relay_platform("rtmp://b.example/live", "k2", true)];
    sync_platforms_for_event(&mut ps, &added);
    assert_eq!(ps.len(), 2);
    sync_platforms_for_event(&mut ps, &added);
    assert_eq!(ps.len(), 2);
    assert_eq!(ps[1].key, "k1");
    let removed = PlatformEvent::Removed { platform_id: id };
    sync_platforms_for_event(&mut ps, &removed);
    assert_eq!(ps.len(), 1);
    sync_platforms_for_event(&mut ps, &removed);
    assert_eq!(ps.len(), 1);
    assert_eq!(ps[0].key, "k2");
}

#[test]
fn reconnect_reports_and_late_clients() {
    assert_eq!(step_report(ReconnectStep::Abandon), Some("disconnected"));
    assert_eq!(step_report(ReconnectStep::Attempt), None);
    assert_eq!(step_report(ReconnectStep::Stop), None);
    assert_eq!(after_connect(true), AfterConnect::ShutDown);
    assert_eq!(after_connect(false), AfterConnect::Deliver);
}

#[test]
fn registered_stream_is_used_then_released_in_order() {
    let mut s = PublisherSession::new();
    assert!(s.media_stream().is_none());
    s.register_stream("stream-1");
    assert_eq!(s.media_stream().map(|x| x.as_str()), Some("stream-1"));
    let (released, _) = s.finish();
    let steps = release_steps(released);
    assert!(matches!(&steps[0], ReleaseStep::Deactivate(a) if a == "stream-1"));
    assert!(matches!(&steps[1], ReleaseStep::Unregister(b) if b == "stream-1"));
    assert_eq!(steps.len(), 2);
    let (again, _) = s.finish();
    assert!(release_steps(again).is_empty());
}
