use reestream::relay::config::{Orientation, Platform as RelayPlatform, PlatformEvent, platform_id_from};
use reestream::relay::security::{IpAddress, IpEntry, IpFilter, SecurityConfig, cidr_network};
use reestream::server::accounts::{
    OAuthState, consume_oauth_state, delete_connection, save_oauth_connection, save_oauth_state, update_profile,
    update_webhook,
};
use reestream::server::channels::{
    EventKey, SecretEntry, check_channel_update, check_new_channel, channel_display_name, create_channel,
    delete_channel, input_url_for_key, platforms_for_key, set_channel_status, update_channel,
};
use reestream::server::chat::{add_chat_message, delete_chat_message};
use reestream::server::drafts::{create_draft, delete_draft, duplicate_draft, duplicate_event, update_draft};
use reestream::server::events::new_event;
use reestream::server::files::{
    TranscriptRequest, clip_args, clip_source, create_file_metadata, delete_file, ensure_transcription, finish_clip,
    link_event_recording, new_clip, storage_file_name, update_file, update_file_state, update_transcription,
};
use reestream::server::listings::{
    analytics_overview, list_chat, list_clips, list_events, list_files, reorder_qr_codes, reorder_tickers,
};
use reestream::server::oauth::{
    OAuthSettings, TokenReply, TokenRequest, authorize_url, plan_token_exchange, read_token_reply, split_words,
};
use reestream::server::requests::{check_draft_update, check_event_update, check_new_draft, check_new_event, validate_destination_ids};
use reestream::server::restream::{
    Brand, Channel, ChatMessage, ClipProject, Event, EventStatus, Profile, QrCode, StorageFile, StreamType, Ticker,
    ViewerSample, WebhookSubscription,
};
use reestream::server::sorting::sort_stable;
use reestream::server::studio_sessions::{
    StudioSession, add_guest, add_scene, get_or_create_studio_session, remove_guest, update_scene,
    update_studio_session,
};

fn event(id: &str) -> Event {
    new_event(
        id,
        10,
        "rtmp://ingest.example/live",
        None,
        StreamType::Encoder,
        "Show".to_string(),
        String::new(),
        None,
        Vec::new(),
        None,
        0,
    )
}

fn channel_list() -> (Vec<Channel>, Vec<SecretEntry>) {
    let mut channels = Vec::new();
    let mut secrets = Vec::new();
    create_channel(
        &mut channels,
        &mut secrets,
        "c1",
        100,
        "twitch".into(),
        "Main".into(),
        None,
        "rtmp://live.twitch.tv/app".into(),
        "key-1".into(),
        None,
        None,
    );
    (channels, secrets)
}

#[test]
fn created_channel_is_announced_and_its_secret_kept() {
    let mut channels = Vec::new();
    let mut secrets = Vec::new();
    let (c, ev) = create_channel(
        &mut channels,
        &mut secrets,
        "c1",
        100,
        "twitch".into(),
        "Main".into(),
        Some("https://twitch.tv/me".into()),
        "rtmp://live.twitch.tv/app".into(),
        "key-1".into(),
        Some("user".into()),
        None,
    );
    assert_eq!(c.status, "disconnected");
    assert!(c.enabled);
    assert_eq!(channels.len(), 1);
    assert_eq!(secrets[0].channel_id, "c1");
    assert_eq!(secrets[0].secret.stream_key, "key-1");
    match ev {
        PlatformEvent::Added { platform_id, url, key } => {
            assert_eq!(platform_id, platform_id_from("rtmp://live.twitch.tv/app", "key-1"));
            assert_eq!(url, "rtmp://live.twitch.tv/app");
            assert_eq!(key, "key-1");
        },
        _ => panic!("expected an announcement"),
    }
}

#[test]
fn channel_update_withdraws_old_destination_and_disables() {
    let (mut channels, mut secrets) = channel_list();
    let (c, events) = update_channel(
        &mut channels,
        &mut secrets,
        "c1",
        None,
        None,
        None,
        Some("key-2".into()),
        Some(false),
        200,
    )
    .unwrap();
    assert_eq!(c.stream_key, "key-2");
    assert!(!c.enabled);
    assert_eq!(c.updated_at, 200);
    assert_eq!(events.len(), 3);
    assert!(matches!(&events[0], PlatformEvent::Removed { platform_id } if *platform_id == platform_id_from("rtmp://live.twitch.tv/app", "key-1")));
    assert!(matches!(&events[1], PlatformEvent::Added { key, .. } if key == "key-2"));
    assert!(matches!(&events[2], PlatformEvent::Toggled { enabled: false, .. }));
    assert_eq!(secrets[0].secret.stream_key, "key-2");
    assert!(update_channel(&mut channels, &mut secrets, "nope", None, None, None, None, None, 1).is_none());
}

#[test]
fn deleting_a_channel_withdraws_it() {
    let (mut channels, mut secrets) = channel_list();
    let (removed, ev) = delete_channel(&mut channels, &mut secrets, "c1");
    assert!(removed);
    assert!(channels.is_empty());
    assert!(secrets.is_empty());
    assert!(matches!(ev, Some(PlatformEvent::Removed { .. })));
    let (removed, ev) = delete_channel(&mut channels, &mut secrets, "c1");
    assert!(!removed);
    assert!(ev.is_none());
}

#[test]
fn status_reports_reach_the_channel_publishing_there() {
    let (mut channels, secrets) = channel_list();
    let id = platform_id_from("rtmp://live.twitch.tv/app", "key-1");
    set_channel_status(&mut channels, &secrets, &id, "connected", None, 300);
    assert_eq!(channels[0].status, "connected");
    assert_eq!(channels[0].updated_at, 300);
    set_channel_status(&mut channels, &secrets, "other", "error", Some("x".into()), 400);
    assert_eq!(channels[0].status, "connected");
}

#[test]
fn keys_resolve_to_destinations() {
    let (channels, secrets) = channel_list();
    let runtime = vec![
        RelayPlatform {
            url: reestream::weburl::UrlParts::parse("rtmp://a.example/app").unwrap(),
            key: "a".into(),
            enabled: true,
            orientation: Orientation::Horizontal,
        },
        RelayPlatform {
            url: reestream::weburl::UrlParts::parse("rtmp://b.example/app").unwrap(),
            key: "b".into(),
            enabled: false,
            orientation: Orientation::Vertical,
        },
    ];
    let mut e = event("e1");
    e.destination_ids = vec!["c1".to_string()];
    let events = vec![e];
    let keys = vec![EventKey { event_id: "e1".into(), stream_key: "event-e1".into() }];
    let own = platforms_for_key("live", &runtime, &keys, &events, &channels, &secrets, "live").unwrap();
    assert_eq!(own.len(), 1);
    assert_eq!(own[0].key, "a");
    let ev = platforms_for_key("live", &runtime, &keys, &events, &channels, &secrets, "event-e1").unwrap();
    assert_eq!(ev.len(), 1);
    assert_eq!(ev[0].key, "key-1");
    assert_eq!(ev[0].url.host.as_deref(), Some("live.twitch.tv"));
    assert!(platforms_for_key("live", &runtime, &keys, &events, &channels, &secrets, "unknown").is_none());
    assert!(platforms_for_key("", &runtime, &keys, &events, &channels, &secrets, "").is_none());
    assert_eq!(input_url_for_key("rtmp://host:1935/live//", "k"), "rtmp://host:1935/live/k");
}

#[test]
fn channel_requests_are_checked() {
    let (p, u, k) = check_new_channel(" twitch ", "rtmp://live.twitch.tv/app", "key").unwrap();
    assert_eq!((p.as_str(), u.as_str(), k.as_str()), ("twitch", "rtmp://live.twitch.tv/app", "key"));
    assert_eq!(check_new_channel("", "rtmp://a/b", "k").unwrap_err().message, "platformId is required");
    assert_eq!(
        check_new_channel("p", "http://a/b", "k").unwrap_err().message,
        "streamUrl must use rtmp:// or rtmps:// and include a host"
    );
    assert_eq!(check_new_channel("p", "rtmp://a/b", " ").unwrap_err().message, "streamKey is required");
    assert_eq!(
        check_channel_update(None, Some("  ")).unwrap_err().message,
        "streamKey cannot be empty; omit it to keep the existing key"
    );
    assert!(check_channel_update(Some("rtmps://a.example/x"), Some("k")).is_ok());
    assert_eq!(channel_display_name(None), "New channel");
}

#[test]
fn drafts_are_made_changed_copied_and_deleted() {
    let mut drafts = Vec::new();
    let d = create_draft(&mut drafts, "d1", 5, "Weekly".into(), StreamType::Studio, "T".into(), "D".into(), vec!["c1".into()], None);
    assert_eq!(d.created_at, 5);
    let u = update_draft(&mut drafts, "d1", Some("Daily".into()), None, None, None, Some("b1".into()), 9).unwrap();
    assert_eq!(u.name, "Daily");
    assert_eq!(u.brand_id.as_deref(), Some("b1"));
    assert_eq!(u.updated_at, 9);
    let copy = duplicate_draft(&mut drafts, "d1", "d2", 11).unwrap();
    assert_eq!(copy.name, "Copy of Daily");
    assert_eq!(copy.destination_ids, vec!["c1".to_string()]);
    assert_eq!(drafts.len(), 2);
    let events = vec![event("e1")];
    let from_event = duplicate_event(&events, &mut drafts, "e1", "d3", 12).unwrap();
    assert_eq!(from_event.name, "Copy of Show");
    assert!(from_event.brand_id.is_none());
    assert!(delete_draft(&mut drafts, "d1"));
    assert!(!delete_draft(&mut drafts, "d1"));
    assert_eq!(drafts.len(), 2);
}

#[test]
fn draft_and_event_requests_are_checked() {
    let (channels, _) = channel_list();
    let brands: Vec<Brand> = Vec::new();
    let e = validate_destination_ids(&channels, &vec!["c1".into(), "c9".into()]).unwrap_err();
    assert_eq!(e.status, 422);
    assert_eq!(e.code, "unknown_channel");
    assert_eq!(e.message, "channel c9 does not exist");
    let (name, t) = check_new_draft(" Show ", Some("FILE"), &vec![], None, &channels, &brands).unwrap();
    assert_eq!(name, "Show");
    assert_eq!(t, StreamType::File);
    let e = check_new_draft("x", None, &vec![], Some("b1"), &channels, &brands).unwrap_err();
    assert_eq!((e.status, e.message.as_str()), (404, "brand not found"));
    assert!(check_draft_update(Some(&vec!["c1".into()]), None, &channels, &brands).is_ok());
    let files: Vec<StorageFile> = Vec::new();
    let drafts = Vec::new();
    let e = check_new_event(None, Some(10), None, None, true, None, &vec![], &files, &drafts, &channels).unwrap_err();
    assert_eq!(e.message, "loopsCount must be between 0 and 9");
    let e = check_new_event(Some("file"), None, None, None, true, None, &vec![], &files, &drafts, &channels).unwrap_err();
    assert_eq!(e.message, "fileId is required for file and playlist events");
    let e = check_new_event(None, None, Some("later"), None, true, None, &vec![], &files, &drafts, &channels).unwrap_err();
    assert_eq!(e.message, "scheduledFor must be a Unix timestamp or RFC3339 value");
    let e = check_new_event(None, None, None, None, true, Some("d9"), &vec![], &files, &drafts, &channels).unwrap_err();
    assert_eq!(e.message, "stream draft not found");
    assert_eq!(check_new_event(Some("studio"), Some(3), Some("1700000000"), None, true, None, &vec!["c1".into()], &files, &drafts, &channels).unwrap(), StreamType::Studio);
    assert!(check_event_update(Some(None), None, &channels).is_ok());
    assert!(check_event_update(Some(Some("nope")), None, &channels).is_err());
}

fn file(id: &str, name: &str, updated: u64) -> StorageFile {
    StorageFile {
        id: id.into(),
        name: name.into(),
        mime_type: "video/mp4".into(),
        size_bytes: 1,
        duration_seconds: None,
        status: "ready".into(),
        path: format!("/s/{id}"),
        labels: vec!["Clip".into()],
        created_at: 0,
        updated_at: updated,
    }
}

#[test]
fn files_are_recorded_updated_and_removed() {
    let mut files = Vec::new();
    let f = create_file_metadata(&mut files, "f1", 7, "a b.mp4".into(), "video/mp4".into(), 10, None, vec![], "/s/f1".into(), "uploading".into());
    assert_eq!(f.status, "uploading");
    let f = update_file_state(&mut files, "f1", 99, "ready".into(), 8).unwrap();
    assert_eq!((f.size_bytes, f.status.as_str(), f.updated_at), (99, "ready", 8));
    let f = update_file(&mut files, "f1", Some("c.mp4".into()), Some(vec!["x".into()]), 9).unwrap();
    assert_eq!(f.name, "c.mp4");
    assert_eq!(storage_file_name("f1", "a b/ü.mp4"), "f1-a_b__.mp4");
    assert_eq!(delete_file(&mut files, "f1").unwrap().id, "f1");
    assert!(delete_file(&mut files, "f1").is_none());
}

#[test]
fn recordings_transcripts_and_clips() {
    let files = vec![file("f1", "rec.mp4", 1)];
    let mut events = vec![event("e1")];
    assert!(link_event_recording(&mut events, &files, "e1", "f9", 2).is_none());
    let e = link_event_recording(&mut events, &files, "e1", "f1", 2).unwrap();
    assert_eq!(e.recording_file_id.as_deref(), Some("f1"));
    let mut ts = Vec::new();
    let t = match ensure_transcription(&events, &files, &mut ts, "e1", "t1", 3, false, None) {
        TranscriptRequest::Started(t) => t,
        _ => panic!("expected a new transcript"),
    };
    assert_eq!(t.status, "Unknown");
    assert!(matches!(ensure_transcription(&events, &files, &mut ts, "e1", "t2", 4, true, None), TranscriptRequest::Existing(_)));
    assert!(matches!(ensure_transcription(&events, &files, &mut ts, "e9", "t3", 4, true, None), TranscriptRequest::Unavailable));
    let done = update_transcription(&mut ts, "t1", "Completed".into(), Some("/api/v1/storage/files/x/download".into()), 5).unwrap();
    assert_eq!(done.status, "Completed");
    let (src, f) = clip_source(&events, &files, "e1").unwrap();
    assert_eq!(src.as_deref(), Some("f1"));
    assert_eq!(f.unwrap().name, "rec.mp4");
    let clip = new_clip("k1", 6, "e1".into(), src, "best".into(), 10, 25, true);
    assert_eq!(clip.status, "processing");
    assert_eq!(clip_args("/s/in.mp4", "/s/out.mp4", 10, 25), vec!["-y", "-ss", "10", "-i", "/s/in.mp4", "-t", "15", "-c", "copy", "/s/out.mp4"]);
    assert_eq!(clip_args("a", "b", 30, 20)[6], "0");
    let mut clips = vec![clip];
    finish_clip(&mut clips, "k1", Some("f2".into()), 7);
    assert_eq!(clips[0].status, "ready");
    assert_eq!(clips[0].output_file_id.as_deref(), Some("f2"));
    finish_clip(&mut clips, "k1", None, 8);
    assert_eq!(clips[0].status, "failed");
}

#[test]
fn one_scene_on_air_after_a_switch() {
    let events = vec![event("e1")];
    let mut sessions: Vec<StudioSession<String>> = Vec::new();
    let s = get_or_create_studio_session(&mut sessions, &events, "e1", "s1", "main", 1, "{}".to_string()).unwrap();
    assert_eq!(s.status, "idle");
    assert_eq!(s.guest_link, "/studio/guest/e1");
    assert!(s.scenes[0].active);
    assert!(get_or_create_studio_session(&mut sessions, &events, "e9", "s2", "x", 1, String::new()).is_none());
    let again = get_or_create_studio_session(&mut sessions, &events, "e1", "s3", "y", 2, String::new()).unwrap();
    assert_eq!(again.id, "s1");
    add_scene(&mut sessions, "s1", "side", "Side".into(), None, vec![], 3).unwrap();
    let sc = update_scene(&mut sessions, "s1", "side", None, None, None, Some(true), 4).unwrap();
    assert!(sc.active);
    let s = &sessions[0];
    assert_eq!(s.scenes.iter().filter(|x| x.active).count(), 1);
    assert_eq!(s.active_scene_id.as_deref(), Some("side"));
    assert!(update_scene(&mut sessions, "s1", "none", None, None, None, Some(true), 5).is_none());
    let g = add_guest(&mut sessions, "s1", "g1", "j1", "Ann".into(), None, 6).unwrap();
    assert_eq!((g.role.as_str(), g.join_url.as_str(), g.status.as_str()), ("guest", "/studio/guest/j1", "invited"));
    assert!(remove_guest(&mut sessions, "s1", "g1"));
    assert!(!remove_guest(&mut sessions, "s1", "g1"));
    let u = update_studio_session(&mut sessions, "s1", None, Some("{\"a\":1}".to_string()), Some("live".into()), 7).unwrap();
    assert_eq!(u.status, "live");
    assert_eq!(u.settings, "{\"a\":1}");
}

#[test]
fn chat_is_counted_and_hidden() {
    let mut events = vec![event("e1")];
    let mut chat = Vec::new();
    assert_eq!(
        add_chat_message(&mut chat, &mut events, "m0", 1, "e9".into(), None, "a".into(), None, "hi".into(), "message".into(), None).unwrap_err(),
        "event not found"
    );
    let m = add_chat_message(&mut chat, &mut events, "m1", 2, "e1".into(), None, "a".into(), None, "hi".into(), "message".into(), None).unwrap();
    assert_eq!(m.created_at, 2);
    assert_eq!(events[0].chat_message_count, 1);
    assert!(delete_chat_message(&mut chat, "m1").unwrap().deleted);
    assert!(list_chat(chat, Some("e1")).is_empty());
}

#[test]
fn oauth_links_and_round_trips() {
    let mut conns = Vec::new();
    let c = save_oauth_connection(&mut conns, "x1", 10, "twitch".into(), "a1".into(), None, "Bearer".into(), Some(70), vec!["chat".into()]);
    assert_eq!((c.id.as_str(), c.connected_at), ("x1", 10));
    let c = save_oauth_connection(&mut conns, "x2", 20, "twitch".into(), "a2".into(), None, "Bearer".into(), None, vec![]);
    assert_eq!((c.id.as_str(), c.connected_at, c.updated_at), ("x1", 10, 20));
    assert_eq!(conns.len(), 1);
    assert!(delete_connection(&mut conns, "x1"));
    let mut states: Vec<OAuthState> = Vec::new();
    save_oauth_state(&mut states, "st".into(), "twitch".into(), "https://app/cb".into(), "tok".into(), 100);
    assert_eq!(states[0].expires_at, 700);
    assert!(!consume_oauth_state(&mut states, "st", "youtube", "https://app/cb", "tok", 101));
    assert!(states.is_empty());
    save_oauth_state(&mut states, "st".into(), "twitch".into(), "https://app/cb".into(), "tok".into(), 100);
    assert!(consume_oauth_state(&mut states, "st", "twitch", "https://app/cb", "tok", 699));
    assert!(!consume_oauth_state(&mut states, "st", "twitch", "https://app/cb", "tok", 699));
}

#[test]
fn oauth_authorize_and_exchange() {
    let settings = OAuthSettings {
        client_id: Some("cid".into()),
        client_secret: Some("sec".into()),
        authorize_url: Some("https://id.example/authorize".into()),
        token_url: Some("https://id.example/token".into()),
        scopes: Some("chat:read  chat:edit".into()),
    };
    let url = authorize_url("twitch", &settings, "st", "https://app/cb", None).unwrap();
    assert_eq!(url, "https://id.example/authorize?response_type=code&client_id=cid&redirect_uri=https%3A%2F%2Fapp%2Fcb&state=st&scope=chat%3Aread++chat%3Aedit");
    let none = OAuthSettings { client_id: Some("  ".into()), ..settings.clone() };
    let e = authorize_url("twitch", &none, "st", "https://app/cb", None).unwrap_err();
    assert_eq!((e.status, e.message.as_str()), (501, "OAuth client is not configured for platform twitch"));
    assert_eq!(authorize_url("twitch", &settings, " ", "https://app/cb", None).unwrap_err().status, 400);
    let mut states = Vec::new();
    save_oauth_state(&mut states, "st".into(), "twitch".into(), "https://app/cb".into(), "tok".into(), 0);
    let req = TokenRequest { grant_type: None, code: Some("c".into()), refresh_token: None, state: Some("st".into()), redirect_uri: Some("https://app/cb".into()) };
    let plan = plan_token_exchange("twitch", &settings, &req, &mut states, "tok", 5).unwrap();
    assert_eq!(plan.form, vec![("grant_type".to_string(), "authorization_code".to_string()), ("code".into(), "c".into()), ("redirect_uri".into(), "https://app/cb".into())]);
    assert!(states.is_empty());
    let e = plan_token_exchange("twitch", &settings, &req, &mut states, "tok", 5).unwrap_err();
    assert_eq!((e.status, e.code.as_str()), (401, "oauth_state_invalid"));
    let refresh = TokenRequest { grant_type: Some("refresh_token".into()), code: None, refresh_token: None, state: None, redirect_uri: None };
    assert_eq!(plan_token_exchange("twitch", &settings, &refresh, &mut states, "tok", 5).unwrap_err().message, "refreshToken is required for refresh_token exchange");
    let reply = TokenReply { success: true, access_token: Some("at".into()), refresh_token: None, token_type: None, expires_in: Some(60), scope: None, error: None, error_description: None };
    let t = read_token_reply(reply, Some("a b".into()), 1000).unwrap();
    assert_eq!((t.token_type.as_str(), t.expires_at), ("Bearer", Some(1060)));
    assert_eq!(t.scopes, vec!["a".to_string(), "b".to_string()]);
    let refused = TokenReply { success: false, access_token: None, refresh_token: None, token_type: None, expires_in: None, scope: None, error: Some("invalid_grant".into()), error_description: None };
    let e = read_token_reply(refused, None, 0).unwrap_err();
    assert_eq!((e.status, e.message.as_str()), (502, "invalid_grant"));
    assert_eq!(split_words("  a\tb \u{3000}c "), vec!["a", "b", "c"]);
}

#[test]
fn profile_and_webhook_updates() {
    let mut p = Profile { id: "local-user".into(), username: "local-user".into(), email: "a@b".into(), display_name: "Me".into(), timezone: "UTC".into(), avatar_url: None, created_at: 0 };
    let r = update_profile(&mut p, None, Some("Europe/Paris".into()), Some("/a.png".into()));
    assert_eq!((r.display_name.as_str(), r.timezone.as_str()), ("Me", "Europe/Paris"));
    assert_eq!(p.avatar_url.as_deref(), Some("/a.png"));
    let mut hooks = vec![WebhookSubscription { id: "w1".into(), url: "https://h/x".into(), secret: None, events: vec![], enabled: true, created_at: 0, updated_at: 0 }];
    let w = update_webhook(&mut hooks, "w1", None, Some("s".into()), Some(vec!["event.created".into()]), Some(false), 9).unwrap();
    assert_eq!((w.secret.as_deref(), w.enabled, w.updated_at), (Some("s"), false, 9));
    assert!(update_webhook(&mut hooks, "w2", None, None, None, None, 9).is_none());
}

#[test]
fn stable_sort_keeps_ties_in_order() {
    let v = vec![(3u64, 'a'), (1, 'b'), (3, 'c'), (2, 'd'), (1, 'e')];
    assert_eq!(sort_stable(v), vec![(1, 'b'), (1, 'e'), (2, 'd'), (3, 'a'), (3, 'c')]);
}

#[test]
fn lists_come_newest_first() {
    let mut a = event("a");
    a.updated_at = 5;
    let mut b = event("b");
    b.updated_at = 9;
    b.status = EventStatus::Ended;
    let listed = list_events(vec![a.clone(), b.clone()], &vec![EventKey { event_id: "a".into(), stream_key: "k-a".into() }], None);
    assert_eq!(listed[0].id, "b");
    assert_eq!(listed[1].ingest.stream_key, "k-a");
    assert_eq!(list_events(vec![a, b], &vec![], Some(EventStatus::Ended)).len(), 1);
    let files = list_files(vec![file("f1", "Intro.mp4", 1), file("f2", "outro.mp4", 2)], Some("INTRO"));
    assert_eq!(files.len(), 1);
    assert_eq!(list_files(vec![file("f1", "x", 1), file("f2", "y", 2)], Some("clip"))[0].id, "f2");
    assert_eq!(list_files(vec![file("f1", "x", 1)], Some("  ")).len(), 1);
    let clips = vec![
        ClipProject { id: "k1".into(), event_id: "e1".into(), source_file_id: None, name: "a".into(), start_seconds: 0, end_seconds: 1, status: "ready".into(), output_file_id: None, created_at: 0, updated_at: 1 },
        ClipProject { id: "k2".into(), event_id: "e2".into(), source_file_id: None, name: "b".into(), start_seconds: 0, end_seconds: 1, status: "ready".into(), output_file_id: None, created_at: 0, updated_at: 2 },
    ];
    assert_eq!(list_clips(clips.clone(), None)[0].id, "k2");
    assert_eq!(list_clips(clips, Some("e1")).len(), 1);
    let chat = vec![
        ChatMessage { id: "m2".into(), event_id: "e1".into(), destination_id: None, author_name: "a".into(), author_id: None, message: "2".into(), kind: "message".into(), reply_to: None, created_at: 2, deleted: false },
        ChatMessage { id: "m1".into(), event_id: "e1".into(), destination_id: None, author_name: "a".into(), author_id: None, message: "1".into(), kind: "message".into(), reply_to: None, created_at: 1, deleted: false },
    ];
    assert_eq!(list_chat(chat, None)[0].id, "m1");
}

#[test]
fn overlays_follow_the_chosen_order() {
    let ticker = |id: &str| Ticker { id: id.into(), text: "t".into(), speed: 1, color: "#fff".into(), background_color: "#000".into(), enabled: true, order: 9, created_at: 0, updated_at: 0 };
    let mut tickers = vec![ticker("a"), ticker("b"), ticker("c")];
    let out = reorder_tickers(&mut tickers, &vec!["c".into(), "a".into()], 5);
    let ids: Vec<&str> = out.iter().map(|t| t.id.as_str()).collect();
    assert_eq!(ids, vec!["c", "a", "b"]);
    assert_eq!(tickers[2].order, 2);
    assert_eq!(tickers[0].updated_at, 5);
    let qr = |id: &str| QrCode { id: id.into(), name: "q".into(), data: "d".into(), foreground: "#000".into(), background: "#fff".into(), enabled: true, position: "top-right".into(), created_at: 0, updated_at: 0 };
    let mut codes = vec![qr("a"), qr("b")];
    reorder_qr_codes(&mut codes, &vec!["b".into(), "b".into(), "a".into()]);
    assert_eq!(codes[0].id, "b");
}

#[test]
fn overview_counts_ended_events_of_the_period() {
    let mut a = event("a");
    a.status = EventStatus::Ended;
    a.ended_at = Some(1704067200);
    a.duration_seconds = Some(100);
    a.chat_message_count = 3;
    let mut b = event("b");
    b.status = EventStatus::Ended;
    b.ended_at = Some(10);
    b.duration_seconds = Some(50);
    let samples = vec![
        ViewerSample { event_id: "a".into(), timestamp: 1, viewers: 4, bitrate_kbps: 0 },
        ViewerSample { event_id: "a".into(), timestamp: 2, viewers: 6, bitrate_kbps: 0 },
    ];
    let all = analytics_overview(&vec![a.clone(), b.clone()], &samples, None, None, 0);
    assert_eq!((all.total_streams, all.total_views, all.total_chat_messages, all.average_duration_seconds), (2, 10, 3, 75));
    let recent = analytics_overview(&vec![a, b], &samples, Some("2024-01-01T00:00:00Z".into()), None, 0);
    assert_eq!(recent.total_streams, 1);
    assert_eq!(recent.streams[0].event_id, "a");
    assert_eq!(recent.streams[0].average_concurrent_viewers, 5);
}

fn dotted(s: &str) -> Option<IpAddress> {
    let parts: Vec<u8> = s.split('.').filter_map(|p| p.parse().ok()).collect();
    if parts.len() == 4 {
        Some(v4(parts[0], parts[1], parts[2], parts[3]))
    } else {
        None
    }
}

fn v4(a: u8, b: u8, c: u8, d: u8) -> IpAddress {
    IpAddress::V4(u32::from_be_bytes([a, b, c, d]))
}

#[test]
fn ip_lists_block_and_allow() {
    let entry = |ip: &str| IpEntry { ip: ip.into(), label: None };
    let nets = |es: &Vec<IpEntry>| -> Vec<Option<IpAddress>> {
        es.iter()
            .map(|e| cidr_network(&e.ip).and_then(|n| dotted(&n)))
            .collect()
    };
    let block = SecurityConfig { ip_blocklist: vec![entry("192.168.1.100")], ..SecurityConfig::default() };
    let bn = nets(&block.ip_blocklist);
    let f = IpFilter::new(block);
    assert!(!f.is_allowed(&v4(192, 168, 1, 100), "192.168.1.100", &bn, &vec![]));
    assert!(f.is_allowed(&v4(192, 168, 1, 101), "192.168.1.101", &bn, &vec![]));
    let allow = SecurityConfig { ip_allowlist: vec![entry("10.0.0.0/8")], ..SecurityConfig::default() };
    let an = nets(&allow.ip_allowlist);
    let f = IpFilter::new(allow);
    assert!(f.is_allowed(&v4(10, 0, 0, 1), "10.0.0.1", &vec![], &an));
    assert!(!f.is_allowed(&v4(8, 8, 8, 8), "8.8.8.8", &vec![], &an));
    let cidr = entry("192.168.1.0/24");
    let n = Some(v4(192, 168, 1, 0));
    assert!(cidr.matches(&v4(192, 168, 1, 50), "192.168.1.50", n));
    assert!(!cidr.matches(&v4(192, 168, 2, 1), "192.168.2.1", n));
    assert!(!entry("1.2.3.4/8/9").matches(&v4(1, 2, 3, 4), "1.2.3.4", None));
    assert!(entry("::/1").matches(&IpAddress::V6(5), "::5", Some(IpAddress::V6(0))));
    assert_eq!(cidr_network("10.0.0.0/8").as_deref(), Some("10.0.0.0"));
}
