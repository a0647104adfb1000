//! The routes of the product API (`/api/v1`): method, path pattern,
//! handler, and whether the route sits behind the login check; and the
//! paths its OpenAPI document lists.

use vstd::prelude::*;

verus! {

/// A route: method, path pattern, handler name, and whether a session is
/// needed when login is required.
pub type Route = (Seq<char>, Seq<char>, Seq<char>, bool);

/// The texts of a list of routes.
pub open spec fn route_texts(r: Seq<(&'static str, &'static str, &'static str, bool)>) -> Seq<Route> {
    r.map_values(|x: (&'static str, &'static str, &'static str, bool)| (x.0@, x.1@, x.2@, x.3))
}

/// A run of routes of the table, in order.
pub open spec fn route_part_0() -> Seq<Route> {
    seq![
        ("GET"@, "/api/v1/health"@, "health"@, false),
        ("GET"@, "/api/v1/status"@, "dashboard_status"@, false),
        ("GET"@, "/api/v1/openapi.json"@, "openapi"@, false),
        ("GET"@, "/api/v1/setup/status"@, "setup_status"@, false),
        ("POST"@, "/api/v1/setup"@, "save_setup"@, false),
        ("GET"@, "/api/v1/platforms"@, "list_platform_catalog"@, false),
        ("GET"@, "/api/v1/ingest-servers"@, "list_ingest_servers"@, false),
        ("GET"@, "/api/v1/servers"@, "list_ingest_servers"@, false),
        ("POST"@, "/api/v1/auth/login"@, "login"@, false),
        ("POST"@, "/api/v1/auth/refresh"@, "refresh"@, false),
        ("POST"@, "/api/v1/auth/logout"@, "logout"@, false),
        ("GET"@, "/api/v1/me"@, "me"@, true),
        ("PATCH"@, "/api/v1/me"@, "update_me"@, true),
        ("GET"@, "/api/v1/profile"@, "me"@, true),
        ("PATCH"@, "/api/v1/profile"@, "update_me"@, true),
        ("GET"@, "/api/v1/user/profile"@, "me"@, true),
        ("PATCH"@, "/api/v1/user/profile"@, "update_me"@, true),
        ("GET"@, "/api/v1/ingest"@, "selected_ingest"@, true),
        ("GET"@, "/api/v1/user/ingest"@, "selected_ingest"@, true),
        ("GET"@, "/api/v1/stream-key"@, "global_stream_key"@, true),
    ]
}

fn push_part_0(r: &mut Vec<(&'static str, &'static str, &'static str, bool)>)
    ensures
        route_texts(final(r)@) == route_texts(old(r)@) + route_part_0(),
{
    r.push(("GET", "/api/v1/health", "health", false));
    r.push(("GET", "/api/v1/status", "dashboard_status", false));
    r.push(("GET", "/api/v1/openapi.json", "openapi", false));
    r.push(("GET", "/api/v1/setup/status", "setup_status", false));
    r.push(("POST", "/api/v1/setup", "save_setup", false));
    r.push(("GET", "/api/v1/platforms", "list_platform_catalog", false));
    r.push(("GET", "/api/v1/ingest-servers", "list_ingest_servers", false));
    r.push(("GET", "/api/v1/servers", "list_ingest_servers", false));
    r.push(("POST", "/api/v1/auth/login", "login", false));
    r.push(("POST", "/api/v1/auth/refresh", "refresh", false));
    r.push(("POST", "/api/v1/auth/logout", "logout", false));
    r.push(("GET", "/api/v1/me", "me", true));
    r.push(("PATCH", "/api/v1/me", "update_me", true));
    r.push(("GET", "/api/v1/profile", "me", true));
    r.push(("PATCH", "/api/v1/profile", "update_me", true));
    r.push(("GET", "/api/v1/user/profile", "me", true));
    r.push(("PATCH", "/api/v1/user/profile", "update_me", true));
    r.push(("GET", "/api/v1/ingest", "selected_ingest", true));
    r.push(("GET", "/api/v1/user/ingest", "selected_ingest", true));
    r.push(("GET", "/api/v1/stream-key", "global_stream_key", true));
    proof {
        assert(route_texts(final(r)@) =~= route_texts(old(r)@) + route_part_0());
    }
}

/// A run of routes of the table, in order.
pub open spec fn route_part_1() -> Seq<Route> {
    seq![
        ("POST"@, "/api/v1/stream-key/reset"@, "reset_global_stream_key"@, true),
        ("GET"@, "/api/v1/user/streamKey"@, "global_stream_key"@, true),
        ("GET"@, "/api/v1/chat-url"@, "chat_url"@, true),
        ("GET"@, "/api/v1/user/webchat/url"@, "chat_url"@, true),
        ("GET"@, "/api/v1/connections"@, "list_connections"@, true),
        ("DELETE"@, "/api/v1/connections/{id}"@, "delete_connection"@, true),
        ("GET"@, "/api/v1/oauth/{platform}/authorize"@, "oauth_authorize"@, true),
        ("POST"@, "/api/v1/oauth/{platform}/token"@, "oauth_token"@, true),
        ("GET"@, "/api/v1/channels"@, "list_channels"@, true),
        ("POST"@, "/api/v1/channels"@, "create_channel"@, true),
        ("GET"@, "/api/v1/channels/{id}"@, "get_channel"@, true),
        ("PATCH"@, "/api/v1/channels/{id}"@, "update_channel"@, true),
        ("DELETE"@, "/api/v1/channels/{id}"@, "delete_channel"@, true),
        ("GET"@, "/api/v1/channels/{id}/credentials"@, "channel_credentials"@, true),
        ("GET"@, "/api/v1/streams"@, "list_drafts"@, true),
        ("POST"@, "/api/v1/streams"@, "create_draft"@, true),
        ("GET"@, "/api/v1/streams/{id}"@, "get_draft"@, true),
        ("PATCH"@, "/api/v1/streams/{id}"@, "update_draft"@, true),
        ("DELETE"@, "/api/v1/streams/{id}"@, "delete_draft"@, true),
        ("POST"@, "/api/v1/streams/{id}/duplicate"@, "duplicate_draft"@, true),
    ]
}

fn push_part_1(r: &mut Vec<(&'static str, &'static str, &'static str, bool)>)
    ensures
        route_texts(final(r)@) == route_texts(old(r)@) + route_part_1(),
{
    r.push(("POST", "/api/v1/stream-key/reset", "reset_global_stream_key", true));
    r.push(("GET", "/api/v1/user/streamKey", "global_stream_key", true));
    r.push(("GET", "/api/v1/chat-url", "chat_url", true));
    r.push(("GET", "/api/v1/user/webchat/url", "chat_url", true));
    r.push(("GET", "/api/v1/connections", "list_connections", true));
    r.push(("DELETE", "/api/v1/connections/{id}", "delete_connection", true));
    r.push(("GET", "/api/v1/oauth/{platform}/authorize", "oauth_authorize", true));
    r.push(("POST", "/api/v1/oauth/{platform}/token", "oauth_token", true));
    r.push(("GET", "/api/v1/channels", "list_channels", true));
    r.push(("POST", "/api/v1/channels", "create_channel", true));
    r.push(("GET", "/api/v1/channels/{id}", "get_channel", true));
    r.push(("PATCH", "/api/v1/channels/{id}", "update_channel", true));
    r.push(("DELETE", "/api/v1/channels/{id}", "delete_channel", true));
    r.push(("GET", "/api/v1/channels/{id}/credentials", "channel_credentials", true));
    r.push(("GET", "/api/v1/streams", "list_drafts", true));
    r.push(("POST", "/api/v1/streams", "create_draft", true));
    r.push(("GET", "/api/v1/streams/{id}", "get_draft", true));
    r.push(("PATCH", "/api/v1/streams/{id}", "update_draft", true));
    r.push(("DELETE", "/api/v1/streams/{id}", "delete_draft", true));
    r.push(("POST", "/api/v1/streams/{id}/duplicate", "duplicate_draft", true));
    proof {
        assert(route_texts(final(r)@) =~= route_texts(old(r)@) + route_part_1());
    }
}

/// A run of routes of the table, in order.
pub open spec fn route_part_2() -> Seq<Route> {
    seq![
        ("GET"@, "/api/v1/events"@, "list_events"@, true),
        ("POST"@, "/api/v1/events"@, "create_event"@, true),
        ("GET"@, "/api/v1/events/upcoming"@, "upcoming_events"@, true),
        ("GET"@, "/api/v1/events/live"@, "live_events"@, true),
        ("GET"@, "/api/v1/events/history"@, "history_events"@, true),
        ("GET"@, "/api/v1/events/{id}"@, "get_event"@, true),
        ("PATCH"@, "/api/v1/events/{id}"@, "update_event"@, true),
        ("DELETE"@, "/api/v1/events/{id}"@, "delete_event"@, true),
        ("POST"@, "/api/v1/events/{id}/destinations"@, "add_event_destination"@, true),
        ("DELETE"@, "/api/v1/events/{id}/destinations/{destination_id}"@, "remove_event_destination"@, true),
        ("GET"@, "/api/v1/events/{id}/stream-key"@, "event_stream_key"@, true),
        ("GET"@, "/api/v1/events/{id}/srt-keys"@, "event_srt_keys"@, true),
        ("POST"@, "/api/v1/events/{id}/go-live"@, "go_live"@, true),
        ("POST"@, "/api/v1/events/{id}/end"@, "end_event"@, true),
        ("GET"@, "/api/v1/events/{id}/recordings"@, "event_recordings"@, true),
        ("POST"@, "/api/v1/events/{id}/recordings/start"@, "start_event_recording_route"@, true),
        ("POST"@, "/api/v1/events/{id}/recordings/stop"@, "stop_event_recording_route"@, true),
        ("POST"@, "/api/v1/events/{id}/recordings/download-url"@, "recording_download_url"@, true),
        ("GET"@, "/api/v1/events/{id}/recordings/transcriptions"@, "event_transcriptions"@, true),
        ("POST"@, "/api/v1/events/{id}/recordings/transcriptions"@, "request_transcription"@, true),
    ]
}

fn push_part_2(r: &mut Vec<(&'static str, &'static str, &'static str, bool)>)
    ensures
        route_texts(final(r)@) == route_texts(old(r)@) + route_part_2(),
{
    r.push(("GET", "/api/v1/events", "list_events", true));
    r.push(("POST", "/api/v1/events", "create_event", true));
    r.push(("GET", "/api/v1/events/upcoming", "upcoming_events", true));
    r.push(("GET", "/api/v1/events/live", "live_events", true));
    r.push(("GET", "/api/v1/events/history", "history_events", true));
    r.push(("GET", "/api/v1/events/{id}", "get_event", true));
    r.push(("PATCH", "/api/v1/events/{id}", "update_event", true));
    r.push(("DELETE", "/api/v1/events/{id}", "delete_event", true));
    r.push(("POST", "/api/v1/events/{id}/destinations", "add_event_destination", true));
    r.push(("DELETE", "/api/v1/events/{id}/destinations/{destination_id}", "remove_event_destination", true));
    r.push(("GET", "/api/v1/events/{id}/stream-key", "event_stream_key", true));
    r.push(("GET", "/api/v1/events/{id}/srt-keys", "event_srt_keys", true));
    r.push(("POST", "/api/v1/events/{id}/go-live", "go_live", true));
    r.push(("POST", "/api/v1/events/{id}/end", "end_event", true));
    r.push(("GET", "/api/v1/events/{id}/recordings", "event_recordings", true));
    r.push(("POST", "/api/v1/events/{id}/recordings/start", "start_event_recording_route", true));
    r.push(("POST", "/api/v1/events/{id}/recordings/stop", "stop_event_recording_route", true));
    r.push(("POST", "/api/v1/events/{id}/recordings/download-url", "recording_download_url", true));
    r.push(("GET", "/api/v1/events/{id}/recordings/transcriptions", "event_transcriptions", true));
    r.push(("POST", "/api/v1/events/{id}/recordings/transcriptions", "request_transcription", true));
    proof {
        assert(route_texts(final(r)@) =~= route_texts(old(r)@) + route_part_2());
    }
}

/// A run of routes of the table, in order.
pub open spec fn route_part_3() -> Seq<Route> {
    seq![
        ("GET"@, "/api/v1/events/{id}/chat"@, "event_chat"@, true),
        ("POST"@, "/api/v1/events/{id}/chat/history/download-url"@, "chat_history_download_url"@, true),
        ("GET"@, "/api/v1/events/{id}/analytics"@, "event_analytics"@, true),
        ("GET"@, "/api/v1/events/{id}/analytics/viewers"@, "event_viewer_analytics"@, true),
        ("GET"@, "/api/v1/events/{id}/analytics/messages"@, "event_message_analytics"@, true),
        ("GET"@, "/api/v1/events/{id}/transcriptions"@, "event_transcriptions"@, true),
        ("POST"@, "/api/v1/events/{id}/transcriptions"@, "request_transcription"@, true),
        ("GET"@, "/api/v1/events/{id}/chat-export"@, "event_chat_export"@, true),
        ("GET"@, "/api/v1/events/{id}/viewers"@, "list_viewers"@, true),
        ("POST"@, "/api/v1/events/{id}/viewers"@, "record_viewers"@, true),
        ("GET"@, "/api/v1/chat/messages"@, "list_chat"@, true),
        ("POST"@, "/api/v1/chat/messages"@, "send_chat"@, true),
        ("DELETE"@, "/api/v1/chat/messages/{id}"@, "delete_chat"@, true),
        ("GET"@, "/api/v1/chat/sources"@, "chat_sources"@, true),
        ("GET"@, "/api/v1/chat/actions"@, "chat_actions"@, true),
        ("GET"@, "/api/v1/chat/connections"@, "chat_connections"@, true),
        ("GET"@, "/api/v1/chat/events"@, "chat_events"@, true),
        ("POST"@, "/api/v1/chat/reply"@, "reply_chat"@, true),
        ("POST"@, "/api/v1/chat/relay"@, "relay_chat"@, true),
        ("GET"@, "/api/v1/chat/ws"@, "chat_ws"@, true),
    ]
}

fn push_part_3(r: &mut Vec<(&'static str, &'static str, &'static str, bool)>)
    ensures
        route_texts(final(r)@) == route_texts(old(r)@) + route_part_3(),
{
    r.push(("GET", "/api/v1/events/{id}/chat", "event_chat", true));
    r.push(("POST", "/api/v1/events/{id}/chat/history/download-url", "chat_history_download_url", true));
    r.push(("GET", "/api/v1/events/{id}/analytics", "event_analytics", true));
    r.push(("GET", "/api/v1/events/{id}/analytics/viewers", "event_viewer_analytics", true));
    r.push(("GET", "/api/v1/events/{id}/analytics/messages", "event_message_analytics", true));
    r.push(("GET", "/api/v1/events/{id}/transcriptions", "event_transcriptions", true));
    r.push(("POST", "/api/v1/events/{id}/transcriptions", "request_transcription", true));
    r.push(("GET", "/api/v1/events/{id}/chat-export", "event_chat_export", true));
    r.push(("GET", "/api/v1/events/{id}/viewers", "list_viewers", true));
    r.push(("POST", "/api/v1/events/{id}/viewers", "record_viewers", true));
    r.push(("GET", "/api/v1/chat/messages", "list_chat", true));
    r.push(("POST", "/api/v1/chat/messages", "send_chat", true));
    r.push(("DELETE", "/api/v1/chat/messages/{id}", "delete_chat", true));
    r.push(("GET", "/api/v1/chat/sources", "chat_sources", true));
    r.push(("GET", "/api/v1/chat/actions", "chat_actions", true));
    r.push(("GET", "/api/v1/chat/connections", "chat_connections", true));
    r.push(("GET", "/api/v1/chat/events", "chat_events", true));
    r.push(("POST", "/api/v1/chat/reply", "reply_chat", true));
    r.push(("POST", "/api/v1/chat/relay", "relay_chat", true));
    r.push(("GET", "/api/v1/chat/ws", "chat_ws", true));
    proof {
        assert(route_texts(final(r)@) =~= route_texts(old(r)@) + route_part_3());
    }
}

/// A run of routes of the table, in order.
pub open spec fn route_part_4() -> Seq<Route> {
    seq![
        ("GET"@, "/api/v1/streaming/ws"@, "streaming_ws"@, true),
        ("GET"@, "/api/v1/recordings"@, "list_product_recordings"@, true),
        ("POST"@, "/api/v1/recordings"@, "start_product_recording"@, true),
        ("POST"@, "/api/v1/recordings/{id}/stop"@, "stop_product_recording"@, true),
        ("DELETE"@, "/api/v1/recordings/{id}"@, "delete_product_recording"@, true),
        ("GET"@, "/api/v1/analytics/overview"@, "analytics_overview"@, true),
        ("GET"@, "/api/v1/analytics/timeseries"@, "analytics_timeseries"@, true),
        ("GET"@, "/api/v1/storage/files"@, "list_files"@, true),
        ("POST"@, "/api/v1/storage/files"@, "upload_file"@, true),
        ("POST"@, "/api/v1/storage/metadata"@, "create_storage_metadata"@, true),
        ("GET"@, "/api/v1/storage/files/{id}"@, "get_file"@, true),
        ("PATCH"@, "/api/v1/storage/files/{id}"@, "update_file"@, true),
        ("DELETE"@, "/api/v1/storage/files/{id}"@, "delete_file"@, true),
        ("GET"@, "/api/v1/storage/files/{id}/download"@, "download_file"@, true),
        ("POST"@, "/api/v1/storage/files/{id}/download-url"@, "file_download_url"@, true),
        ("GET"@, "/api/v1/clips/projects"@, "list_clips"@, true),
        ("POST"@, "/api/v1/clips/projects"@, "create_clip"@, true),
        ("GET"@, "/api/v1/clips/projects/{id}"@, "get_clip"@, true),
        ("DELETE"@, "/api/v1/clips/projects/{id}"@, "delete_clip"@, true),
        ("GET"@, "/api/v1/clips/projects/{id}/download"@, "download_clip"@, true),
    ]
}

fn push_part_4(r: &mut Vec<(&'static str, &'static str, &'static str, bool)>)
    ensures
        route_texts(final(r)@) == route_texts(old(r)@) + route_part_4(),
{
    r.push(("GET", "/api/v1/streaming/ws", "streaming_ws", true));
    r.push(("GET", "/api/v1/recordings", "list_product_recordings", true));
    r.push(("POST", "/api/v1/recordings", "start_product_recording", true));
    r.push(("POST", "/api/v1/recordings/{id}/stop", "stop_product_recording", true));
    r.push(("DELETE", "/api/v1/recordings/{id}", "delete_product_recording", true));
    r.push(("GET", "/api/v1/analytics/overview", "analytics_overview", true));
    r.push(("GET", "/api/v1/analytics/timeseries", "analytics_timeseries", true));
    r.push(("GET", "/api/v1/storage/files", "list_files", true));
    r.push(("POST", "/api/v1/storage/files", "upload_file", true));
    r.push(("POST", "/api/v1/storage/metadata", "create_storage_metadata", true));
    r.push(("GET", "/api/v1/storage/files/{id}", "get_file", true));
    r.push(("PATCH", "/api/v1/storage/files/{id}", "update_file", true));
    r.push(("DELETE", "/api/v1/storage/files/{id}", "delete_file", true));
    r.push(("GET", "/api/v1/storage/files/{id}/download", "download_file", true));
    r.push(("POST", "/api/v1/storage/files/{id}/download-url", "file_download_url", true));
    r.push(("GET", "/api/v1/clips/projects", "list_clips", true));
    r.push(("POST", "/api/v1/clips/projects", "create_clip", true));
    r.push(("GET", "/api/v1/clips/projects/{id}", "get_clip", true));
    r.push(("DELETE", "/api/v1/clips/projects/{id}", "delete_clip", true));
    r.push(("GET", "/api/v1/clips/projects/{id}/download", "download_clip", true));
    proof {
        assert(route_texts(final(r)@) =~= route_texts(old(r)@) + route_part_4());
    }
}

/// A run of routes of the table, in order.
pub open spec fn route_part_5() -> Seq<Route> {
    seq![
        ("GET"@, "/api/v1/studio/sessions"@, "list_studio_sessions"@, true),
        ("POST"@, "/api/v1/studio/sessions"@, "create_studio_session"@, true),
        ("GET"@, "/api/v1/studio/sessions/{id}"@, "get_studio_session"@, true),
        ("PATCH"@, "/api/v1/studio/sessions/{id}"@, "update_studio_session"@, true),
        ("POST"@, "/api/v1/studio/sessions/{id}/start"@, "start_studio_session"@, true),
        ("POST"@, "/api/v1/studio/sessions/{id}/end"@, "end_studio_session"@, true),
        ("POST"@, "/api/v1/studio/sessions/{id}/guests"@, "add_guest"@, true),
        ("DELETE"@, "/api/v1/studio/sessions/{id}/guests/{guest_id}"@, "remove_guest"@, true),
        ("POST"@, "/api/v1/studio/sessions/{id}/scenes"@, "add_scene"@, true),
        ("PATCH"@, "/api/v1/studio/sessions/{id}/scenes/{scene_id}"@, "update_scene"@, true),
        ("GET"@, "/api/v1/studio/brands"@, "list_brands"@, true),
        ("POST"@, "/api/v1/studio/brands"@, "create_brand"@, true),
        ("PATCH"@, "/api/v1/studio/brands/{id}"@, "update_brand"@, true),
        ("DELETE"@, "/api/v1/studio/brands/{id}"@, "delete_brand"@, true),
        ("GET"@, "/api/v1/studio/captions"@, "list_captions"@, true),
        ("POST"@, "/api/v1/studio/captions"@, "create_caption"@, true),
        ("PATCH"@, "/api/v1/studio/captions/{id}"@, "update_caption"@, true),
        ("DELETE"@, "/api/v1/studio/captions/{id}"@, "delete_caption"@, true),
        ("GET"@, "/api/v1/studio/qr-codes"@, "list_qr_codes"@, true),
        ("POST"@, "/api/v1/studio/qr-codes"@, "create_qr_code"@, true),
    ]
}

fn push_part_5(r: &mut Vec<(&'static str, &'static str, &'static str, bool)>)
    ensures
        route_texts(final(r)@) == route_texts(old(r)@) + route_part_5(),
{
    r.push(("GET", "/api/v1/studio/sessions", "list_studio_sessions", true));
    r.push(("POST", "/api/v1/studio/sessions", "create_studio_session", true));
    r.push(("GET", "/api/v1/studio/sessions/{id}", "get_studio_session", true));
    r.push(("PATCH", "/api/v1/studio/sessions/{id}", "update_studio_session", true));
    r.push(("POST", "/api/v1/studio/sessions/{id}/start", "start_studio_session", true));
    r.push(("POST", "/api/v1/studio/sessions/{id}/end", "end_studio_session", true));
    r.push(("POST", "/api/v1/studio/sessions/{id}/guests", "add_guest", true));
    r.push(("DELETE", "/api/v1/studio/sessions/{id}/guests/{guest_id}", "remove_guest", true));
    r.push(("POST", "/api/v1/studio/sessions/{id}/scenes", "add_scene", true));
    r.push(("PATCH", "/api/v1/studio/sessions/{id}/scenes/{scene_id}", "update_scene", true));
    r.push(("GET", "/api/v1/studio/brands", "list_brands", true));
    r.push(("POST", "/api/v1/studio/brands", "create_brand", true));
    r.push(("PATCH", "/api/v1/studio/brands/{id}", "update_brand", true));
    r.push(("DELETE", "/api/v1/studio/brands/{id}", "delete_brand", true));
    r.push(("GET", "/api/v1/studio/captions", "list_captions", true));
    r.push(("POST", "/api/v1/studio/captions", "create_caption", true));
    r.push(("PATCH", "/api/v1/studio/captions/{id}", "update_caption", true));
    r.push(("DELETE", "/api/v1/studio/captions/{id}", "delete_caption", true));
    r.push(("GET", "/api/v1/studio/qr-codes", "list_qr_codes", true));
    r.push(("POST", "/api/v1/studio/qr-codes", "create_qr_code", true));
    proof {
        assert(route_texts(final(r)@) =~= route_texts(old(r)@) + route_part_5());
    }
}

/// A run of routes of the table, in order.
pub open spec fn route_part_6() -> Seq<Route> {
    seq![
        ("PATCH"@, "/api/v1/studio/qr-codes/{id}"@, "update_qr_code"@, true),
        ("DELETE"@, "/api/v1/studio/qr-codes/{id}"@, "delete_qr_code"@, true),
        ("PATCH"@, "/api/v1/studio/qr-codes/reorder"@, "reorder_qr_codes"@, true),
        ("GET"@, "/api/v1/studio/tickers"@, "list_tickers"@, true),
        ("POST"@, "/api/v1/studio/tickers"@, "create_ticker"@, true),
        ("PATCH"@, "/api/v1/studio/tickers/{id}"@, "update_ticker"@, true),
        ("DELETE"@, "/api/v1/studio/tickers/{id}"@, "delete_ticker"@, true),
        ("PATCH"@, "/api/v1/studio/tickers/reorder"@, "reorder_tickers"@, true),
        ("GET"@, "/api/v1/studio/fonts"@, "list_fonts"@, true),
        ("GET"@, "/api/v1/studio/audio/countdown"@, "list_countdown_audio"@, true),
        ("GET"@, "/api/v1/studio/audio/backgrounds"@, "list_background_audio"@, true),
        ("GET"@, "/api/v1/webhooks"@, "list_webhooks"@, true),
        ("POST"@, "/api/v1/webhooks"@, "create_webhook"@, true),
        ("PATCH"@, "/api/v1/webhooks/{id}"@, "update_webhook"@, true),
        ("DELETE"@, "/api/v1/webhooks/{id}"@, "delete_webhook"@, true),
        ("POST"@, "/api/v1/webhooks/{id}/test"@, "test_webhook"@, true),
    ]
}

fn push_part_6(r: &mut Vec<(&'static str, &'static str, &'static str, bool)>)
    ensures
        route_texts(final(r)@) == route_texts(old(r)@) + route_part_6(),
{
    r.push(("PATCH", "/api/v1/studio/qr-codes/{id}", "update_qr_code", true));
    r.push(("DELETE", "/api/v1/studio/qr-codes/{id}", "delete_qr_code", true));
    r.push(("PATCH", "/api/v1/studio/qr-codes/reorder", "reorder_qr_codes", true));
    r.push(("GET", "/api/v1/studio/tickers", "list_tickers", true));
    r.push(("POST", "/api/v1/studio/tickers", "create_ticker", true));
    r.push(("PATCH", "/api/v1/studio/tickers/{id}", "update_ticker", true));
    r.push(("DELETE", "/api/v1/studio/tickers/{id}", "delete_ticker", true));
    r.push(("PATCH", "/api/v1/studio/tickers/reorder", "reorder_tickers", true));
    r.push(("GET", "/api/v1/studio/fonts", "list_fonts", true));
    r.push(("GET", "/api/v1/studio/audio/countdown", "list_countdown_audio", true));
    r.push(("GET", "/api/v1/studio/audio/backgrounds", "list_background_audio", true));
    r.push(("GET", "/api/v1/webhooks", "list_webhooks", true));
    r.push(("POST", "/api/v1/webhooks", "create_webhook", true));
    r.push(("PATCH", "/api/v1/webhooks/{id}", "update_webhook", true));
    r.push(("DELETE", "/api/v1/webhooks/{id}", "delete_webhook", true));
    r.push(("POST", "/api/v1/webhooks/{id}/test", "test_webhook", true));
    proof {
        assert(route_texts(final(r)@) =~= route_texts(old(r)@) + route_part_6());
    }
}

/// Every route of the product API, public ones first, in the order the
/// router lists them.
pub open spec fn v1_route_table() -> Seq<Route> {
    route_part_0() + route_part_1() + route_part_2() + route_part_3() + route_part_4() + route_part_5() + route_part_6()
}

/// The routes of the product API, in the order the router lists them.
pub fn v1_routes() -> (r: Vec<(&'static str, &'static str, &'static str, bool)>)
    ensures
        route_texts(r@) == v1_route_table(),
{
    let mut r: Vec<(&'static str, &'static str, &'static str, bool)> = Vec::new();
    proof {
        assert(route_texts(r@) =~= Seq::<Route>::empty());
    }
    push_part_0(&mut r);
    push_part_1(&mut r);
    push_part_2(&mut r);
    push_part_3(&mut r);
    push_part_4(&mut r);
    push_part_5(&mut r);
    push_part_6(&mut r);
    proof {
        assert(route_texts(r@) =~= v1_route_table());
    }
    r
}

/// The texts of a list of paths.
pub open spec fn path_texts(r: Seq<&'static str>) -> Seq<Seq<char>> {
    r.map_values(|x: &'static str| x@)
}

/// A run of documented paths, in order.
pub open spec fn documented_part_0() -> Seq<Seq<char>> {
    seq![
        "/api/v1/health"@,
        "/api/v1/status"@,
        "/api/v1/openapi.json"@,
        "/api/v1/setup/status"@,
        "/api/v1/setup"@,
        "/api/v1/auth/login"@,
        "/api/v1/auth/refresh"@,
        "/api/v1/auth/logout"@,
        "/api/v1/me"@,
        "/api/v1/profile"@,
        "/api/v1/user/profile"@,
        "/api/v1/ingest"@,
        "/api/v1/user/ingest"@,
        "/api/v1/stream-key"@,
        "/api/v1/stream-key/reset"@,
        "/api/v1/user/streamKey"@,
        "/api/v1/chat-url"@,
        "/api/v1/user/webchat/url"@,
        "/api/v1/connections"@,
        "/api/v1/connections/{id}"@,
    ]
}

fn push_documented_0(r: &mut Vec<&'static str>)
    ensures
        path_texts(final(r)@) == path_texts(old(r)@) + documented_part_0(),
{
    r.push("/api/v1/health");
    r.push("/api/v1/status");
    r.push("/api/v1/openapi.json");
    r.push("/api/v1/setup/status");
    r.push("/api/v1/setup");
    r.push("/api/v1/auth/login");
    r.push("/api/v1/auth/refresh");
    r.push("/api/v1/auth/logout");
    r.push("/api/v1/me");
    r.push("/api/v1/profile");
    r.push("/api/v1/user/profile");
    r.push("/api/v1/ingest");
    r.push("/api/v1/user/ingest");
    r.push("/api/v1/stream-key");
    r.push("/api/v1/stream-key/reset");
    r.push("/api/v1/user/streamKey");
    r.push("/api/v1/chat-url");
    r.push("/api/v1/user/webchat/url");
    r.push("/api/v1/connections");
    r.push("/api/v1/connections/{id}");
    proof {
        assert(path_texts(final(r)@) =~= path_texts(old(r)@) + documented_part_0());
    }
}

/// A run of documented paths, in order.
pub open spec fn documented_part_1() -> Seq<Seq<char>> {
    seq![
        "/api/v1/oauth/{platform}/authorize"@,
        "/api/v1/oauth/{platform}/token"@,
        "/api/v1/platforms"@,
        "/api/v1/ingest-servers"@,
        "/api/v1/servers"@,
        "/api/v1/channels"@,
        "/api/v1/channels/{id}"@,
        "/api/v1/channels/{id}/credentials"@,
        "/api/v1/streams"@,
        "/api/v1/streams/{id}"@,
        "/api/v1/streams/{id}/duplicate"@,
        "/api/v1/events"@,
        "/api/v1/events/upcoming"@,
        "/api/v1/events/live"@,
        "/api/v1/events/history"@,
        "/api/v1/events/{id}"@,
        "/api/v1/events/{id}/destinations"@,
        "/api/v1/events/{id}/destinations/{destination_id}"@,
        "/api/v1/events/{id}/stream-key"@,
        "/api/v1/events/{id}/srt-keys"@,
    ]
}

fn push_documented_1(r: &mut Vec<&'static str>)
    ensures
        path_texts(final(r)@) == path_texts(old(r)@) + documented_part_1(),
{
    r.push("/api/v1/oauth/{platform}/authorize");
    r.push("/api/v1/oauth/{platform}/token");
    r.push("/api/v1/platforms");
    r.push("/api/v1/ingest-servers");
    r.push("/api/v1/servers");
    r.push("/api/v1/channels");
    r.push("/api/v1/channels/{id}");
    r.push("/api/v1/channels/{id}/credentials");
    r.push("/api/v1/streams");
    r.push("/api/v1/streams/{id}");
    r.push("/api/v1/streams/{id}/duplicate");
    r.push("/api/v1/events");
    r.push("/api/v1/events/upcoming");
    r.push("/api/v1/events/live");
    r.push("/api/v1/events/history");
    r.push("/api/v1/events/{id}");
    r.push("/api/v1/events/{id}/destinations");
    r.push("/api/v1/events/{id}/destinations/{destination_id}");
    r.push("/api/v1/events/{id}/stream-key");
    r.push("/api/v1/events/{id}/srt-keys");
    proof {
        assert(path_texts(final(r)@) =~= path_texts(old(r)@) + documented_part_1());
    }
}

/// A run of documented paths, in order.
pub open spec fn documented_part_2() -> Seq<Seq<char>> {
    seq![
        "/api/v1/events/{id}/go-live"@,
        "/api/v1/events/{id}/end"@,
        "/api/v1/events/{id}/recordings"@,
        "/api/v1/events/{id}/recordings/start"@,
        "/api/v1/events/{id}/recordings/stop"@,
        "/api/v1/events/{id}/recordings/download-url"@,
        "/api/v1/events/{id}/recordings/transcriptions"@,
        "/api/v1/events/{id}/chat"@,
        "/api/v1/events/{id}/chat/history/download-url"@,
        "/api/v1/events/{id}/analytics"@,
        "/api/v1/events/{id}/analytics/viewers"@,
        "/api/v1/events/{id}/analytics/messages"@,
        "/api/v1/events/{id}/viewers"@,
        "/api/v1/events/{id}/transcriptions"@,
        "/api/v1/events/{id}/chat-export"@,
        "/api/v1/chat/messages"@,
        "/api/v1/chat/messages/{id}"@,
        "/api/v1/chat/sources"@,
        "/api/v1/chat/actions"@,
        "/api/v1/chat/connections"@,
    ]
}

fn push_documented_2(r: &mut Vec<&'static str>)
    ensures
        path_texts(final(r)@) == path_texts(old(r)@) + documented_part_2(),
{
    r.push("/api/v1/events/{id}/go-live");
    r.push("/api/v1/events/{id}/end");
    r.push("/api/v1/events/{id}/recordings");
    r.push("/api/v1/events/{id}/recordings/start");
    r.push("/api/v1/events/{id}/recordings/stop");
    r.push("/api/v1/events/{id}/recordings/download-url");
    r.push("/api/v1/events/{id}/recordings/transcriptions");
    r.push("/api/v1/events/{id}/chat");
    r.push("/api/v1/events/{id}/chat/history/download-url");
    r.push("/api/v1/events/{id}/analytics");
    r.push("/api/v1/events/{id}/analytics/viewers");
    r.push("/api/v1/events/{id}/analytics/messages");
    r.push("/api/v1/events/{id}/viewers");
    r.push("/api/v1/events/{id}/transcriptions");
    r.push("/api/v1/events/{id}/chat-export");
    r.push("/api/v1/chat/messages");
    r.push("/api/v1/chat/messages/{id}");
    r.push("/api/v1/chat/sources");
    r.push("/api/v1/chat/actions");
    r.push("/api/v1/chat/connections");
    proof {
        assert(path_texts(final(r)@) =~= path_texts(old(r)@) + documented_part_2());
    }
}

/// A run of documented paths, in order.
pub open spec fn documented_part_3() -> Seq<Seq<char>> {
    seq![
        "/api/v1/chat/events"@,
        "/api/v1/chat/reply"@,
        "/api/v1/chat/relay"@,
        "/api/v1/chat/ws"@,
        "/api/v1/streaming/ws"@,
        "/api/v1/recordings"@,
        "/api/v1/recordings/{id}/stop"@,
        "/api/v1/recordings/{id}"@,
        "/api/v1/analytics/overview"@,
        "/api/v1/analytics/timeseries"@,
        "/api/v1/storage/files"@,
        "/api/v1/storage/metadata"@,
        "/api/v1/storage/files/{id}"@,
        "/api/v1/storage/files/{id}/download"@,
        "/api/v1/storage/files/{id}/download-url"@,
        "/api/v1/clips/projects"@,
        "/api/v1/clips/projects/{id}"@,
        "/api/v1/clips/projects/{id}/download"@,
        "/api/v1/studio/sessions"@,
        "/api/v1/studio/sessions/{id}"@,
    ]
}

fn push_documented_3(r: &mut Vec<&'static str>)
    ensures
        path_texts(final(r)@) == path_texts(old(r)@) + documented_part_3(),
{
    r.push("/api/v1/chat/events");
    r.push("/api/v1/chat/reply");
    r.push("/api/v1/chat/relay");
    r.push("/api/v1/chat/ws");
    r.push("/api/v1/streaming/ws");
    r.push("/api/v1/recordings");
    r.push("/api/v1/recordings/{id}/stop");
    r.push("/api/v1/recordings/{id}");
    r.push("/api/v1/analytics/overview");
    r.push("/api/v1/analytics/timeseries");
    r.push("/api/v1/storage/files");
    r.push("/api/v1/storage/metadata");
    r.push("/api/v1/storage/files/{id}");
    r.push("/api/v1/storage/files/{id}/download");
    r.push("/api/v1/storage/files/{id}/download-url");
    r.push("/api/v1/clips/projects");
    r.push("/api/v1/clips/projects/{id}");
    r.push("/api/v1/clips/projects/{id}/download");
    r.push("/api/v1/studio/sessions");
    r.push("/api/v1/studio/sessions/{id}");
    proof {
        assert(path_texts(final(r)@) =~= path_texts(old(r)@) + documented_part_3());
    }
}

/// A run of documented paths, in order.
pub open spec fn documented_part_4() -> Seq<Seq<char>> {
    seq![
        "/api/v1/studio/sessions/{id}/start"@,
        "/api/v1/studio/sessions/{id}/end"@,
        "/api/v1/studio/sessions/{id}/guests"@,
        "/api/v1/studio/sessions/{id}/guests/{guest_id}"@,
        "/api/v1/studio/sessions/{id}/scenes"@,
        "/api/v1/studio/sessions/{id}/scenes/{scene_id}"@,
        "/api/v1/studio/brands"@,
        "/api/v1/studio/brands/{id}"@,
        "/api/v1/studio/captions"@,
        "/api/v1/studio/captions/{id}"@,
        "/api/v1/studio/qr-codes"@,
        "/api/v1/studio/qr-codes/{id}"@,
        "/api/v1/studio/qr-codes/reorder"@,
        "/api/v1/studio/tickers"@,
        "/api/v1/studio/tickers/{id}"@,
        "/api/v1/studio/tickers/reorder"@,
        "/api/v1/studio/fonts"@,
        "/api/v1/studio/audio/countdown"@,
        "/api/v1/studio/audio/backgrounds"@,
        "/api/v1/webhooks"@,
    ]
}

fn push_documented_4(r: &mut Vec<&'static str>)
    ensures
        path_texts(final(r)@) == path_texts(old(r)@) + documented_part_4(),
{
    r.push("/api/v1/studio/sessions/{id}/start");
    r.push("/api/v1/studio/sessions/{id}/end");
    r.push("/api/v1/studio/sessions/{id}/guests");
    r.push("/api/v1/studio/sessions/{id}/guests/{guest_id}");
    r.push("/api/v1/studio/sessions/{id}/scenes");
    r.push("/api/v1/studio/sessions/{id}/scenes/{scene_id}");
    r.push("/api/v1/studio/brands");
    r.push("/api/v1/studio/brands/{id}");
    r.push("/api/v1/studio/captions");
    r.push("/api/v1/studio/captions/{id}");
    r.push("/api/v1/studio/qr-codes");
    r.push("/api/v1/studio/qr-codes/{id}");
    r.push("/api/v1/studio/qr-codes/reorder");
    r.push("/api/v1/studio/tickers");
    r.push("/api/v1/studio/tickers/{id}");
    r.push("/api/v1/studio/tickers/reorder");
    r.push("/api/v1/studio/fonts");
    r.push("/api/v1/studio/audio/countdown");
    r.push("/api/v1/studio/audio/backgrounds");
    r.push("/api/v1/webhooks");
    proof {
        assert(path_texts(final(r)@) =~= path_texts(old(r)@) + documented_part_4());
    }
}

/// A run of documented paths, in order.
pub open spec fn documented_part_5() -> Seq<Seq<char>> {
    seq![
        "/api/v1/webhooks/{id}"@,
        "/api/v1/webhooks/{id}/test"@,
    ]
}

fn push_documented_5(r: &mut Vec<&'static str>)
    ensures
        path_texts(final(r)@) == path_texts(old(r)@) + documented_part_5(),
{
    r.push("/api/v1/webhooks/{id}");
    r.push("/api/v1/webhooks/{id}/test");
    proof {
        assert(path_texts(final(r)@) =~= path_texts(old(r)@) + documented_part_5());
    }
}

/// The paths the OpenAPI document of the product API lists, in order.
pub open spec fn documented_paths() -> Seq<Seq<char>> {
    documented_part_0() + documented_part_1() + documented_part_2() + documented_part_3() + documented_part_4() + documented_part_5()
}

/// The paths the OpenAPI document lists, in order; each is described as
/// documented elsewhere.
pub fn openapi_paths() -> (r: Vec<&'static str>)
    ensures
        path_texts(r@) == documented_paths(),
{
    let mut r: Vec<&'static str> = Vec::new();
    proof {
        assert(path_texts(r@) =~= Seq::<Seq<char>>::empty());
    }
    push_documented_0(&mut r);
    push_documented_1(&mut r);
    push_documented_2(&mut r);
    push_documented_3(&mut r);
    push_documented_4(&mut r);
    push_documented_5(&mut r);
    proof {
        assert(path_texts(r@) =~= documented_paths());
    }
    r
}

} // verus!
