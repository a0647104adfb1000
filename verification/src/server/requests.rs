//! The checks the product API makes of requests that create or change
//! drafts and events, before the store is touched.

use vstd::prelude::*;

use crate::server::api_v1::{
    ApiError, bad_request, http_url_problem, is_bad_request, not_found, parse_http_url, parse_stream_type, required,
    stream_type_named,
};
use crate::server::records::{Keyed, find_keyed, has_keyed, key_at};
use crate::server::restream::{Brand, Channel, Draft, StorageFile, StreamType};
use crate::server::schedule::{is_valid_scheduled_for, scheduled_seconds};
use crate::parse::trimmed;
use crate::text::{ascii_lower, join3, owned};

verus! {

/// Why a request is turned down.
pub enum Rejection {
    /// 400: the request is malformed; the message.
    Bad(Seq<char>),
    /// 404: a resource it names does not exist.
    NotFound(Seq<char>),
    /// 422: a destination it names is not a channel.
    UnknownChannel(Seq<char>),
}

/// Whether `e` is the reply for `r`.
pub open spec fn rejected_as(e: ApiError, r: Rejection) -> bool {
    match r {
        Rejection::Bad(m) => is_bad_request(e, m),
        Rejection::NotFound(what) => e.status == 404 && e.code@ == "not_found"@ && e.message@ == what + " not found"@,
        Rejection::UnknownChannel(id) => e.status == 422 && e.code@ == "unknown_channel"@ && e.message@ == "channel "@
            + id + " does not exist"@,
    }
}

/// The reply for a destination that is not a channel.
pub fn unknown_channel(destination_id: &str) -> (e: ApiError)
    ensures
        rejected_as(e, Rejection::UnknownChannel(destination_id@)),
{
    ApiError {
        status: 422,
        code: owned("unknown_channel"),
        message: join3("channel ", destination_id, " does not exist"),
    }
}

/// The first destination from index `i` on that is not a channel, or -1.
pub open spec fn missing_channel(ids: Seq<String>, channels: Seq<Channel>, i: int) -> int
    decreases ids.len() - i,
{
    if i < 0 || i >= ids.len() {
        -1
    } else if key_at(channels, ids[i]@, 0) == -1 {
        i
    } else {
        missing_channel(ids, channels, i + 1)
    }
}

/// Checks that every destination names a channel; the first that does
/// not is reported.
pub fn validate_destination_ids(channels: &Vec<Channel>, ids: &Vec<String>) -> (r: Result<(), ApiError>)
    ensures
        ({
            let m = missing_channel(ids@, channels@, 0);
            if m == -1 {
                r is Ok
            } else {
                r matches Err(e) && rejected_as(e, Rejection::UnknownChannel(ids@[m]@))
            }
        }),
{
    let n = ids.len();
    for i in 0..n
        invariant
            n == ids@.len(),
            missing_channel(ids@, channels@, 0) == missing_channel(ids@, channels@, i as int),
    {
        if !has_keyed(channels, ids[i].as_str()) {
            return Err(unknown_channel(ids[i].as_str()));
        }
    }
    Ok(())
}

/// What a stream type name reads as: the type, or the message that turns
/// the name down.
pub open spec fn stream_type_result(value: Option<Seq<char>>) -> Result<StreamType, Seq<char>> {
    let name = match value {
        Some(v) => v,
        None => "encoder"@,
    };
    match stream_type_named(name) {
        Some(t) => Ok(t),
        None => Err("streamType must be studio, encoder, file, or playlist; got "@ + ascii_lower(name)),
    }
}

/// The first thing wrong with a new draft: a name is required, the stream
/// type must read, every destination must be a channel and the brand, if
/// any, must exist.
pub open spec fn new_draft_problem(
    name: Seq<char>,
    stream_type: Option<Seq<char>>,
    destination_ids: Seq<String>,
    brand_id: Option<Seq<char>>,
    channels: Seq<Channel>,
    brands: Seq<Brand>,
) -> Option<Rejection> {
    if trimmed(name).len() == 0 {
        Some(Rejection::Bad("name"@ + " is required"@))
    } else if stream_type_result(stream_type) is Err {
        Some(Rejection::Bad(stream_type_result(stream_type)->Err_0))
    } else if missing_channel(destination_ids, channels, 0) != -1 {
        Some(Rejection::UnknownChannel(destination_ids[missing_channel(destination_ids, channels, 0)]@))
    } else if brand_id matches Some(b) && key_at(brands, b, 0) == -1 {
        Some(Rejection::NotFound("brand"@))
    } else {
        None
    }
}

/// Checks a new draft; its trimmed name and its stream type.
pub fn check_new_draft(
    name: &str,
    stream_type: Option<&str>,
    destination_ids: &Vec<String>,
    brand_id: Option<&str>,
    channels: &Vec<Channel>,
    brands: &Vec<Brand>,
) -> (r: Result<(String, StreamType), ApiError>)
    ensures
        match new_draft_problem(
            name@,
            match stream_type {
                Some(v) => Some(v@),
                None => None,
            },
            destination_ids@,
            match brand_id {
                Some(v) => Some(v@),
                None => None,
            },
            channels@,
            brands@,
        ) {
            Some(why) => r matches Err(e) && rejected_as(e, why),
            None => r matches Ok((n, t)) && n@ == trimmed(name@) && Ok::<StreamType, Seq<char>>(t)
                == stream_type_result(
                match stream_type {
                    Some(v) => Some(v@),
                    None => None,
                },
            ),
        },
{
    let n = match required(name, "name") {
        Ok(n) => n,
        Err(e) => {
            return Err(e);
        },
    };
    let t = match parse_stream_type(stream_type) {
        Ok(t) => t,
        Err(e) => {
            return Err(e);
        },
    };
    if let Err(e) = validate_destination_ids(channels, destination_ids) {
        return Err(e);
    }
    if let Some(b) = brand_id {
        if !has_keyed(brands, b) {
            return Err(not_found("brand"));
        }
    }
    Ok((n, t))
}

/// The first thing wrong with a draft update: new destinations must be
/// channels and a new brand must exist.
pub open spec fn draft_update_problem(
    destination_ids: Option<Seq<String>>,
    brand_id: Option<Seq<char>>,
    channels: Seq<Channel>,
    brands: Seq<Brand>,
) -> Option<Rejection> {
    match destination_ids {
        Some(ids) if missing_channel(ids, channels, 0) != -1 => Some(
            Rejection::UnknownChannel(ids[missing_channel(ids, channels, 0)]@),
        ),
        _ => if brand_id matches Some(b) && key_at(brands, b, 0) == -1 {
            Some(Rejection::NotFound("brand"@))
        } else {
            None
        },
    }
}

/// Checks a draft update.
pub fn check_draft_update(
    destination_ids: Option<&Vec<String>>,
    brand_id: Option<&str>,
    channels: &Vec<Channel>,
    brands: &Vec<Brand>,
) -> (r: Result<(), ApiError>)
    ensures
        match draft_update_problem(
            match destination_ids {
                Some(v) => Some(v@),
                None => None,
            },
            match brand_id {
                Some(v) => Some(v@),
                None => None,
            },
            channels@,
            brands@,
        ) {
            Some(why) => r matches Err(e) && rejected_as(e, why),
            None => r is Ok,
        },
{
    if let Some(ids) = destination_ids {
        if let Err(e) = validate_destination_ids(channels, ids) {
            return Err(e);
        }
    }
    if let Some(b) = brand_id {
        if !has_keyed(brands, b) {
            return Err(not_found("brand"));
        }
    }
    Ok(())
}

/// The first thing wrong with a new event: the stream type must read, at
/// most nine loops, a readable schedule, a file for file and playlist
/// events, a source file that exists and lies in the storage root, a draft
/// that exists, and destinations that are channels. `file_in_root` tells
/// whether the named file's path lies in the storage root.
pub open spec fn new_event_problem(
    stream_type: Option<Seq<char>>,
    loops_count: Option<u8>,
    scheduled_for: Option<Seq<char>>,
    file_id: Option<Seq<char>>,
    file_in_root: bool,
    draft_id: Option<Seq<char>>,
    destination_ids: Seq<String>,
    files: Seq<StorageFile>,
    drafts: Seq<Draft>,
    channels: Seq<Channel>,
) -> Option<Rejection> {
    let t = stream_type_result(stream_type);
    if t is Err {
        Some(Rejection::Bad(t->Err_0))
    } else if loops_count matches Some(n) && n > 9 {
        Some(Rejection::Bad("loopsCount must be between 0 and 9"@))
    } else if scheduled_for matches Some(s) && scheduled_seconds(s).is_none() {
        Some(Rejection::Bad("scheduledFor must be a Unix timestamp or RFC3339 value"@))
    } else if (t->Ok_0 == StreamType::File || t->Ok_0 == StreamType::Playlist) && file_id.is_none() {
        Some(Rejection::Bad("fileId is required for file and playlist events"@))
    } else if file_id matches Some(f) && key_at(files, f, 0) == -1 {
        Some(Rejection::NotFound("storage file"@))
    } else if file_id.is_some() && !file_in_root {
        Some(Rejection::Bad("source file must be inside the storage root"@))
    } else if draft_id matches Some(d) && key_at(drafts, d, 0) == -1 {
        Some(Rejection::NotFound("stream draft"@))
    } else if missing_channel(destination_ids, channels, 0) != -1 {
        Some(Rejection::UnknownChannel(destination_ids[missing_channel(destination_ids, channels, 0)]@))
    } else {
        None
    }
}

/// The path of a stored file, to tell whether it lies in the storage root.
pub fn file_path(files: &Vec<StorageFile>, file_id: &str) -> (r: Option<String>)
    ensures
        match crate::server::records::lookup(files@, file_id@) {
            Some(f) => r == Some(f.path),
            None => r.is_none(),
        },
{
    match find_keyed(files, file_id) {
        Some(k) => Some(files[k].path.clone()),
        None => None,
    }
}

/// Checks a new event; its stream type.
pub fn check_new_event(
    stream_type: Option<&str>,
    loops_count: Option<u8>,
    scheduled_for: Option<&str>,
    file_id: Option<&str>,
    file_in_root: bool,
    draft_id: Option<&str>,
    destination_ids: &Vec<String>,
    files: &Vec<StorageFile>,
    drafts: &Vec<Draft>,
    channels: &Vec<Channel>,
) -> (r: Result<StreamType, ApiError>)
    ensures
        ({
            let st = match stream_type {
                Some(v) => Some(v@),
                None => None,
            };
            match new_event_problem(
                st,
                loops_count,
                match scheduled_for {
                    Some(v) => Some(v@),
                    None => None,
                },
                match file_id {
                    Some(v) => Some(v@),
                    None => None,
                },
                file_in_root,
                match draft_id {
                    Some(v) => Some(v@),
                    None => None,
                },
                destination_ids@,
                files@,
                drafts@,
                channels@,
            ) {
                Some(why) => r matches Err(e) && rejected_as(e, why),
                None => r matches Ok(t) && stream_type_result(st) == Ok::<StreamType, Seq<char>>(t),
            }
        }),
{
    let t = match parse_stream_type(stream_type) {
        Ok(t) => t,
        Err(e) => {
            return Err(e);
        },
    };
    let loops = match loops_count {
        Some(n) => n,
        None => 0,
    };
    if loops > 9 {
        return Err(bad_request(owned("loopsCount must be between 0 and 9")));
    }
    if let Some(s) = scheduled_for {
        if !is_valid_scheduled_for(s) {
            return Err(bad_request(owned("scheduledFor must be a Unix timestamp or RFC3339 value")));
        }
    }
    let needs_file = match t {
        StreamType::File | StreamType::Playlist => true,
        _ => false,
    };
    if needs_file && file_id.is_none() {
        return Err(bad_request(owned("fileId is required for file and playlist events")));
    }
    if let Some(f) = file_id {
        if !has_keyed(files, f) {
            return Err(not_found("storage file"));
        }
        if !file_in_root {
            return Err(bad_request(owned("source file must be inside the storage root")));
        }
    }
    if let Some(d) = draft_id {
        if !has_keyed(drafts, d) {
            return Err(not_found("stream draft"));
        }
    }
    if let Err(e) = validate_destination_ids(channels, destination_ids) {
        return Err(e);
    }
    Ok(t)
}

/// The first thing wrong with an event update: a new schedule must read
/// and new destinations must be channels.
pub open spec fn event_update_problem(
    scheduled_for: Option<Option<Seq<char>>>,
    destination_ids: Option<Seq<String>>,
    channels: Seq<Channel>,
) -> Option<Rejection> {
    if scheduled_for matches Some(Some(s)) && scheduled_seconds(s).is_none() {
        Some(Rejection::Bad("scheduledFor must be a Unix timestamp or RFC3339 value"@))
    } else {
        match destination_ids {
            Some(ids) if missing_channel(ids, channels, 0) != -1 => Some(
                Rejection::UnknownChannel(ids[missing_channel(ids, channels, 0)]@),
            ),
            _ => None,
        }
    }
}

/// Checks an event update. A schedule of `Some(None)` clears it.
pub fn check_event_update(
    scheduled_for: Option<Option<&str>>,
    destination_ids: Option<&Vec<String>>,
    channels: &Vec<Channel>,
) -> (r: Result<(), ApiError>)
    ensures
        match event_update_problem(
            match scheduled_for {
                Some(Some(v)) => Some(Some(v@)),
                Some(None) => Some(None),
                None => None,
            },
            match destination_ids {
                Some(v) => Some(v@),
                None => None,
            },
            channels@,
        ) {
            Some(why) => r matches Err(e) && rejected_as(e, why),
            None => r is Ok,
        },
{
    if let Some(Some(s)) = scheduled_for {
        if !is_valid_scheduled_for(s) {
            return Err(bad_request(owned("scheduledFor must be a Unix timestamp or RFC3339 value")));
        }
    }
    if let Some(ids) = destination_ids {
        if let Err(e) = validate_destination_ids(channels, ids) {
            return Err(e);
        }
    }
    Ok(())
}

/// Checks a new webhook: a URL the server may post to is required.
pub fn check_new_webhook(url: Option<&str>) -> (r: Result<(), ApiError>)
    ensures
        match url {
            None => r matches Err(e) && is_bad_request(e, "url is required"@),
            Some(u) => match http_url_problem(u@, "url"@) {
                Some(m) => r matches Err(e) && is_bad_request(e, m),
                None => r is Ok,
            },
        },
{
    match url {
        None => Err(bad_request(owned("url is required"))),
        Some(u) => match parse_http_url(u, "url") {
            Ok(_) => Ok(()),
            Err(e) => Err(e),
        },
    }
}

/// Checks a webhook update: a new URL must be one the server may post to.
pub fn check_webhook_update(url: Option<&str>) -> (r: Result<(), ApiError>)
    ensures
        match url {
            None => r is Ok,
            Some(u) => match http_url_problem(u@, "url"@) {
                Some(m) => r matches Err(e) && is_bad_request(e, m),
                None => r is Ok,
            },
        },
{
    match url {
        None => Ok(()),
        Some(u) => match parse_http_url(u, "url") {
            Ok(_) => Ok(()),
            Err(e) => Err(e),
        },
    }
}

} // verus!
