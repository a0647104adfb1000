//! Stored files and what is made from them: file records, the recording an
//! event links to, transcripts and clips.

use vstd::prelude::*;

use crate::server::records::{Keyed, find_keyed, key_at, lookup};
use crate::server::restream::{ClipProject, Event, StorageFile, Transcription, clone_strings, clone_opt};
use crate::text::{decimal, decimal_string, join2, join3, owned, push_str, sanitize_filename, sanitized};

verus! {

impl Keyed for StorageFile {
    open spec fn key(&self) -> Seq<char> {
        self.id@
    }

    fn key_str(&self) -> (r: &str) {
        self.id.as_str()
    }
}

impl Keyed for Transcription {
    open spec fn key(&self) -> Seq<char> {
        self.id@
    }

    fn key_str(&self) -> (r: &str) {
        self.id.as_str()
    }
}

impl Keyed for ClipProject {
    open spec fn key(&self) -> Seq<char> {
        self.id@
    }

    fn key_str(&self) -> (r: &str) {
        self.id.as_str()
    }
}


/// Two file records with the same fields.
pub open spec fn same_file(a: StorageFile, b: StorageFile) -> bool {
    &&& a.id == b.id
    &&& a.name == b.name
    &&& a.mime_type == b.mime_type
    &&& a.size_bytes == b.size_bytes
    &&& a.duration_seconds == b.duration_seconds
    &&& a.status == b.status
    &&& a.path == b.path
    &&& a.labels@ == b.labels@
    &&& a.created_at == b.created_at
    &&& a.updated_at == b.updated_at
}

impl StorageFile {
    /// A copy with the same fields.
    pub fn duplicate(&self) -> (r: StorageFile)
        ensures
            same_file(r, *self),
    {
        StorageFile {
            id: self.id.clone(),
            name: self.name.clone(),
            mime_type: self.mime_type.clone(),
            size_bytes: self.size_bytes,
            duration_seconds: self.duration_seconds,
            status: self.status.clone(),
            path: self.path.clone(),
            labels: clone_strings(&self.labels),
            created_at: self.created_at,
            updated_at: self.updated_at,
        }
    }
}

impl Transcription {
    /// A copy with the same fields.
    pub fn duplicate(&self) -> (r: Transcription)
        ensures
            r == *self,
    {
        Transcription {
            id: self.id.clone(),
            event_id: self.event_id.clone(),
            file_id: self.file_id.clone(),
            file_name: self.file_name.clone(),
            status: self.status.clone(),
            language: clone_opt(&self.language),
            download_url: clone_opt(&self.download_url),
            created_at: self.created_at,
            updated_at: self.updated_at,
        }
    }
}

impl ClipProject {
    /// A copy with the same fields.
    pub fn duplicate(&self) -> (r: ClipProject)
        ensures
            r == *self,
    {
        ClipProject {
            id: self.id.clone(),
            event_id: self.event_id.clone(),
            source_file_id: clone_opt(&self.source_file_id),
            name: self.name.clone(),
            start_seconds: self.start_seconds,
            end_seconds: self.end_seconds,
            status: self.status.clone(),
            output_file_id: clone_opt(&self.output_file_id),
            created_at: self.created_at,
            updated_at: self.updated_at,
        }
    }
}

/// Records file `id`, created at `now`, and returns a copy.
pub fn create_file_metadata(
    files: &mut Vec<StorageFile>,
    id: &str,
    now: u64,
    name: String,
    mime_type: String,
    size_bytes: u64,
    duration_seconds: Option<u64>,
    labels: Vec<String>,
    path: String,
    status: String,
) -> (r: StorageFile)
    ensures
        r.id@ == id@,
        r.name == name,
        r.mime_type == mime_type,
        r.size_bytes == size_bytes,
        r.duration_seconds == duration_seconds,
        r.status == status,
        r.path == path,
        r.labels@ == labels@,
        r.created_at == now,
        r.updated_at == now,
        final(files)@.drop_last() == old(files)@,
        final(files)@.len() == old(files)@.len() + 1,
        same_file(final(files)@.last(), r),
{
    let f = StorageFile {
        id: owned(id),
        name,
        mime_type,
        size_bytes,
        duration_seconds,
        status,
        path,
        labels,
        created_at: now,
        updated_at: now,
    };
    files.push(f.duplicate());
    proof {
        assert(final(files)@.drop_last() =~= old(files)@);
    }
    f
}

/// Whether `after` is the file list `fs` with the record at `k` replaced by
/// one that satisfies `changed`, the others untouched.
pub open spec fn only_changed_at<T>(after: Seq<T>, fs: Seq<T>, k: int) -> bool {
    &&& after.len() == fs.len()
    &&& forall|i: int| 0 <= i < fs.len() && i != k ==> #[trigger] after[i] == fs[i]
}

/// Records the size and status a file has reached, at `now`, on the first
/// file with identifier `file_id`; a copy, or `None` when there is none.
pub fn update_file_state(files: &mut Vec<StorageFile>, file_id: &str, size_bytes: u64, status: String, now: u64) -> (r:
    Option<StorageFile>)
    ensures
        ({
            let fs = old(files)@;
            let k = key_at(fs, file_id@, 0);
            if k == -1 {
                r.is_none() && final(files)@ == fs
            } else {
                let f = final(files)@[k];
                &&& only_changed_at(final(files)@, fs, k)
                &&& same_file(f, StorageFile { size_bytes, status, updated_at: now, ..fs[k] })
                &&& r matches Some(x) && same_file(x, f)
            }
        }),
{
    let k = match find_keyed(files, file_id) {
        Some(k) => k,
        None => {
            return None;
        },
    };
    let mut f = files[k].duplicate();
    f.size_bytes = size_bytes;
    f.status = status;
    f.updated_at = now;
    let copy = f.duplicate();
    files.set(k, f);
    Some(copy)
}

/// Renames or relabels the first file with identifier `file_id` at `now`;
/// a copy, or `None` when there is none.
pub fn update_file(files: &mut Vec<StorageFile>, file_id: &str, name: Option<String>, labels: Option<Vec<String>>, now: u64) -> (r:
    Option<StorageFile>)
    ensures
        ({
            let fs = old(files)@;
            let k = key_at(fs, file_id@, 0);
            if k == -1 {
                r.is_none() && final(files)@ == fs
            } else {
                let f = final(files)@[k];
                &&& only_changed_at(final(files)@, fs, k)
                &&& f.id == fs[k].id && f.mime_type == fs[k].mime_type && f.size_bytes == fs[k].size_bytes
                &&& f.duration_seconds == fs[k].duration_seconds && f.status == fs[k].status && f.path == fs[k].path
                &&& f.created_at == fs[k].created_at && f.updated_at == now
                &&& f.name == match name {
                    Some(v) => v,
                    None => fs[k].name,
                }
                &&& f.labels@ == match labels {
                    Some(v) => v@,
                    None => fs[k].labels@,
                }
                &&& r matches Some(x) && same_file(x, f)
            }
        }),
{
    let k = match find_keyed(files, file_id) {
        Some(k) => k,
        None => {
            return None;
        },
    };
    let mut f = files[k].duplicate();
    if let Some(v) = name {
        f.name = v;
    }
    if let Some(v) = labels {
        f.labels = v;
    }
    f.updated_at = now;
    let copy = f.duplicate();
    files.set(k, f);
    Some(copy)
}

/// Takes the first file with identifier `file_id` out of the list.
pub fn delete_file(files: &mut Vec<StorageFile>, file_id: &str) -> (r: Option<StorageFile>)
    ensures
        ({
            let fs = old(files)@;
            let k = key_at(fs, file_id@, 0);
            if k == -1 {
                r.is_none() && final(files)@ == fs
            } else {
                final(files)@ == fs.remove(k) && r == Some(fs[k])
            }
        }),
{
    match find_keyed(files, file_id) {
        Some(k) => Some(files.remove(k)),
        None => None,
    }
}

/// The name a stored file gets on disk: its identifier, `-`, and its name
/// with every character but ASCII letters, digits, `.`, `_` and `-`
/// replaced by `_`.
pub open spec fn storage_name(file_id: Seq<char>, name: Seq<char>) -> Seq<char> {
    file_id + "-"@ + sanitized(name, name.len())
}

/// The name a stored file gets on disk.
pub fn storage_file_name(file_id: &str, name: &str) -> (r: String)
    ensures
        r@ == storage_name(file_id@, name@),
{
    let safe = sanitize_filename(name, name.unicode_len());
    join3(file_id, "-", safe.as_str())
}

/// Links file `file_id` to the first event with identifier `event_id` as
/// its recording, at `now`. `None`, changing nothing, when the file or the
/// event is unknown.
pub fn link_event_recording(events: &mut Vec<Event>, files: &Vec<StorageFile>, event_id: &str, file_id: &str, now: u64) -> (r:
    Option<Event>)
    ensures
        ({
            let es = old(events)@;
            let k = key_at(es, event_id@, 0);
            if key_at(files@, file_id@, 0) == -1 || k == -1 {
                r.is_none() && final(events)@ == es
            } else {
                let e = final(events)@[k];
                &&& only_changed_at(final(events)@, es, k)
                &&& crate::server::events::same_event(
                    e,
                    Event { recording_file_id: Some(e.recording_file_id->Some_0), updated_at: now, ..es[k] },
                )
                &&& e.recording_file_id matches Some(f) && f@ == file_id@
                &&& r matches Some(x) && crate::server::events::same_event(x, e)
            }
        }),
{
    if find_keyed(files, file_id).is_none() {
        return None;
    }
    let k = match find_keyed(events, event_id) {
        Some(k) => k,
        None => {
            return None;
        },
    };
    let mut e = events[k].duplicate();
    e.recording_file_id = Some(owned(file_id));
    e.updated_at = now;
    let copy = e.duplicate();
    events.set(k, copy);
    Some(e)
}

/// What asking for an event's transcript comes to.
pub enum TranscriptRequest {
    /// No event, no linked recording, or the recording's file is gone.
    Unavailable,
    /// The event has one already.
    Existing(Transcription),
    /// A transcript was started; run the transcriber when there is one.
    Started(Transcription),
}

/// The first transcript of an event, if any.
pub open spec fn transcript_of(ts: Seq<Transcription>, event_id: Seq<char>) -> int
    decreases ts.len(),
{
    if ts.len() == 0 {
        -1
    } else if transcript_of(ts.drop_last(), event_id) != -1 {
        transcript_of(ts.drop_last(), event_id)
    } else if ts.last().event_id@ == event_id {
        ts.len() - 1
    } else {
        -1
    }
}

fn transcript_index(ts: &Vec<Transcription>, event_id: &str) -> (r: Option<usize>)
    ensures
        match r {
            Some(i) => i < ts@.len() && transcript_of(ts@, event_id@) == i,
            None => transcript_of(ts@, event_id@) == -1,
        },
{
    let n = ts.len();
    let mut i: usize = 0;
    while i < n
        invariant
            n == ts@.len(),
            i <= n,
            transcript_of(ts@.subrange(0, i as int), event_id@) == -1,
        decreases n - i,
    {
        proof {
            let s = ts@.subrange(0, i + 1);
            assert(s.drop_last() =~= ts@.subrange(0, i as int));
        }
        if crate::text::str_eq(ts[i].event_id.as_str(), event_id) {
            proof {
                lemma_transcript_prefix(ts@, event_id@, i + 1);
            }
            return Some(i);
        }
        i = i + 1;
    }
    proof {
        assert(ts@.subrange(0, n as int) =~= ts@);
    }
    None
}

/// A match in a prefix is the match of the whole list.
proof fn lemma_transcript_prefix(ts: Seq<Transcription>, event_id: Seq<char>, i: int)
    requires
        0 <= i <= ts.len(),
        transcript_of(ts.subrange(0, i), event_id) != -1,
    ensures
        transcript_of(ts, event_id) == transcript_of(ts.subrange(0, i), event_id),
    decreases ts.len() - i,
{
    if i < ts.len() {
        let s = ts.subrange(0, i + 1);
        assert(s.drop_last() =~= ts.subrange(0, i));
        lemma_transcript_prefix(ts, event_id, i + 1);
    } else {
        assert(ts.subrange(0, i) =~= ts);
    }
}

/// Starts a transcript `id` of an event's recording at `now`, unless the
/// event has one already or has no recording on file. It is in progress
/// when a transcriber is configured, else its state is unknown.
pub fn ensure_transcription(
    events: &Vec<Event>,
    files: &Vec<StorageFile>,
    transcriptions: &mut Vec<Transcription>,
    event_id: &str,
    id: &str,
    now: u64,
    transcriber_configured: bool,
    language: Option<String>,
) -> (r: TranscriptRequest)
    ensures
        ({
            let ts = old(transcriptions)@;
            match lookup(events@, event_id@) {
                None => r is Unavailable && final(transcriptions)@ == ts,
                Some(e) => match e.recording_file_id {
                    None => r is Unavailable && final(transcriptions)@ == ts,
                    Some(fid) => match lookup(files@, fid@) {
                        None => r is Unavailable && final(transcriptions)@ == ts,
                        Some(f) => if transcript_of(ts, event_id@) != -1 {
                            r matches TranscriptRequest::Existing(t) && t == ts[transcript_of(ts, event_id@)]
                                && final(transcriptions)@ == ts
                        } else {
                            r matches TranscriptRequest::Started(t) && final(transcriptions)@ == ts.push(t) && t.id@
                                == id@ && t.event_id@ == event_id@ && t.file_id == f.id && t.file_name == f.name
                                && t.status@ == (if transcriber_configured {
                                "InProgress"@
                            } else {
                                "Unknown"@
                            }) && t.language == language && t.download_url.is_none() && t.created_at == now
                                && t.updated_at == now
                        },
                    },
                },
            }
        }),
{
    let k = match find_keyed(events, event_id) {
        Some(k) => k,
        None => {
            return TranscriptRequest::Unavailable;
        },
    };
    let fid = match &events[k].recording_file_id {
        Some(f) => f,
        None => {
            return TranscriptRequest::Unavailable;
        },
    };
    let j = match find_keyed(files, fid.as_str()) {
        Some(j) => j,
        None => {
            return TranscriptRequest::Unavailable;
        },
    };
    if let Some(t) = transcript_index(transcriptions, event_id) {
        return TranscriptRequest::Existing(transcriptions[t].duplicate());
    }
    let t = Transcription {
        id: owned(id),
        event_id: owned(event_id),
        file_id: files[j].id.clone(),
        file_name: files[j].name.clone(),
        status: if transcriber_configured {
            owned("InProgress")
        } else {
            owned("Unknown")
        },
        language,
        download_url: None,
        created_at: now,
        updated_at: now,
    };
    transcriptions.push(t.duplicate());
    TranscriptRequest::Started(t)
}

/// Records how a transcript ended, at `now`, on the first transcript with
/// identifier `transcription_id`; a copy, or `None` when there is none.
pub fn update_transcription(
    transcriptions: &mut Vec<Transcription>,
    transcription_id: &str,
    status: String,
    download_url: Option<String>,
    now: u64,
) -> (r: Option<Transcription>)
    ensures
        ({
            let ts = old(transcriptions)@;
            let k = key_at(ts, transcription_id@, 0);
            if k == -1 {
                r.is_none() && final(transcriptions)@ == ts
            } else {
                let t = Transcription { status, download_url, updated_at: now, ..ts[k] };
                final(transcriptions)@ == ts.update(k, t) && r == Some(t)
            }
        }),
{
    let k = match find_keyed(transcriptions, transcription_id) {
        Some(k) => k,
        None => {
            return None;
        },
    };
    let mut t = transcriptions[k].duplicate();
    t.status = status;
    t.download_url = download_url;
    t.updated_at = now;
    transcriptions.set(k, t.duplicate());
    Some(t)
}

/// The link a finished transcript is downloaded from.
pub fn transcript_download_url(file_id: &str) -> (r: String)
    ensures
        r@ == "/api/v1/storage/files/"@ + file_id@ + "/download"@,
{
    join3("/api/v1/storage/files/", file_id, "/download")
}

/// The file a clip of an event is cut from: its recording, else its source
/// file. `None` when there is no such event.
pub open spec fn clip_source_of(events: Seq<Event>, event_id: Seq<char>) -> Option<Option<String>> {
    match lookup(events, event_id) {
        None => None,
        Some(e) => Some(
            match e.recording_file_id {
                Some(f) => Some(f),
                None => e.source_file_id,
            },
        ),
    }
}

/// The file a clip of an event is cut from, and its record when it is on
/// file. `None` when there is no such event.
pub fn clip_source(events: &Vec<Event>, files: &Vec<StorageFile>, event_id: &str) -> (r: Option<
    (Option<String>, Option<StorageFile>),
>)
    ensures
        match clip_source_of(events@, event_id@) {
            None => r.is_none(),
            Some(src) => r matches Some((s, f)) && s == src && match src {
                None => f.is_none(),
                Some(id) => match lookup(files@, id@) {
                    None => f.is_none(),
                    Some(g) => f matches Some(h) && same_file(h, g),
                },
            },
        },
{
    let k = match find_keyed(events, event_id) {
        Some(k) => k,
        None => {
            return None;
        },
    };
    let src = match &events[k].recording_file_id {
        Some(f) => Some(f.clone()),
        None => clone_opt(&events[k].source_file_id),
    };
    let file = match &src {
        Some(id) => match find_keyed(files, id.as_str()) {
            Some(j) => Some(files[j].duplicate()),
            None => None,
        },
        None => None,
    };
    Some((src, file))
}

/// A clip `id` of an event created at `now`: processing when its source
/// can be cut, else failed.
pub fn new_clip(
    id: &str,
    now: u64,
    event_id: String,
    source_file_id: Option<String>,
    name: String,
    start_seconds: u64,
    end_seconds: u64,
    can_cut: bool,
) -> (c: ClipProject)
    ensures
        c.id@ == id@,
        c.event_id == event_id,
        c.source_file_id == source_file_id,
        c.name == name,
        c.start_seconds == start_seconds,
        c.end_seconds == end_seconds,
        c.status@ == (if can_cut {
            "processing"@
        } else {
            "failed"@
        }),
        c.output_file_id.is_none(),
        c.created_at == now,
        c.updated_at == now,
{
    ClipProject {
        id: owned(id),
        event_id,
        source_file_id,
        name,
        start_seconds,
        end_seconds,
        status: if can_cut {
            owned("processing")
        } else {
            owned("failed")
        },
        output_file_id: None,
        created_at: now,
        updated_at: now,
    }
}

/// The name of the file a clip is written to.
pub fn clip_output_name(clip_name: &str) -> (r: String)
    ensures
        r@ == clip_name@ + "-clip.mp4"@,
{
    join2(clip_name, "-clip.mp4")
}

/// The FFmpeg arguments that cut a clip from `source` into `output`: from
/// the start, for the length of the clip (none when it ends before it
/// starts), without re-encoding.
pub fn clip_args(source: &str, output: &str, start_seconds: u64, end_seconds: u64) -> (args: Vec<String>)
    ensures
        args.deep_view() == seq![
            "-y"@,
            "-ss"@,
            decimal(start_seconds as nat),
            "-i"@,
            source@,
            "-t"@,
            decimal((if end_seconds >= start_seconds { end_seconds - start_seconds } else { 0 }) as nat),
            "-c"@,
            "copy"@,
            output@,
        ],
{
    let duration = end_seconds.saturating_sub(start_seconds);
    let mut args: Vec<String> = Vec::new();
    push_str(&mut args, "-y");
    push_str(&mut args, "-ss");
    let s = decimal_string(start_seconds);
    push_str(&mut args, s.as_str());
    push_str(&mut args, "-i");
    push_str(&mut args, source);
    push_str(&mut args, "-t");
    let d = decimal_string(duration);
    push_str(&mut args, d.as_str());
    push_str(&mut args, "-c");
    push_str(&mut args, "copy");
    push_str(&mut args, output);
    proof {
        assert(args.deep_view() =~= seq![
            "-y"@,
            "-ss"@,
            decimal(start_seconds as nat),
            "-i"@,
            source@,
            "-t"@,
            decimal((if end_seconds >= start_seconds { end_seconds - start_seconds } else { 0 }) as nat),
            "-c"@,
            "copy"@,
            output@,
        ]);
    }
    args
}

/// Marks the first clip with identifier `clip_id` as failed, or as ready
/// with its output file, at `now`; nothing when there is none.
pub fn finish_clip(clips: &mut Vec<ClipProject>, clip_id: &str, output_file_id: Option<String>, now: u64)
    ensures
        ({
            let cs = old(clips)@;
            let k = key_at(cs, clip_id@, 0);
            if k == -1 {
                final(clips)@ == cs
            } else {
                final(clips)@ == cs.update(
                    k,
                    match output_file_id {
                        None => ClipProject { status: final(clips)@[k].status, updated_at: now, ..cs[k] },
                        Some(f) => ClipProject {
                            status: final(clips)@[k].status,
                            output_file_id: Some(f),
                            updated_at: now,
                            ..cs[k]
                        },
                    },
                ) && final(clips)@[k].status@ == (if output_file_id.is_some() {
                    "ready"@
                } else {
                    "failed"@
                })
            }
        }),
{
    let k = match find_keyed(clips, clip_id) {
        Some(k) => k,
        None => {
            return;
        },
    };
    let mut c = clips[k].duplicate();
    match output_file_id {
        Some(f) => {
            c.status = owned("ready");
            c.output_file_id = Some(f);
        },
        None => {
            c.status = owned("failed");
        },
    }
    c.updated_at = now;
    clips.set(k, c);
}

} // verus!
