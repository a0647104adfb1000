//! HLS output settings.

use vstd::prelude::*;

use crate::server::segments::push_keep_newest;
use crate::text::{decimal, decimal_string, ends_with, has_suffix, join2, owned, push_str};
use vstd::string::StringExecFns;

verus! {

/// Where HLS segments and the playlist are written, and how they are served.
#[derive(Debug, Clone)]
pub struct HlsConfig {
    pub segment_duration: u32,
    pub max_segments: usize,
    pub segment_dir: String,
    pub playlist_path: String,
    pub http_port: u16,
    pub http_addr: String,
}

impl Default for HlsConfig {
    fn default() -> (c: Self)
        ensures
            c.segment_duration == 2,
            c.max_segments == 10,
            c.segment_dir@ == "/tmp/reestream/hls"@,
            c.playlist_path@ == "/tmp/reestream/hls/stream.m3u8"@,
            c.http_port == 8080,
            c.http_addr@ == "0.0.0.0"@,
    {
        HlsConfig {
            segment_duration: 2,
            max_segments: 10,
            segment_dir: owned("/tmp/reestream/hls"),
            playlist_path: owned("/tmp/reestream/hls/stream.m3u8"),
            http_port: 8080,
            http_addr: owned("0.0.0.0"),
        }
    }
}

/// The rolling list of HLS segments, oldest first. `S` is the caller's
/// segment record.
pub struct HlsSegmenter<S> {
    config: HlsConfig,
    segments: Vec<S>,
}

impl<S> HlsSegmenter<S> {
    /// The settings the segmenter was made with.
    pub closed spec fn settings(&self) -> HlsConfig {
        self.config
    }

    /// The segments held, oldest first.
    pub closed spec fn held(&self) -> Seq<S> {
        self.segments@
    }

    /// A segmenter with no segments.
    pub fn new(config: HlsConfig) -> (s: Self)
        ensures
            s.settings() == config,
            s.held().len() == 0,
    {
        HlsSegmenter { config, segments: Vec::new() }
    }

    /// The settings.
    pub fn config(&self) -> (c: &HlsConfig)
        ensures
            *c == self.settings(),
    {
        &self.config
    }

    /// Appends a segment and drops the oldest beyond `max_segments`.
    pub fn add_segment(&mut self, segment: S)
        ensures
            final(self).settings() == old(self).settings(),
            ({
                let pushed = old(self).held().push(segment);
                let max = old(self).settings().max_segments;
                final(self).held() == if pushed.len() > max {
                    pushed.subrange(pushed.len() - max, pushed.len() as int)
                } else {
                    pushed
                }
            }),
    {
        let max = self.config.max_segments;
        push_keep_newest(&mut self.segments, segment, max);
    }

    /// The segments held, oldest first.
    pub fn get_segments(&self) -> (r: &Vec<S>)
        ensures
            r@ == self.held(),
    {
        &self.segments
    }

    /// Drops every segment.
    pub fn clear(&mut self)
        ensures
            final(self).settings() == old(self).settings(),
            final(self).held().len() == 0,
    {
        self.segments = Vec::new();
    }
}

/// The lines listing the segments: for each, its duration line and its
/// file name.
pub open spec fn segment_lines(entries: Seq<(Seq<char>, Seq<char>)>) -> Seq<char>
    decreases entries.len(),
{
    if entries.len() == 0 {
        Seq::empty()
    } else {
        segment_lines(entries.drop_last()) + "#EXTINF:"@ + entries.last().0 + ",\n"@ + entries.last().1 + "\n"@
    }
}

/// An HLS playlist: the header with the target duration, an end marker
/// unless the stream is live, then the segments in order.
pub open spec fn playlist(target_duration: u32, entries: Seq<(Seq<char>, Seq<char>)>, is_live: bool) -> Seq<char> {
    "#EXTM3U\n"@ + "#EXT-X-VERSION:3\n"@ + "#EXT-X-TARGETDURATION:"@ + decimal(target_duration as nat) + "\n"@
        + "#EXT-X-MEDIA-SEQUENCE:0\n"@ + (if is_live {
        Seq::empty()
    } else {
        "#EXT-X-ENDLIST\n"@
    }) + segment_lines(entries)
}

/// The header every playlist opens with, up to the optional end marker.
pub open spec fn playlist_header(target_duration: u32) -> Seq<char> {
    "#EXTM3U\n#EXT-X-VERSION:3\n#EXT-X-TARGETDURATION:"@ + decimal(target_duration as nat)
        + "\n#EXT-X-MEDIA-SEQUENCE:0\n"@
}

/// Whether the stream is live only decides the end marker: the ended
/// playlist is the live one with `#EXT-X-ENDLIST` after the header, and
/// both list every segment.
pub proof fn law_playlist_end_marker(target_duration: u32, entries: Seq<(Seq<char>, Seq<char>)>)
    ensures
        ({
            let h = playlist_header(target_duration);
            let live = playlist(target_duration, entries, true);
            &&& live.subrange(0, h.len() as int) == h
            &&& playlist(target_duration, entries, false) == h + "#EXT-X-ENDLIST\n"@ + live.subrange(
                h.len() as int,
                live.len() as int,
            )
        }),
{
    reveal_strlit("#EXTM3U\n#EXT-X-VERSION:3\n#EXT-X-TARGETDURATION:");
    reveal_strlit("#EXTM3U\n");
    reveal_strlit("#EXT-X-VERSION:3\n");
    reveal_strlit("#EXT-X-TARGETDURATION:");
    reveal_strlit("\n#EXT-X-MEDIA-SEQUENCE:0\n");
    reveal_strlit("\n");
    reveal_strlit("#EXT-X-MEDIA-SEQUENCE:0\n");
    let h = playlist_header(target_duration);
    let live = playlist(target_duration, entries, true);
    assert(live =~= h + segment_lines(entries));
    assert(live.subrange(0, h.len() as int) =~= h);
    assert(live.subrange(h.len() as int, live.len() as int) =~= segment_lines(entries));
    assert(playlist(target_duration, entries, false) =~= h + "#EXT-X-ENDLIST\n"@ + segment_lines(entries));
}

/// A further segment adds its two lines at the end of the playlist,
/// whether the stream is live or not: `#EXTINF:<duration>,` and its name.
pub proof fn law_playlist_appends_segment(
    target_duration: u32,
    entries: Seq<(Seq<char>, Seq<char>)>,
    e: (Seq<char>, Seq<char>),
    is_live: bool,
)
    ensures
        playlist(target_duration, entries.push(e), is_live) == playlist(target_duration, entries, is_live)
            + "#EXTINF:"@ + e.0 + ",\n"@ + e.1 + "\n"@,
{
    assert(entries.push(e).drop_last() =~= entries);
    assert(playlist(target_duration, entries.push(e), is_live) =~= playlist(target_duration, entries, is_live)
        + "#EXTINF:"@ + e.0 + ",\n"@ + e.1 + "\n"@);
}

/// The view of segment entries: each duration's text and file name.
pub open spec fn entries_view(entries: Seq<(String, String)>) -> Seq<(Seq<char>, Seq<char>)> {
    entries.map_values(|e: (String, String)| (e.0@, e.1@))
}

/// The playlist for segments given as their durations, already written
/// with three decimals, and file names.
pub fn generate_playlist(config: &HlsConfig, entries: &Vec<(String, String)>, is_live: bool) -> (r: String)
    ensures
        r@ == playlist(config.segment_duration, entries_view(entries@), is_live),
{
    let mut out = owned("#EXTM3U\n");
    out.append("#EXT-X-VERSION:3\n");
    out.append("#EXT-X-TARGETDURATION:");
    let d = decimal_string(config.segment_duration as u64);
    out.append(d.as_str());
    out.append("\n");
    out.append("#EXT-X-MEDIA-SEQUENCE:0\n");
    if !is_live {
        out.append("#EXT-X-ENDLIST\n");
    }
    let ghost head = out@;
    let n = entries.len();
    for i in 0..n
        invariant
            n == entries@.len(),
            out@ == head + segment_lines(entries_view(entries@.subrange(0, i as int))),
    {
        let ghost before = out@;
        out.append("#EXTINF:");
        out.append(entries[i].0.as_str());
        out.append(",\n");
        out.append(entries[i].1.as_str());
        out.append("\n");
        proof {
            let s = entries_view(entries@.subrange(0, i + 1));
            assert(s.drop_last() =~= entries_view(entries@.subrange(0, i as int)));
            assert(s.last() == (entries@[i as int].0@, entries@[i as int].1@));
            assert(out@ =~= head + segment_lines(s));
        }
    }
    proof {
        assert(entries@.subrange(0, n as int) =~= entries@);
        assert(head =~= "#EXTM3U\n"@ + "#EXT-X-VERSION:3\n"@ + "#EXT-X-TARGETDURATION:"@ + decimal(config.segment_duration as nat) + "\n"@
            + "#EXT-X-MEDIA-SEQUENCE:0\n"@ + (if is_live {
            Seq::empty()
        } else {
            "#EXT-X-ENDLIST\n"@
        }));
    }
    out
}

/// A file name inside a directory, as `Path::join` puts them together: a
/// `/` between them unless the directory is empty or ends with one.
pub open spec fn joined_path(dir: Seq<char>, name: Seq<char>) -> Seq<char> {
    if dir.len() == 0 {
        name
    } else if has_suffix(dir, "/"@) {
        dir + name
    } else {
        dir + "/"@ + name
    }
}

/// `name` inside directory `dir`.
pub fn join_path(dir: &str, name: &str) -> (r: String)
    ensures
        r@ == joined_path(dir@, name@),
{
    if dir.unicode_len() == 0 {
        owned(name)
    } else if ends_with(dir, "/") {
        join2(dir, name)
    } else {
        let mut r = join2(dir, "/");
        r.append(name);
        r
    }
}

/// The FFmpeg arguments that cut an FLV stream read from standard input
/// into HLS segments: copied codecs, two-second segments, ten in the
/// playlist, old ones deleted.
pub open spec fn transmux_args(segment_dir: Seq<char>, playlist_path: Seq<char>) -> Seq<Seq<char>> {
    seq![
        "-hide_banner"@,
        "-loglevel"@,
        "warning"@,
        "-f"@,
        "flv"@,
        "-i"@,
        "pipe:0"@,
        "-c"@,
        "copy"@,
        "-f"@,
        "hls"@,
        "-hls_time"@,
        "2"@,
        "-hls_list_size"@,
        "10"@,
        "-hls_flags"@,
        "delete_segments+append_list"@,
        "-hls_segment_filename"@,
        joined_path(segment_dir, "seg%03d.ts"@),
        playlist_path,
    ]
}

/// The FFmpeg arguments of the HLS transmuxer.
pub fn transmuxer_args(segment_dir: &str, playlist_path: &str) -> (args: Vec<String>)
    ensures
        args.deep_view() == transmux_args(segment_dir@, playlist_path@),
{
    let pattern = join_path(segment_dir, "seg%03d.ts");
    let mut args: Vec<String> = Vec::new();
    push_str(&mut args, "-hide_banner");
    push_str(&mut args, "-loglevel");
    push_str(&mut args, "warning");
    push_str(&mut args, "-f");
    push_str(&mut args, "flv");
    push_str(&mut args, "-i");
    push_str(&mut args, "pipe:0");
    push_str(&mut args, "-c");
    push_str(&mut args, "copy");
    push_str(&mut args, "-f");
    push_str(&mut args, "hls");
    push_str(&mut args, "-hls_time");
    push_str(&mut args, "2");
    push_str(&mut args, "-hls_list_size");
    push_str(&mut args, "10");
    push_str(&mut args, "-hls_flags");
    push_str(&mut args, "delete_segments+append_list");
    push_str(&mut args, "-hls_segment_filename");
    push_str(&mut args, pattern.as_str());
    push_str(&mut args, playlist_path);
    proof {
        assert(args.deep_view() =~= transmux_args(segment_dir@, playlist_path@));
    }
    args
}

/// Whether a file in the segment directory is a segment, as its extension
/// tells: the name ends in `.ts` with something before the dot.
pub open spec fn segment_file(name: Seq<char>) -> bool {
    has_suffix(name, ".ts"@) && name.len() > 3
}

/// Whether a file left in the segment directory is an old segment, to be
/// removed before the transmuxer starts.
pub fn is_segment_file(name: &str) -> (r: bool)
    ensures
        r == segment_file(name@),
{
    proof {
        reveal_strlit(".ts");
    }
    ends_with(name, ".ts") && name.unicode_len() > 3
}

} // verus!
