//! Recording settings, file naming and the FFmpeg arguments of a recording.

use vstd::prelude::*;
use vstd::string::StringExecFns;

use crate::text::{decimal, decimal_string, join_path, owned, path_join, push_str, sanitize_filename, sanitized};

verus! {

/// The container a recording is written in.
#[derive(Debug, Clone, Copy, PartialEq, Eq, Structural)]
pub enum RecordingFormat {
    Mp4,
    Flv,
    Mkv,
    Ts,
}

/// The file extension of a format.
pub open spec fn extension_of(f: RecordingFormat) -> Seq<char> {
    match f {
        RecordingFormat::Mp4 => "mp4"@,
        RecordingFormat::Flv => "flv"@,
        RecordingFormat::Mkv => "mkv"@,
        RecordingFormat::Ts => "ts"@,
    }
}

/// The FFmpeg muxer name of a format.
pub open spec fn muxer_of(f: RecordingFormat) -> Seq<char> {
    match f {
        RecordingFormat::Mp4 => "mp4"@,
        RecordingFormat::Flv => "flv"@,
        RecordingFormat::Mkv => "matroska"@,
        RecordingFormat::Ts => "mpegts"@,
    }
}

impl RecordingFormat {
    /// The file extension, without the dot.
    pub fn extension(&self) -> (r: &'static str)
        ensures
            r@ == extension_of(*self),
    {
        match self {
            RecordingFormat::Mp4 => "mp4",
            RecordingFormat::Flv => "flv",
            RecordingFormat::Mkv => "mkv",
            RecordingFormat::Ts => "ts",
        }
    }

    /// The name FFmpeg knows the container by.
    pub fn ffmpeg_format(&self) -> (r: &'static str)
        ensures
            r@ == muxer_of(*self),
    {
        match self {
            RecordingFormat::Mp4 => "mp4",
            RecordingFormat::Flv => "flv",
            RecordingFormat::Mkv => "matroska",
            RecordingFormat::Ts => "mpegts",
        }
    }
}

/// Recording settings.
#[derive(Debug, Clone)]
pub struct RecordingConfig {
    pub enabled: bool,
    pub output_dir: String,
    pub ffmpeg_path: String,
    pub format: RecordingFormat,
    pub segment_duration_secs: u64,
    pub max_file_size_mb: u64,
}

/// The FFmpeg executable used when none is configured.
pub fn default_ffmpeg_path() -> (r: String)
    ensures
        r@ == "ffmpeg"@,
{
    owned("ffmpeg")
}

impl Default for RecordingConfig {
    fn default() -> (c: Self)
        ensures
            !c.enabled,
            c.output_dir@ == "/tmp/reestream/recordings"@,
            c.ffmpeg_path@ == "ffmpeg"@,
            c.format == RecordingFormat::Mp4,
            c.segment_duration_secs == 0,
            c.max_file_size_mb == 4096,
    {
        RecordingConfig {
            enabled: false,
            output_dir: owned("/tmp/reestream/recordings"),
            ffmpeg_path: default_ffmpeg_path(),
            format: RecordingFormat::Mp4,
            segment_duration_secs: 0,
            max_file_size_mb: 4096,
        }
    }
}

/// Where a recording is in its life.
#[derive(Debug, Clone, Copy, PartialEq, Eq, Structural)]
pub enum RecordingStatus {
    Recording,
    Stopped,
    Error,
}

/// A recording and its file.
#[derive(Debug, Clone)]
pub struct RecordingInfo {
    pub id: String,
    pub stream_id: String,
    pub filename: String,
    pub path: String,
    pub format: RecordingFormat,
    pub started_at: u64,
    pub size_bytes: u64,
    pub status: RecordingStatus,
}

/// The largest file a recording may grow to, in bytes: the configured
/// megabytes times 1024 * 1024, capped at the largest `u64`; 0 means no
/// limit.
pub fn size_limit_bytes(max_file_size_mb: u64) -> (r: u64)
    ensures
        r == if max_file_size_mb * 1048576 > u64::MAX {
            u64::MAX as int
        } else {
            max_file_size_mb * 1048576
        },
{
    match max_file_size_mb.checked_mul(1048576) {
        Some(n) => n,
        None => u64::MAX,
    }
}

/// What watching a running recording finds.
#[derive(Debug, Clone, Copy, PartialEq, Eq, Structural)]
pub enum MonitorStep {
    /// The process ended: the recording takes this state.
    Ended { status: RecordingStatus },
    /// The file grew past the limit: kill the process; the recording failed.
    KillOversized,
    /// The process could not be asked about: the recording failed.
    Failed,
    /// Nothing to do yet: look again later.
    Wait,
}

/// The state a recording takes when its process ends: one stopped by the
/// operator stays stopped; otherwise a successful exit stops it and a
/// failed one marks it failed.
pub open spec fn state_after_exit(current: RecordingStatus, success: bool) -> RecordingStatus {
    if current == RecordingStatus::Stopped || success {
        RecordingStatus::Stopped
    } else {
        RecordingStatus::Error
    }
}

/// One look at a running recording. `exit` is the process's exit
/// (`Some(success)`) once it ended, `None` while it runs; `probe_failed`
/// tells that the process could not be asked; `file_size` is the size of
/// the file when it could be read.
pub fn monitor_step(
    current: RecordingStatus,
    probe_failed: bool,
    exit: Option<bool>,
    limit_bytes: u64,
    file_size: Option<u64>,
) -> (m: MonitorStep)
    ensures
        m == if probe_failed {
            MonitorStep::Failed
        } else {
            match exit {
                Some(success) => MonitorStep::Ended { status: state_after_exit(current, success) },
                None => if limit_bytes > 0 && (file_size matches Some(n) && n > limit_bytes) {
                    MonitorStep::KillOversized
                } else {
                    MonitorStep::Wait
                },
            }
        },
{
    if probe_failed {
        return MonitorStep::Failed;
    }
    match exit {
        Some(success) => {
            let status = if current == RecordingStatus::Stopped || success {
                RecordingStatus::Stopped
            } else {
                RecordingStatus::Error
            };
            MonitorStep::Ended { status }
        },
        None => {
            let over = match file_size {
                Some(n) => n > limit_bytes,
                None => false,
            };
            if limit_bytes > 0 && over {
                MonitorStep::KillOversized
            } else {
                MonitorStep::Wait
            }
        },
    }
}

impl RecordingInfo {
    /// Marks the recording stopped by the operator; a failed recording stays
    /// failed.
    pub fn mark_stopped(&mut self)
        ensures
            final(self).status == (if old(self).status == RecordingStatus::Error {
                RecordingStatus::Error
            } else {
                RecordingStatus::Stopped
            }),
            final(self).id == old(self).id,
            final(self).path == old(self).path,
            final(self).size_bytes == old(self).size_bytes,
    {
        if self.status != RecordingStatus::Error {
            self.status = RecordingStatus::Stopped;
        }
    }
}

/// The file name a recording of `stream_id` started at `timestamp` gets:
/// the stream id made safe (at most 128 characters, `stream` when nothing
/// is left), the timestamp and the format's extension.
pub open spec fn recording_filename(stream_id: Seq<char>, timestamp: nat, format: RecordingFormat) -> Seq<char> {
    let safe = sanitized(stream_id, 128);
    let base = if safe.len() == 0 { "stream"@ } else { safe };
    base + "_"@ + decimal(timestamp) + "."@ + extension_of(format)
}

/// The arguments that copy `input_url` into `output_path`, in segments
/// when the configuration asks for them.
pub open spec fn recording_args(c: RecordingConfig, input_url: Seq<char>, output_path: Seq<char>) -> Seq<Seq<char>> {
    seq!["-i"@, input_url, "-c"@, "copy"@] + (if c.segment_duration_secs > 0 {
        seq![
            "-f"@,
            "segment"@,
            "-segment_time"@,
            decimal(c.segment_duration_secs as nat),
            "-reset_timestamps"@,
            "1"@,
        ]
    } else {
        seq![]
    }) + seq!["-y"@, output_path]
}

impl RecordingConfig {
    /// The file name for a new recording of `stream_id` at `timestamp`.
    pub fn recording_filename(&self, stream_id: &str, timestamp: u64) -> (r: String)
        ensures
            r@ == recording_filename(stream_id@, timestamp as nat, self.format),
    {
        let safe = sanitize_filename(stream_id, 128);
        let mut r = if safe.as_str().unicode_len() == 0 {
            owned("stream")
        } else {
            safe
        };
        r.append("_");
        let t = decimal_string(timestamp);
        r.append(t.as_str());
        r.append(".");
        r.append(self.format.extension());
        r
    }

    /// The path a recording file named `filename` is written to.
    pub fn recording_path(&self, filename: &str) -> (r: String)
        ensures
            r@ == path_join(self.output_dir@, filename@),
    {
        join_path(self.output_dir.as_str(), filename)
    }

    /// The FFmpeg arguments of a recording.
    pub fn build_ffmpeg_args(&self, input_url: &str, output_path: &str) -> (args: Vec<String>)
        ensures
            args.deep_view() == recording_args(*self, input_url@, output_path@),
    {
        let mut args: Vec<String> = Vec::new();
        push_str(&mut args, "-i");
        push_str(&mut args, input_url);
        push_str(&mut args, "-c");
        push_str(&mut args, "copy");
        if self.segment_duration_secs > 0 {
            push_str(&mut args, "-f");
            push_str(&mut args, "segment");
            push_str(&mut args, "-segment_time");
            let t = decimal_string(self.segment_duration_secs);
            push_str(&mut args, t.as_str());
            push_str(&mut args, "-reset_timestamps");
            push_str(&mut args, "1");
        }
        push_str(&mut args, "-y");
        push_str(&mut args, output_path);
        proof {
            assert(args.deep_view() =~= recording_args(*self, input_url@, output_path@));
        }
        args
    }
}

} // verus!
