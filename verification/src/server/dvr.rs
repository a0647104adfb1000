//! The rolling DVR window of recent segments.

use vstd::prelude::*;
use vstd::string::StringExecFns;

use crate::server::segments::push_keep_newest;
use crate::text::{decimal, decimal_string, join_path, owned, path_join, push_str};

verus! {

/// DVR settings: how far back viewers can seek and where segments go.
#[derive(Debug, Clone)]
pub struct DvrConfig {
    pub enabled: bool,
    pub buffer_duration_secs: u64,
    pub storage_dir: String,
    pub max_storage_mb: u64,
    pub segment_duration_secs: u64,
}

impl Default for DvrConfig {
    fn default() -> (c: Self)
        ensures
            !c.enabled,
            c.buffer_duration_secs == 7200,
            c.storage_dir@ == "/tmp/reestream/dvr"@,
            c.max_storage_mb == 10240,
            c.segment_duration_secs == 6,
    {
        DvrConfig {
            enabled: false,
            buffer_duration_secs: 7200,
            storage_dir: owned("/tmp/reestream/dvr"),
            max_storage_mb: 10240,
            segment_duration_secs: 6,
        }
    }
}

/// How many segments fill the DVR window.
pub open spec fn dvr_capacity(c: DvrConfig) -> nat {
    (c.buffer_duration_secs / c.segment_duration_secs) as usize as nat
}

/// The segments of the DVR window, oldest first. `S` is the caller's
/// segment record.
pub struct DvrBuffer<S> {
    pub config: DvrConfig,
    pub segments: Vec<S>,
}

impl<S> DvrBuffer<S> {
    /// An empty window.
    pub fn new(config: DvrConfig) -> (b: Self)
        ensures
            b.config == config,
            b.segments@.len() == 0,
    {
        DvrBuffer { config, segments: Vec::new() }
    }

    /// The segments held, oldest first.
    pub fn segments(&self) -> (r: &Vec<S>)
        ensures
            r@ == self.segments@,
    {
        &self.segments
    }

    /// Appends a segment and drops the oldest ones beyond the window.
    pub fn add_segment(&mut self, segment: S)
        requires
            old(self).config.segment_duration_secs > 0,
        ensures
            final(self).config == old(self).config,
            ({
                let pushed = old(self).segments@.push(segment);
                let cap = dvr_capacity(old(self).config);
                final(self).segments@ == if pushed.len() > cap {
                    pushed.subrange(pushed.len() - cap, pushed.len() as int)
                } else {
                    pushed
                }
            }),
    {
        let max_segments = (self.config.buffer_duration_secs / self.config.segment_duration_secs) as usize;
        push_keep_newest(&mut self.segments, segment, max_segments);
    }

    /// The number of segments held.
    pub fn get_segment_count(&self) -> (n: usize)
        ensures
            n == self.segments@.len(),
    {
        self.segments.len()
    }

    /// Empties the window.
    pub fn clear(&mut self)
        ensures
            final(self).config == old(self).config,
            final(self).segments@.len() == 0,
    {
        self.segments = Vec::new();
    }

    /// The FFmpeg arguments that cut `input` into DVR segments.
    pub fn build_ffmpeg_dvr_args(&self, input: &str) -> (args: Vec<String>)
        ensures
            args.deep_view() == seq![
                "-i"@,
                input@,
                "-c"@,
                "copy"@,
                "-f"@,
                "segment"@,
                "-segment_time"@,
                decimal(self.config.segment_duration_secs as nat),
                "-segment_format"@,
                "mpegts"@,
                "-strftime"@,
                "1"@,
                path_join(self.config.storage_dir@, "dvr_%Y%m%d_%H%M%S.ts"@),
            ],
    {
        let mut args: Vec<String> = Vec::new();
        push_str(&mut args, "-i");
        push_str(&mut args, input);
        push_str(&mut args, "-c");
        push_str(&mut args, "copy");
        push_str(&mut args, "-f");
        push_str(&mut args, "segment");
        push_str(&mut args, "-segment_time");
        let t = decimal_string(self.config.segment_duration_secs);
        push_str(&mut args, t.as_str());
        push_str(&mut args, "-segment_format");
        push_str(&mut args, "mpegts");
        push_str(&mut args, "-strftime");
        push_str(&mut args, "1");
        let target = join_path(self.config.storage_dir.as_str(), "dvr_%Y%m%d_%H%M%S.ts");
        push_str(&mut args, target.as_str());
        proof {
            assert(args.deep_view() =~= seq![
                "-i"@,
                input@,
                "-c"@,
                "copy"@,
                "-f"@,
                "segment"@,
                "-segment_time"@,
                decimal(self.config.segment_duration_secs as nat),
                "-segment_format"@,
                "mpegts"@,
                "-strftime"@,
                "1"@,
                path_join(self.config.storage_dir@, "dvr_%Y%m%d_%H%M%S.ts"@),
            ]);
        }
        args
    }
}

} // verus!
