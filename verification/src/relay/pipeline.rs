//! The lifecycle state of a media pipeline and how its input is recognised.

use vstd::prelude::*;

use crate::text::{has_prefix, join2, owned, starts_with};

verus! {

/// Where a pipeline is in its lifecycle.
#[derive(Debug, Clone, PartialEq, Eq)]
pub enum PipelineStatus {
    Idle,
    Running,
    Error(String),
    Stopped,
}

impl Default for PipelineStatus {
    fn default() -> (s: Self)
        ensures
            s == PipelineStatus::Idle,
    {
        PipelineStatus::Idle
    }
}

/// The status as the API prints it.
pub open spec fn pipeline_status_text(s: PipelineStatus) -> Seq<char> {
    match s {
        PipelineStatus::Idle => "idle"@,
        PipelineStatus::Running => "running"@,
        PipelineStatus::Error(m) => "error: "@ + m@,
        PipelineStatus::Stopped => "stopped"@,
    }
}

impl PipelineStatus {
    /// The status in words: `idle`, `running`, `error: <detail>` or `stopped`.
    pub fn to_text(&self) -> (r: String)
        ensures
            r@ == pipeline_status_text(*self),
    {
        match self {
            PipelineStatus::Idle => owned("idle"),
            PipelineStatus::Running => owned("running"),
            PipelineStatus::Error(m) => join2("error: ", m.as_str()),
            PipelineStatus::Stopped => owned("stopped"),
        }
    }
}

/// The kind of source a pipeline reads.
#[derive(Debug, Clone, Copy, PartialEq, Eq, Structural)]
pub enum InputType {
    Rtmp,
    Srt,
    File,
}

/// The kind of source an input URL names.
pub open spec fn input_type_of(input: Seq<char>) -> InputType {
    if has_prefix(input, "rtmp://"@) || has_prefix(input, "rtmps://"@) {
        InputType::Rtmp
    } else if has_prefix(input, "srt://"@) {
        InputType::Srt
    } else {
        InputType::File
    }
}

/// RTMP(S) URLs are RTMP, `srt://` URLs are SRT, anything else is a file.
pub fn detect_input_type(input: &str) -> (t: InputType)
    ensures
        t == input_type_of(input@),
{
    if starts_with(input, "rtmp://") || starts_with(input, "rtmps://") {
        InputType::Rtmp
    } else if starts_with(input, "srt://") {
        InputType::Srt
    } else {
        InputType::File
    }
}

} // verus!
