//! The restart policy of a supervised FFmpeg process.

use vstd::prelude::*;

use crate::text::owned;

verus! {

/// Runs an FFmpeg argument list and restarts it when it fails, up to a limit.
/// The process handling itself lives with the caller; this type holds the
/// policy and decides what happens after each exit.
#[derive(Debug, Clone)]
pub struct FfmpegSupervisor {
    pub ffmpeg_path: String,
    pub args: Vec<String>,
    pub max_restarts: u32,
    pub restart_delay_ms: u64,
}

/// What a supervisor does once the process it runs has exited.
#[derive(Debug, Clone, PartialEq, Eq)]
pub enum RestartDecision {
    /// The process succeeded: stop with success.
    Finished,
    /// Wait `delay_ms`, then start again; `restarts` restarts have now been made.
    Restart { restarts: u32, delay_ms: u64 },
    /// The restart budget is spent: stop with this exit code and the
    /// error text `stderr` (`Max restarts exceeded`).
    GiveUp { exit_code: i32, stderr: String },
}

impl FfmpegSupervisor {
    /// A supervisor with five restarts two seconds apart.
    pub fn new(ffmpeg_path: String, args: Vec<String>) -> (s: Self)
        ensures
            s.ffmpeg_path == ffmpeg_path,
            s.args == args,
            s.max_restarts == 5,
            s.restart_delay_ms == 2000,
    {
        FfmpegSupervisor { ffmpeg_path, args, max_restarts: 5, restart_delay_ms: 2000 }
    }

    /// Sets how many times a failed process is started again.
    pub fn max_restarts(self, max: u32) -> (s: Self)
        ensures
            s.max_restarts == max,
            s.ffmpeg_path == self.ffmpeg_path,
            s.args == self.args,
            s.restart_delay_ms == self.restart_delay_ms,
    {
        let mut s = self;
        s.max_restarts = max;
        s
    }

    /// Sets the pause before a restart, in milliseconds.
    pub fn restart_delay(self, ms: u64) -> (s: Self)
        ensures
            s.restart_delay_ms == ms,
            s.ffmpeg_path == self.ffmpeg_path,
            s.args == self.args,
            s.max_restarts == self.max_restarts,
    {
        let mut s = self;
        s.restart_delay_ms = ms;
        s
    }

    /// The decision after the process exited, when `restarts` restarts were
    /// made before this run. `exit_code` is the code the process reported,
    /// if any; a run without a code counts as code -1.
    pub fn after_exit(&self, restarts: u32, success: bool, exit_code: Option<i32>) -> (d: RestartDecision)
        requires
            restarts <= self.max_restarts,
            restarts < u32::MAX,
        ensures
            success ==> d == RestartDecision::Finished,
            !success && restarts + 1 <= self.max_restarts ==> d == (RestartDecision::Restart {
                restarts: (restarts + 1) as u32,
                delay_ms: self.restart_delay_ms,
            }),
            !success && restarts + 1 > self.max_restarts ==> (d matches RestartDecision::GiveUp { exit_code: c, stderr }
                && c == match exit_code {
                Some(x) => x,
                None => -1i32,
            } && stderr@ == "Max restarts exceeded"@),
    {
        if success {
            return RestartDecision::Finished;
        }
        let code = match exit_code {
            Some(c) => c,
            None => -1,
        };
        let next = restarts + 1;
        if next > self.max_restarts {
            RestartDecision::GiveUp { exit_code: code, stderr: owned("Max restarts exceeded") }
        } else {
            RestartDecision::Restart { restarts: next, delay_ms: self.restart_delay_ms }
        }
    }
}

} // verus!
