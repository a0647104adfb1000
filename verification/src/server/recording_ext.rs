//! Scheduled recordings, file rotation, S3 upload and format conversion.

use vstd::prelude::*;

use crate::text::{owned, push_str};

verus! {

/// A recording planned ahead of time.
#[derive(Debug, Clone)]
pub struct ScheduledRecording {
    pub id: String,
    pub name: String,
    pub input_url: String,
    pub start_time: Option<String>,
    pub duration_secs: Option<u64>,
    pub cron: Option<String>,
    pub output_dir: String,
    pub format: String,
    pub enabled: bool,
}

/// The planned recordings.
#[derive(Debug, Clone)]
pub struct ScheduleConfig {
    pub enabled: bool,
    pub schedules: Vec<ScheduledRecording>,
}

impl Default for ScheduleConfig {
    fn default() -> (c: Self)
        ensures
            !c.enabled,
            c.schedules@.len() == 0,
    {
        ScheduleConfig { enabled: false, schedules: Vec::new() }
    }
}

/// When a recording file is closed and a new one started.
#[derive(Debug, Clone)]
pub struct RotationConfig {
    pub enabled: bool,
    pub max_duration_secs: u64,
    pub max_size_mb: u64,
    pub max_files: usize,
    pub output_dir: String,
}

impl Default for RotationConfig {
    fn default() -> (c: Self)
        ensures
            !c.enabled,
            c.max_duration_secs == 3600,
            c.max_size_mb == 2048,
            c.max_files == 10,
            c.output_dir@ == "/tmp/reestream/recordings"@,
    {
        RotationConfig {
            enabled: false,
            max_duration_secs: 3600,
            max_size_mb: 2048,
            max_files: 10,
            output_dir: owned("/tmp/reestream/recordings"),
        }
    }
}

/// Where finished recordings are uploaded.
#[derive(Debug, Clone)]
pub struct S3Config {
    pub enabled: bool,
    pub bucket: String,
    pub region: String,
    pub endpoint: Option<String>,
    pub access_key: String,
    pub secret_key: String,
    pub prefix: String,
    pub auto_upload: bool,
}

impl Default for S3Config {
    fn default() -> (c: Self)
        ensures
            !c.enabled,
            c.bucket@.len() == 0,
            c.region@ == "us-east-1"@,
            c.endpoint.is_none(),
            c.access_key@.len() == 0,
            c.secret_key@.len() == 0,
            c.prefix@ == "recordings/"@,
            !c.auto_upload,
    {
        S3Config {
            enabled: false,
            bucket: String::new(),
            region: owned("us-east-1"),
            endpoint: None,
            access_key: String::new(),
            secret_key: String::new(),
            prefix: owned("recordings/"),
            auto_upload: false,
        }
    }
}

impl S3Config {
    /// Requires a bucket and both credentials.
    pub fn validate(&self) -> (r: Result<(), String>)
        ensures
            self.bucket@.len() == 0 ==> (r matches Err(e) && e@ == "S3 bucket cannot be empty"@),
            self.bucket@.len() != 0 && (self.access_key@.len() == 0 || self.secret_key@.len() == 0) ==> (r matches Err(e)
                && e@ == "S3 credentials cannot be empty"@),
            self.bucket@.len() != 0 && self.access_key@.len() != 0 && self.secret_key@.len() != 0 ==> r is Ok,
    {
        if self.bucket.as_str().unicode_len() == 0 {
            return Err(owned("S3 bucket cannot be empty"));
        }
        if self.access_key.as_str().unicode_len() == 0 || self.secret_key.as_str().unicode_len() == 0 {
            return Err(owned("S3 credentials cannot be empty"));
        }
        Ok(())
    }
}

/// Remuxing finished recordings into another container.
#[derive(Debug, Clone)]
pub struct FormatConvertConfig {
    pub input_format: String,
    pub output_format: String,
    pub output_dir: String,
    pub delete_original: bool,
}

impl Default for FormatConvertConfig {
    fn default() -> (c: Self)
        ensures
            c.input_format@ == "flv"@,
            c.output_format@ == "mp4"@,
            c.output_dir@ == "/tmp/reestream/converted"@,
            !c.delete_original,
    {
        FormatConvertConfig {
            input_format: owned("flv"),
            output_format: owned("mp4"),
            output_dir: owned("/tmp/reestream/converted"),
            delete_original: false,
        }
    }
}

impl FormatConvertConfig {
    /// Copies the streams of `input` into `output` with the index up front.
    pub fn to_ffmpeg_args(&self, input: &str, output: &str) -> (args: Vec<String>)
        ensures
            args.deep_view() == seq!["-i"@, input@, "-c"@, "copy"@, "-movflags"@, "+faststart"@, output@],
    {
        let mut args: Vec<String> = Vec::new();
        push_str(&mut args, "-i");
        push_str(&mut args, input);
        push_str(&mut args, "-c");
        push_str(&mut args, "copy");
        push_str(&mut args, "-movflags");
        push_str(&mut args, "+faststart");
        push_str(&mut args, output);
        proof {
            assert(args.deep_view() =~= seq!["-i"@, input@, "-c"@, "copy"@, "-movflags"@, "+faststart"@, output@]);
        }
        args
    }
}

} // verus!
