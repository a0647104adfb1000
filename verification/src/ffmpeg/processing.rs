//! Transcoding profiles, overlay placement, thumbnails and resizing filters.

use vstd::prelude::*;
use vstd::string::StringExecFns;

use crate::text::{decimal, decimal_string, join2, join_path, owned, path_join, push_str};

verus! {

/// A named H.264 encoding ladder rung.
#[derive(Debug, Clone)]
pub struct TranscodeProfile {
    pub name: String,
    pub resolution: String,
    pub video_bitrate: String,
    pub audio_bitrate: String,
    pub codec: String,
    pub preset: String,
}

/// The arguments that transcode `input` to `output` with a profile.
pub open spec fn transcode_profile_args(p: TranscodeProfile, input: Seq<char>, output: Seq<char>) -> Seq<Seq<char>> {
    seq![
        "-i"@,
        input,
        "-c:v"@,
        p.codec@,
        "-preset"@,
        p.preset@,
        "-b:v"@,
        p.video_bitrate@,
        "-maxrate"@,
        p.video_bitrate@,
        "-bufsize"@,
        p.video_bitrate@,
        "-vf"@,
        "scale="@ + p.resolution@,
        "-c:a"@,
        "aac"@,
        "-b:a"@,
        p.audio_bitrate@,
        "-f"@,
        "flv"@,
        output,
    ]
}

impl TranscodeProfile {
    /// A libx264 `veryfast` profile.
    pub fn new(name: &str, resolution: &str, video_bitrate: &str, audio_bitrate: &str) -> (p: Self)
        ensures
            p.name@ == name@,
            p.resolution@ == resolution@,
            p.video_bitrate@ == video_bitrate@,
            p.audio_bitrate@ == audio_bitrate@,
            p.codec@ == "libx264"@,
            p.preset@ == "veryfast"@,
    {
        TranscodeProfile {
            name: owned(name),
            resolution: owned(resolution),
            video_bitrate: owned(video_bitrate),
            audio_bitrate: owned(audio_bitrate),
            codec: owned("libx264"),
            preset: owned("veryfast"),
        }
    }

    /// The arguments that transcode `input` to `output` as FLV.
    pub fn to_ffmpeg_args(&self, input: &str, output: &str) -> (v: Vec<String>)
        ensures
            v.deep_view() == transcode_profile_args(*self, input@, output@),
    {
        let mut v: Vec<String> = Vec::new();
        push_str(&mut v, "-i");
        push_str(&mut v, input);
        push_str(&mut v, "-c:v");
        push_str(&mut v, self.codec.as_str());
        push_str(&mut v, "-preset");
        push_str(&mut v, self.preset.as_str());
        push_str(&mut v, "-b:v");
        push_str(&mut v, self.video_bitrate.as_str());
        push_str(&mut v, "-maxrate");
        push_str(&mut v, self.video_bitrate.as_str());
        push_str(&mut v, "-bufsize");
        push_str(&mut v, self.video_bitrate.as_str());
        push_str(&mut v, "-vf");
        let scale = join2("scale=", self.resolution.as_str());
        push_str(&mut v, scale.as_str());
        push_str(&mut v, "-c:a");
        push_str(&mut v, "aac");
        push_str(&mut v, "-b:a");
        push_str(&mut v, self.audio_bitrate.as_str());
        push_str(&mut v, "-f");
        push_str(&mut v, "flv");
        push_str(&mut v, output);
        proof {
            assert(v.deep_view() =~= transcode_profile_args(*self, input@, output@));
        }
        v
    }
}

/// A corner (or the centre) of the frame for an overlay.
#[derive(Debug, Clone, Copy, PartialEq, Eq, Structural)]
pub enum WatermarkPosition {
    TopLeft,
    TopRight,
    BottomLeft,
    BottomRight,
    Center,
}

/// The `overlay` filter coordinates of a position with a margin in pixels.
pub open spec fn overlay_text(pos: WatermarkPosition, margin: nat) -> Seq<char> {
    let m = decimal(margin);
    match pos {
        WatermarkPosition::TopLeft => m + ":"@ + m,
        WatermarkPosition::TopRight => "main_w-overlay_w-"@ + m + ":"@ + m,
        WatermarkPosition::BottomLeft => m + ":main_h-overlay_h-"@ + m,
        WatermarkPosition::BottomRight => "main_w-overlay_w-"@ + m + ":main_h-overlay_h-"@ + m,
        WatermarkPosition::Center => "(main_w-overlay_w)/2:(main_h-overlay_h)/2"@,
    }
}

impl WatermarkPosition {
    /// The overlay coordinates, `margin` pixels from the chosen edges.
    pub fn to_overlay(&self, margin: u32) -> (r: String)
        ensures
            r@ == overlay_text(*self, margin as nat),
    {
        let m = decimal_string(margin as u64);
        match self {
            WatermarkPosition::TopLeft => {
                let mut r = m.clone();
                r.append(":");
                r.append(m.as_str());
                r
            },
            WatermarkPosition::TopRight => {
                let mut r = join2("main_w-overlay_w-", m.as_str());
                r.append(":");
                r.append(m.as_str());
                r
            },
            WatermarkPosition::BottomLeft => {
                let mut r = m.clone();
                r.append(":main_h-overlay_h-");
                r.append(m.as_str());
                r
            },
            WatermarkPosition::BottomRight => {
                let mut r = join2("main_w-overlay_w-", m.as_str());
                r.append(":main_h-overlay_h-");
                r.append(m.as_str());
                r
            },
            WatermarkPosition::Center => owned("(main_w-overlay_w)/2:(main_h-overlay_h)/2"),
        }
    }
}

/// Periodic JPEG thumbnails of a stream.
#[derive(Debug, Clone)]
pub struct ThumbnailConfig {
    pub interval_secs: u32,
    pub output_dir: String,
    pub width: u32,
    pub height: u32,
    pub quality: u32,
}

/// The arguments that write one thumbnail every `interval_secs` seconds.
pub open spec fn thumbnail_args(c: ThumbnailConfig, input: Seq<char>) -> Seq<Seq<char>> {
    seq![
        "-i"@,
        input,
        "-vf"@,
        "fps=1/"@ + decimal(c.interval_secs as nat) + ",scale="@ + decimal(c.width as nat) + ":"@
            + decimal(c.height as nat),
        "-q:v"@,
        decimal(c.quality as nat),
        path_join(c.output_dir@, "thumb_%04d.jpg"@),
    ]
}

impl ThumbnailConfig {
    /// Every ten seconds, 320x180, quality 2, under `/tmp/reestream/thumbnails`.
    pub fn default() -> (c: Self)
        ensures
            c.interval_secs == 10,
            c.output_dir@ == "/tmp/reestream/thumbnails"@,
            c.width == 320,
            c.height == 180,
            c.quality == 2,
    {
        ThumbnailConfig {
            interval_secs: 10,
            output_dir: owned("/tmp/reestream/thumbnails"),
            width: 320,
            height: 180,
            quality: 2,
        }
    }

    /// The FFmpeg arguments that extract thumbnails from `input`.
    pub fn to_ffmpeg_args(&self, input: &str) -> (v: Vec<String>)
        ensures
            v.deep_view() == thumbnail_args(*self, input@),
    {
        let mut v: Vec<String> = Vec::new();
        push_str(&mut v, "-i");
        push_str(&mut v, input);
        push_str(&mut v, "-vf");
        let interval = decimal_string(self.interval_secs as u64);
        let width = decimal_string(self.width as u64);
        let height = decimal_string(self.height as u64);
        let mut filter = join2("fps=1/", interval.as_str());
        filter.append(",scale=");
        filter.append(width.as_str());
        filter.append(":");
        filter.append(height.as_str());
        push_str(&mut v, filter.as_str());
        push_str(&mut v, "-q:v");
        let quality = decimal_string(self.quality as u64);
        push_str(&mut v, quality.as_str());
        let target = join_path(self.output_dir.as_str(), "thumb_%04d.jpg");
        push_str(&mut v, target.as_str());
        proof {
            assert(v.deep_view() =~= thumbnail_args(*self, input@));
        }
        v
    }
}

/// A scaling filter, optionally keeping the source aspect ratio.
#[derive(Debug, Clone)]
pub struct ResizeConfig {
    pub width: u32,
    pub height: u32,
    pub maintain_aspect: bool,
}

/// The `scale` filter text of a resize.
pub open spec fn resize_filter(c: ResizeConfig) -> Seq<char> {
    let base = "scale="@ + decimal(c.width as nat) + ":"@ + decimal(c.height as nat);
    if c.maintain_aspect {
        base + ":force_original_aspect_ratio=decrease"@
    } else {
        base
    }
}

impl ResizeConfig {
    /// The `scale` filter; with `maintain_aspect` the frame fits inside the box.
    pub fn to_filter(&self) -> (r: String)
        ensures
            r@ == resize_filter(*self),
    {
        let width = decimal_string(self.width as u64);
        let height = decimal_string(self.height as u64);
        let mut r = join2("scale=", width.as_str());
        r.append(":");
        r.append(height.as_str());
        if self.maintain_aspect {
            r.append(":force_original_aspect_ratio=decrease");
        }
        r
    }
}

} // verus!
