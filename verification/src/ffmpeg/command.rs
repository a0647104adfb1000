//! Building the argument list of an FFmpeg invocation.

use vstd::prelude::*;

use crate::text::{join2, owned, push_all, push_str};

verus! {

/// Where FFmpeg reads its input.
#[derive(Debug, Clone)]
pub enum InputSource {
    Rtmp { url: String },
    File { path: String },
    Pipe,
}

/// Where one FFmpeg output goes.
#[derive(Debug, Clone)]
pub enum OutputDestination {
    Hls { segment_path: String, playlist_path: String },
    File { path: String },
    Rtmp { url: String },
    FlvHttp { endpoint: String },
    Pipe,
}

/// One output of an FFmpeg invocation with its codec and container options.
#[derive(Debug, Clone)]
pub struct Output {
    pub destination: OutputDestination,
    pub codec_args: Vec<String>,
    pub format_args: Vec<String>,
}

/// A hardware decoder FFmpeg can be asked to use.
#[derive(Debug, Clone, Copy, PartialEq, Eq, Structural)]
pub enum HardwareAccel {
    Vaapi,
    Nvenc,
    VideoToolbox,
    Mmal,
}

/// An FFmpeg invocation under construction.
#[derive(Debug, Clone)]
pub struct FfmpegCommand {
    pub ffmpeg_path: String,
    pub input: InputSource,
    pub outputs: Vec<Output>,
    pub global_args: Vec<String>,
    pub hw_accel: Option<HardwareAccel>,
}

/// The arguments that select a hardware decoder.
pub open spec fn hw_accel_args(accel: Option<HardwareAccel>) -> Seq<Seq<char>> {
    match accel {
        Some(HardwareAccel::Vaapi) => seq![
            "-vaapi_device"@,
            "/dev/dri/renderD128"@,
            "-hwaccel"@,
            "vaapi"@,
            "-hwaccel_output_format"@,
            "vaapi"@,
        ],
        Some(HardwareAccel::Nvenc) => seq!["-hwaccel"@, "cuda"@],
        Some(HardwareAccel::VideoToolbox) => seq!["-hwaccel"@, "videotoolbox"@],
        Some(HardwareAccel::Mmal) => seq!["-hwaccel"@, "mmal"@],
        None => seq![],
    }
}

/// The arguments that name the input.
pub open spec fn input_args(input: InputSource) -> Seq<Seq<char>> {
    match input {
        InputSource::Rtmp { url } => seq!["-listen"@, "1"@, "-i"@, url@],
        InputSource::File { path } => seq!["-i"@, path@],
        InputSource::Pipe => seq!["-i"@, "pipe:0"@],
    }
}

/// The last argument of an output: the place FFmpeg writes to.
pub open spec fn destination_target(dest: OutputDestination) -> Seq<char> {
    match dest {
        OutputDestination::Hls { playlist_path, .. } => playlist_path@,
        OutputDestination::File { path } => path@,
        OutputDestination::Rtmp { url } => url@,
        OutputDestination::FlvHttp { endpoint } => endpoint@,
        OutputDestination::Pipe => "pipe:1"@,
    }
}

/// The arguments of one output: codec options, container options, target.
pub open spec fn output_args(output: Output) -> Seq<Seq<char>> {
    output.codec_args.deep_view() + output.format_args.deep_view() + seq![
        destination_target(output.destination),
    ]
}

/// The arguments of a list of outputs, one after another.
pub open spec fn outputs_args(outputs: Seq<Output>) -> Seq<Seq<char>>
    decreases outputs.len(),
{
    if outputs.len() == 0 {
        seq![]
    } else {
        outputs_args(outputs.drop_last()) + output_args(outputs.last())
    }
}

/// The whole argument list of a command: global options, hardware
/// decoding, input, then every output in the order it was added.
pub open spec fn command_args(cmd: FfmpegCommand) -> Seq<Seq<char>> {
    cmd.global_args.deep_view() + hw_accel_args(cmd.hw_accel) + input_args(cmd.input)
        + outputs_args(cmd.outputs@)
}

/// `-c copy`.
pub open spec fn copy_codec_args() -> Seq<Seq<char>> {
    seq!["-c"@, "copy"@]
}

/// `-f flv`.
pub open spec fn flv_format_args() -> Seq<Seq<char>> {
    seq!["-f"@, "flv"@]
}

/// The container options of a live HLS output.
pub open spec fn hls_format_args() -> Seq<Seq<char>> {
    seq![
        "-f"@,
        "hls"@,
        "-hls_time"@,
        "2"@,
        "-hls_list_size"@,
        "10"@,
        "-hls_flags"@,
        "delete_segments"@,
    ]
}

/// The codec options of an H.264/AAC transcode at the given size and bitrate.
pub open spec fn transcode_codec_args(resolution: Seq<char>, bitrate: Seq<char>) -> Seq<Seq<char>> {
    seq![
        "-c:v"@,
        "libx264"@,
        "-preset"@,
        "veryfast"@,
        "-b:v"@,
        bitrate,
        "-maxrate"@,
        bitrate,
        "-bufsize"@,
        bitrate,
        "-vf"@,
        "scale="@ + resolution,
        "-c:a"@,
        "aac"@,
        "-b:a"@,
        "128k"@,
    ]
}

fn copy_codec() -> (v: Vec<String>)
    ensures
        v.deep_view() == copy_codec_args(),
{
    let mut v: Vec<String> = Vec::new();
    push_str(&mut v, "-c");
    push_str(&mut v, "copy");
    proof {
        assert(v.deep_view() =~= copy_codec_args());
    }
    v
}

fn flv_format() -> (v: Vec<String>)
    ensures
        v.deep_view() == flv_format_args(),
{
    let mut v: Vec<String> = Vec::new();
    push_str(&mut v, "-f");
    push_str(&mut v, "flv");
    proof {
        assert(v.deep_view() =~= flv_format_args());
    }
    v
}

/// An RTMP input makes FFmpeg listen for the publisher: right after the
/// global and hardware options come `-listen 1 -i <url>`, then the
/// outputs. A file is read with `-i <path>`, standard input with
/// `-i pipe:0`.
pub proof fn law_input_options(cmd: FfmpegCommand)
    ensures
        ({
            let head = cmd.global_args.deep_view() + hw_accel_args(cmd.hw_accel);
            let args = command_args(cmd);
            match cmd.input {
                InputSource::Rtmp { url } => args == head + seq!["-listen"@, "1"@, "-i"@, url@] + outputs_args(
                    cmd.outputs@,
                ),
                InputSource::File { path } => args == head + seq!["-i"@, path@] + outputs_args(cmd.outputs@),
                InputSource::Pipe => args == head + seq!["-i"@, "pipe:0"@] + outputs_args(cmd.outputs@),
            }
        }),
{
}

impl FfmpegCommand {
    /// A command with no options and no outputs yet.
    pub fn new(ffmpeg_path: String, input: InputSource) -> (cmd: Self)
        ensures
            cmd.ffmpeg_path == ffmpeg_path,
            cmd.input == input,
            cmd.outputs@.len() == 0,
            cmd.global_args@.len() == 0,
            cmd.hw_accel.is_none(),
    {
        FfmpegCommand {
            ffmpeg_path,
            input,
            outputs: Vec::new(),
            global_args: Vec::new(),
            hw_accel: None,
        }
    }

    /// Adds an option that comes before everything else.
    pub fn global_arg(self, arg: &str) -> (cmd: Self)
        ensures
            cmd.global_args.deep_view() == self.global_args.deep_view().push(arg@),
            cmd.ffmpeg_path == self.ffmpeg_path,
            cmd.input == self.input,
            cmd.outputs == self.outputs,
            cmd.hw_accel == self.hw_accel,
    {
        let mut cmd = self;
        push_str(&mut cmd.global_args, arg);
        cmd
    }

    /// Selects a hardware decoder.
    pub fn hw_accel(self, accel: HardwareAccel) -> (cmd: Self)
        ensures
            cmd.hw_accel == Some(accel),
            cmd.ffmpeg_path == self.ffmpeg_path,
            cmd.input == self.input,
            cmd.outputs == self.outputs,
            cmd.global_args == self.global_args,
    {
        let mut cmd = self;
        cmd.hw_accel = Some(accel);
        cmd
    }

    /// Adds an output after the ones already there.
    pub fn add_output(self, output: Output) -> (cmd: Self)
        ensures
            cmd.outputs@ == self.outputs@.push(output),
            cmd.ffmpeg_path == self.ffmpeg_path,
            cmd.input == self.input,
            cmd.global_args == self.global_args,
            cmd.hw_accel == self.hw_accel,
    {
        let mut cmd = self;
        cmd.outputs.push(output);
        cmd
    }

    /// Adds an output that copies the streams to an RTMP server as FLV.
    pub fn passthrough_to_rtmp(self, url: &str) -> (cmd: Self)
        ensures
            cmd.outputs@.len() == self.outputs@.len() + 1,
            cmd.outputs@.drop_last() == self.outputs@,
            cmd.outputs@.last().destination matches OutputDestination::Rtmp { url: u } && u@ == url@,
            cmd.outputs@.last().codec_args.deep_view() == copy_codec_args(),
            cmd.outputs@.last().format_args.deep_view() == flv_format_args(),
            output_args(cmd.outputs@.last()) == copy_codec_args() + flv_format_args() + seq![url@],
            cmd.ffmpeg_path == self.ffmpeg_path,
            cmd.input == self.input,
            cmd.global_args == self.global_args,
            cmd.hw_accel == self.hw_accel,
    {
        let output = Output {
            destination: OutputDestination::Rtmp { url: owned(url) },
            codec_args: copy_codec(),
            format_args: flv_format(),
        };
        let cmd = self.add_output(output);
        proof {
            assert(cmd.outputs@.drop_last() =~= self.outputs@);
        }
        cmd
    }

    /// Adds a live HLS output that writes the playlist at `playlist_path`.
    pub fn to_hls(self, segment_path: String, playlist_path: String) -> (cmd: Self)
        ensures
            cmd.outputs@.len() == self.outputs@.len() + 1,
            cmd.outputs@.drop_last() == self.outputs@,
            cmd.outputs@.last().destination == (OutputDestination::Hls { segment_path, playlist_path }),
            cmd.outputs@.last().codec_args.deep_view() == copy_codec_args(),
            cmd.outputs@.last().format_args.deep_view() == hls_format_args(),
            output_args(cmd.outputs@.last()) == copy_codec_args() + hls_format_args() + seq![playlist_path@],
            cmd.ffmpeg_path == self.ffmpeg_path,
            cmd.input == self.input,
            cmd.global_args == self.global_args,
            cmd.hw_accel == self.hw_accel,
    {
        let mut format_args: Vec<String> = Vec::new();
        push_str(&mut format_args, "-f");
        push_str(&mut format_args, "hls");
        push_str(&mut format_args, "-hls_time");
        push_str(&mut format_args, "2");
        push_str(&mut format_args, "-hls_list_size");
        push_str(&mut format_args, "10");
        push_str(&mut format_args, "-hls_flags");
        push_str(&mut format_args, "delete_segments");
        proof {
            assert(format_args.deep_view() =~= hls_format_args());
        }
        let output = Output {
            destination: OutputDestination::Hls { segment_path, playlist_path },
            codec_args: copy_codec(),
            format_args,
        };
        let cmd = self.add_output(output);
        proof {
            assert(cmd.outputs@.drop_last() =~= self.outputs@);
        }
        cmd
    }

    /// Adds an output that copies the streams as FLV to an HTTP endpoint.
    pub fn to_flv_http(self, endpoint: &str) -> (cmd: Self)
        ensures
            cmd.outputs@.len() == self.outputs@.len() + 1,
            cmd.outputs@.drop_last() == self.outputs@,
            cmd.outputs@.last().destination matches OutputDestination::FlvHttp { endpoint: e } && e@ == endpoint@,
            cmd.outputs@.last().codec_args.deep_view() == copy_codec_args(),
            cmd.outputs@.last().format_args.deep_view() == flv_format_args(),
            output_args(cmd.outputs@.last()) == copy_codec_args() + flv_format_args() + seq![endpoint@],
            cmd.ffmpeg_path == self.ffmpeg_path,
            cmd.input == self.input,
            cmd.global_args == self.global_args,
            cmd.hw_accel == self.hw_accel,
    {
        let output = Output {
            destination: OutputDestination::FlvHttp { endpoint: owned(endpoint) },
            codec_args: copy_codec(),
            format_args: flv_format(),
        };
        let cmd = self.add_output(output);
        proof {
            assert(cmd.outputs@.drop_last() =~= self.outputs@);
        }
        cmd
    }

    /// Adds an output that re-encodes to H.264/AAC at `resolution` and `bitrate`.
    pub fn transcode(self, output: OutputDestination, resolution: &str, bitrate: &str) -> (cmd: Self)
        ensures
            cmd.outputs@.len() == self.outputs@.len() + 1,
            cmd.outputs@.drop_last() == self.outputs@,
            cmd.outputs@.last().destination == output,
            cmd.outputs@.last().codec_args.deep_view() == transcode_codec_args(resolution@, bitrate@),
            cmd.outputs@.last().format_args@.len() == 0,
            cmd.ffmpeg_path == self.ffmpeg_path,
            cmd.input == self.input,
            cmd.global_args == self.global_args,
            cmd.hw_accel == self.hw_accel,
    {
        let mut codec_args: Vec<String> = Vec::new();
        push_str(&mut codec_args, "-c:v");
        push_str(&mut codec_args, "libx264");
        push_str(&mut codec_args, "-preset");
        push_str(&mut codec_args, "veryfast");
        push_str(&mut codec_args, "-b:v");
        push_str(&mut codec_args, bitrate);
        push_str(&mut codec_args, "-maxrate");
        push_str(&mut codec_args, bitrate);
        push_str(&mut codec_args, "-bufsize");
        push_str(&mut codec_args, bitrate);
        push_str(&mut codec_args, "-vf");
        let scale = join2("scale=", resolution);
        push_str(&mut codec_args, scale.as_str());
        push_str(&mut codec_args, "-c:a");
        push_str(&mut codec_args, "aac");
        push_str(&mut codec_args, "-b:a");
        push_str(&mut codec_args, "128k");
        proof {
            assert(codec_args.deep_view() =~= transcode_codec_args(resolution@, bitrate@));
        }
        let out = Output { destination: output, codec_args, format_args: Vec::new() };
        let cmd = self.add_output(out);
        proof {
            assert(cmd.outputs@.drop_last() =~= self.outputs@);
        }
        cmd
    }

    /// The full argument list, in the order FFmpeg expects it.
    pub fn build_args(&self) -> (args: Vec<String>)
        ensures
            args.deep_view() == command_args(*self),
    {
        let mut args: Vec<String> = Vec::new();
        push_all(&mut args, &self.global_args);
        match &self.hw_accel {
            Some(HardwareAccel::Vaapi) => {
                push_str(&mut args, "-vaapi_device");
                push_str(&mut args, "/dev/dri/renderD128");
                push_str(&mut args, "-hwaccel");
                push_str(&mut args, "vaapi");
                push_str(&mut args, "-hwaccel_output_format");
                push_str(&mut args, "vaapi");
            },
            Some(HardwareAccel::Nvenc) => {
                push_str(&mut args, "-hwaccel");
                push_str(&mut args, "cuda");
            },
            Some(HardwareAccel::VideoToolbox) => {
                push_str(&mut args, "-hwaccel");
                push_str(&mut args, "videotoolbox");
            },
            Some(HardwareAccel::Mmal) => {
                push_str(&mut args, "-hwaccel");
                push_str(&mut args, "mmal");
            },
            None => {},
        }
        proof {
            assert(args.deep_view() =~= self.global_args.deep_view() + hw_accel_args(self.hw_accel));
        }
        match &self.input {
            InputSource::Rtmp { url } => {
                push_str(&mut args, "-listen");
                push_str(&mut args, "1");
                push_str(&mut args, "-i");
                push_str(&mut args, url.as_str());
            },
            InputSource::File { path } => {
                push_str(&mut args, "-i");
                push_str(&mut args, path.as_str());
            },
            InputSource::Pipe => {
                push_str(&mut args, "-i");
                push_str(&mut args, "pipe:0");
            },
        }
        let ghost head = self.global_args.deep_view() + hw_accel_args(self.hw_accel) + input_args(
            self.input,
        );
        proof {
            assert(args.deep_view() =~= head);
            assert(self.outputs@.subrange(0, 0) =~= Seq::<Output>::empty());
            assert(head + outputs_args(self.outputs@.subrange(0, 0)) =~= head);
        }
        let n = self.outputs.len();
        for i in 0..n
            invariant
                n == self.outputs@.len(),
                args.deep_view() == head + outputs_args(self.outputs@.subrange(0, i as int)),
        {
            let output = &self.outputs[i];
            let ghost before = args.deep_view();
            push_all(&mut args, &output.codec_args);
            push_all(&mut args, &output.format_args);
            match &output.destination {
                OutputDestination::Hls { segment_path: _, playlist_path } => {
                    push_str(&mut args, playlist_path.as_str());
                },
                OutputDestination::File { path } => {
                    push_str(&mut args, path.as_str());
                },
                OutputDestination::Rtmp { url } => {
                    push_str(&mut args, url.as_str());
                },
                OutputDestination::FlvHttp { endpoint } => {
                    push_str(&mut args, endpoint.as_str());
                },
                OutputDestination::Pipe => {
                    push_str(&mut args, "pipe:1");
                },
            }
            proof {
                let s = self.outputs@;
                assert(s.subrange(0, i + 1).drop_last() =~= s.subrange(0, i as int));
                assert(s.subrange(0, i + 1).last() == s[i as int]);
                assert(args.deep_view() =~= before + output_args(*output));
                assert(args.deep_view() =~= head + outputs_args(s.subrange(0, i + 1)));
            }
        }
        proof {
            assert(self.outputs@.subrange(0, n as int) =~= self.outputs@);
        }
        args
    }
}

/// Adding an output appends exactly that output's arguments to the
/// command line, after everything that was there.
pub proof fn law_output_appends_args(outputs: Seq<Output>, o: Output)
    ensures
        outputs_args(outputs.push(o)) == outputs_args(outputs) + output_args(o),
{
    assert(outputs.push(o).drop_last() =~= outputs);
}

} // verus!
