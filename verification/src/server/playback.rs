//! Playing a local file into an RTMP ingest for scheduled events.

use vstd::prelude::*;

use crate::text::{decimal, decimal_string, push_str};

verus! {

/// The FFmpeg arguments that play `source` in real time into `output`,
/// looping it `loops` more times when that is not zero.
pub open spec fn playback_arg_list(source: Seq<char>, output: Seq<char>, loops: u8) -> Seq<Seq<char>> {
    seq!["-hide_banner"@, "-loglevel"@, "error"@, "-re"@] + (if loops > 0 {
        seq!["-stream_loop"@, decimal(loops as nat)]
    } else {
        seq![]
    }) + seq!["-i"@, source, "-c"@, "copy"@, "-f"@, "flv"@, "-y"@, output]
}

/// The arguments FFmpeg is started with to play a file into an ingest URL.
pub fn playback_args(source_path: &str, output_url: &str, loops_count: u8) -> (args: Vec<String>)
    ensures
        args.deep_view() == playback_arg_list(source_path@, output_url@, loops_count),
{
    let mut args: Vec<String> = Vec::new();
    push_str(&mut args, "-hide_banner");
    push_str(&mut args, "-loglevel");
    push_str(&mut args, "error");
    push_str(&mut args, "-re");
    if loops_count > 0 {
        push_str(&mut args, "-stream_loop");
        let n = decimal_string(loops_count as u64);
        push_str(&mut args, n.as_str());
    }
    push_str(&mut args, "-i");
    push_str(&mut args, source_path);
    push_str(&mut args, "-c");
    push_str(&mut args, "copy");
    push_str(&mut args, "-f");
    push_str(&mut args, "flv");
    push_str(&mut args, "-y");
    push_str(&mut args, output_url);
    proof {
        assert(args.deep_view() =~= playback_arg_list(source_path@, output_url@, loops_count));
    }
    args
}

} // verus!
