use vstd::prelude::*;
use vstd::string::*;

use crate::text::views;

verus! {

/// The arguments that decode the first audio stream of the input to raw
/// 48 kHz stereo 32-bit float samples on standard output.
pub open spec fn output_args() -> Seq<Seq<char>> {
    seq![
        "-map"@,
        "0:a:0"@,
        "-vn"@,
        "-f"@,
        "f32le"@,
        "-ac"@,
        "2"@,
        "-ar"@,
        "48000"@,
        "pipe:1"@,
    ]
}

/// The arguments ffmpeg runs with to read a network stream at `url`:
/// low-latency probing, one thread, warnings only, reconnection on drops.
pub open spec fn url_args(url: Seq<char>) -> Seq<Seq<char>> {
    seq![
        "-nostdin"@,
        "-fflags"@,
        "+nobuffer"@,
        "-probesize"@,
        "32"@,
        "-analyzeduration"@,
        "0"@,
        "-threads"@,
        "1"@,
        "-loglevel"@,
        "warning"@,
        "-reconnect"@,
        "1"@,
        "-reconnect_streamed"@,
        "1"@,
        "-reconnect_delay_max"@,
        "3"@,
        "-reconnect_max_retries"@,
        "2"@,
        "-i"@,
        url,
    ] + output_args()
}

/// The arguments ffmpeg runs with to read a stream piped to its input.
pub open spec fn pipe_args() -> Seq<Seq<char>> {
    seq!["-nostdin"@, "-threads"@, "1"@, "-loglevel"@, "warning"@, "-i"@, "pipe:0"@]
        + output_args()
}

fn push_arg(args: &mut Vec<String>, a: &str)
    ensures
        views(final(args)@) == views(old(args)@).push(a@),
{
    args.push(String::from_str(a));
    assert(views(final(args)@) =~= views(old(args)@).push(a@));
}

fn push_output_args(args: &mut Vec<String>)
    ensures
        views(final(args)@) == views(old(args)@) + output_args(),
{
    push_arg(args, "-map");
    push_arg(args, "0:a:0");
    push_arg(args, "-vn");
    push_arg(args, "-f");
    push_arg(args, "f32le");
    push_arg(args, "-ac");
    push_arg(args, "2");
    push_arg(args, "-ar");
    push_arg(args, "48000");
    push_arg(args, "pipe:1");
    assert(views(final(args)@) =~= views(old(args)@) + output_args());
}

/// The ffmpeg arguments for decoding the stream at `url`.
pub fn ffmpeg_url_args(url: &str) -> (res: Vec<String>)
    ensures
        views(res@) == url_args(url@),
{
    let mut args: Vec<String> = Vec::new();
    push_arg(&mut args, "-nostdin");
    push_arg(&mut args, "-fflags");
    push_arg(&mut args, "+nobuffer");
    push_arg(&mut args, "-probesize");
    push_arg(&mut args, "32");
    push_arg(&mut args, "-analyzeduration");
    push_arg(&mut args, "0");
    push_arg(&mut args, "-threads");
    push_arg(&mut args, "1");
    push_arg(&mut args, "-loglevel");
    push_arg(&mut args, "warning");
    push_arg(&mut args, "-reconnect");
    push_arg(&mut args, "1");
    push_arg(&mut args, "-reconnect_streamed");
    push_arg(&mut args, "1");
    push_arg(&mut args, "-reconnect_delay_max");
    push_arg(&mut args, "3");
    push_arg(&mut args, "-reconnect_max_retries");
    push_arg(&mut args, "2");
    push_arg(&mut args, "-i");
    push_arg(&mut args, url);
    push_output_args(&mut args);
    assert(views(args@) =~= url_args(url@));
    args
}

/// The ffmpeg arguments for decoding a stream piped to its input.
pub fn ffmpeg_pipe_args() -> (res: Vec<String>)
    ensures
        views(res@) == pipe_args(),
{
    let mut args: Vec<String> = Vec::new();
    push_arg(&mut args, "-nostdin");
    push_arg(&mut args, "-threads");
    push_arg(&mut args, "1");
    push_arg(&mut args, "-loglevel");
    push_arg(&mut args, "warning");
    push_arg(&mut args, "-i");
    push_arg(&mut args, "pipe:0");
    push_output_args(&mut args);
    assert(views(args@) =~= pipe_args());
    args
}

/// Raw samples come out at 48 kHz.
pub const SAMPLE_RATE: u32 = 48_000;

/// Raw samples come out in two channels.
pub const CHANNELS: u32 = 2;

} // verus!
