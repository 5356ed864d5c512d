//! Conversion of a video to the `.avi` files that the TinyTV players read,
//! and the grab of one preview frame. The library builds the ffmpeg command
//! lines; running ffmpeg is left to the caller.

use vstd::prelude::*;
use crate::paths::{path_with_extension, path_with_file_name, with_extension, with_file_name};

verus! {

/// Video conversion options, as the front end sends them.
#[derive(Clone, Copy, Debug)]
pub struct Options<'a> {
    /// The video to convert.
    pub path: &'a str,
    /// Where ffmpeg writes the converted file.
    pub save_path: &'a str,
    /// The stem of the output file name.
    pub output_name: &'a str,
    /// The ffmpeg video filter that scales the picture (`-vf`).
    pub scale: &'a str,
    /// The output frame rate (`-r`).
    pub frame_rate: &'a str,
    pub video_frame_bytes: usize,
    pub sample_bit_depth: u8,
    pub sample_rate: &'a str,
    pub audio_frame_bytes: usize,
}

/// One run of the bundled ffmpeg that writes an `.avi` file.
pub struct AviConversion {
    /// A file to delete, if it is there, before ffmpeg runs.
    pub stale_output: String,
    /// The name of the bundled executable to run (see `sidecar_path`).
    pub sidecar: String,
    /// The command line arguments.
    pub args: Vec<String>,
}

/// Video bit rate for the 240x135 TV.
pub open spec fn tv_bitrate() -> Seq<char> {
    "1500k"@
}

/// Video bit rate for the 64x64 TV Mini and the 96x64 DIY TV.
pub open spec fn small_tv_bitrate() -> Seq<char> {
    "300k"@
}

/// The ffmpeg arguments of an `.avi` conversion at video bit rate `rate`:
/// MJPEG video, 8-bit unsigned PCM mono audio at 10 kHz, written to
/// `save_path`.
pub open spec fn avi_args(options: Options, rate: Seq<char>) -> Seq<Seq<char>> {
    seq![
        "-i"@, options.path@,
        "-r"@, options.frame_rate@,
        "-vf"@, options.scale@,
        "-b:v"@, rate,
        "-maxrate"@, rate,
        "-bufsize"@, "64k"@,
        "-c:v"@, "mjpeg"@,
        "-acodec"@, "pcm_u8"@,
        "-ar"@, "10000"@,
        "-ac"@, "1"@,
        options.save_path@,
    ]
}

/// The file removed before a conversion: `save_path` with its file name
/// replaced by `output_name` and the extension `avi`.
pub open spec fn stale_avi_path(options: Options) -> Seq<char> {
    path_with_extension(path_with_file_name(options.save_path@, options.output_name@), "avi"@)
}

/// What a conversion at bit rate `rate` runs.
pub open spec fn is_avi_conversion(job: AviConversion, options: Options, rate: Seq<char>) -> bool {
    &&& job.stale_output@ == stale_avi_path(options)
    &&& job.sidecar@ == "ffmpeg"@
    &&& job.args.deep_view() == avi_args(options, rate)
}

fn avi_conversion(options: &Options, rate: &str) -> (job: AviConversion)
    ensures
        is_avi_conversion(job, *options, rate@),
{
    let named = with_file_name(options.save_path, options.output_name);
    proof {
        reveal_strlit("avi");
    }
    let stale_output = with_extension(named.as_str(), "avi");
    let mut args: Vec<String> = Vec::new();
    args.push(String::from_str("-i"));
    args.push(String::from_str(options.path));
    args.push(String::from_str("-r"));
    args.push(String::from_str(options.frame_rate));
    args.push(String::from_str("-vf"));
    args.push(String::from_str(options.scale));
    args.push(String::from_str("-b:v"));
    args.push(String::from_str(rate));
    args.push(String::from_str("-maxrate"));
    args.push(String::from_str(rate));
    args.push(String::from_str("-bufsize"));
    args.push(String::from_str("64k"));
    args.push(String::from_str("-c:v"));
    args.push(String::from_str("mjpeg"));
    args.push(String::from_str("-acodec"));
    args.push(String::from_str("pcm_u8"));
    args.push(String::from_str("-ar"));
    args.push(String::from_str("10000"));
    args.push(String::from_str("-ac"));
    args.push(String::from_str("1"));
    args.push(String::from_str(options.save_path));
    assert(args.deep_view() =~= avi_args(*options, rate@));
    AviConversion { stale_output, sidecar: String::from_str("ffmpeg"), args }
}

/// Conversion to `.avi` for the 240x135 TV.
pub fn convert_avi(options: Options) -> (job: AviConversion)
    ensures
        is_avi_conversion(job, options, tv_bitrate()),
        job.args.deep_view().len() == 21,
        job.args.deep_view()[1] == options.path@,
        job.args.deep_view()[3] == options.frame_rate@,
        job.args.deep_view()[5] == options.scale@,
        job.args.deep_view()[7] == "1500k"@ && job.args.deep_view()[9] == "1500k"@,
        job.args.deep_view()[20] == options.save_path@,
        job.stale_output@ == path_with_extension(
            path_with_file_name(options.save_path@, options.output_name@),
            "avi"@,
        ),
        job.sidecar@ == "ffmpeg"@,
{
    let job = avi_conversion(&options, "1500k");
    proof {
        lemma_avi_args_layout(options, tv_bitrate());
    }
    job
}

/// Conversion to `.avi` for the 64x64 TV Mini.
pub fn convert_mini_avi(options: Options) -> (job: AviConversion)
    ensures
        is_avi_conversion(job, options, small_tv_bitrate()),
        job.args.deep_view().len() == 21,
        job.args.deep_view()[1] == options.path@,
        job.args.deep_view()[3] == options.frame_rate@,
        job.args.deep_view()[5] == options.scale@,
        job.args.deep_view()[7] == "300k"@ && job.args.deep_view()[9] == "300k"@,
        job.args.deep_view()[20] == options.save_path@,
        job.stale_output@ == path_with_extension(
            path_with_file_name(options.save_path@, options.output_name@),
            "avi"@,
        ),
        job.sidecar@ == "ffmpeg"@,
{
    let job = avi_conversion(&options, "300k");
    proof {
        lemma_avi_args_layout(options, small_tv_bitrate());
    }
    job
}

/// Conversion to `.avi` for the 96x64 DIY TV.
pub fn convert_diy_avi(options: Options) -> (job: AviConversion)
    ensures
        is_avi_conversion(job, options, small_tv_bitrate()),
        job.args.deep_view().len() == 21,
        job.args.deep_view()[1] == options.path@,
        job.args.deep_view()[3] == options.frame_rate@,
        job.args.deep_view()[5] == options.scale@,
        job.args.deep_view()[7] == "300k"@ && job.args.deep_view()[9] == "300k"@,
        job.args.deep_view()[20] == options.save_path@,
        job.stale_output@ == path_with_extension(
            path_with_file_name(options.save_path@, options.output_name@),
            "avi"@,
        ),
        job.sidecar@ == "ffmpeg"@,
{
    let job = avi_conversion(&options, "300k");
    proof {
        lemma_avi_args_layout(options, small_tv_bitrate());
    }
    job
}

/// The command line of an `.avi` conversion, argument by argument: the input
/// `path` after `-i`, the `frame_rate` after `-r`, the `scale` filter after
/// `-vf`, the bit rate after `-b:v` and `-maxrate`, a 64k buffer, MJPEG video,
/// unsigned 8-bit PCM mono audio at 10 kHz, and last the output `save_path`.
pub proof fn lemma_avi_args_layout(options: Options, rate: Seq<char>)
    ensures
        avi_args(options, rate).len() == 21,
        avi_args(options, rate)[0] == "-i"@,
        avi_args(options, rate)[1] == options.path@,
        avi_args(options, rate)[2] == "-r"@,
        avi_args(options, rate)[3] == options.frame_rate@,
        avi_args(options, rate)[4] == "-vf"@,
        avi_args(options, rate)[5] == options.scale@,
        avi_args(options, rate)[6] == "-b:v"@,
        avi_args(options, rate)[7] == rate,
        avi_args(options, rate)[8] == "-maxrate"@,
        avi_args(options, rate)[9] == rate,
        avi_args(options, rate)[10] == "-bufsize"@,
        avi_args(options, rate)[11] == "64k"@,
        avi_args(options, rate)[12] == "-c:v"@,
        avi_args(options, rate)[13] == "mjpeg"@,
        avi_args(options, rate)[14] == "-acodec"@,
        avi_args(options, rate)[15] == "pcm_u8"@,
        avi_args(options, rate)[16] == "-ar"@,
        avi_args(options, rate)[17] == "10000"@,
        avi_args(options, rate)[18] == "-ac"@,
        avi_args(options, rate)[19] == "1"@,
        avi_args(options, rate)[20] == options.save_path@,
{
}

/// The bit rates: 1500k for the TV, 300k for the TV Mini and the DIY TV.
pub proof fn lemma_bitrates()
    ensures
        tv_bitrate() == "1500k"@,
        small_tv_bitrate() == "300k"@,
{
}

/// The `.avi` conversions for the different TVs run the same ffmpeg command
/// line but for the video bit rate (the values of `-b:v` and `-maxrate`);
/// each reads `path` and writes to `save_path`.
pub proof fn lemma_avi_conversions_differ_only_in_bitrate(
    options: Options,
    rate1: Seq<char>,
    rate2: Seq<char>,
)
    ensures
        avi_args(options, rate1).len() == avi_args(options, rate2).len(),
        forall|i: int|
            0 <= i < avi_args(options, rate1).len() && i != 7 && i != 9 ==> #[trigger] avi_args(
                options,
                rate1,
            )[i] == avi_args(options, rate2)[i],
        avi_args(options, rate1)[7] == rate1 && avi_args(options, rate1)[9] == rate1,
        avi_args(options, rate1)[1] == options.path@,
        avi_args(options, rate1).last() == options.save_path@,
{
}

/// The TV Mini and the DIY TV get the very same conversion.
pub proof fn lemma_mini_and_diy_conversions_agree(
    options: Options,
    mini: AviConversion,
    diy: AviConversion,
)
    requires
        is_avi_conversion(mini, options, small_tv_bitrate()),
        is_avi_conversion(diy, options, small_tv_bitrate()),
    ensures
        mini.stale_output@ == diy.stale_output@,
        mini.sidecar@ == diy.sidecar@,
        mini.args.deep_view() == diy.args.deep_view(),
{
}

/// The ffmpeg arguments that grab the first frame of `path`, scaled to
/// 192x128, as raw RGB24 on standard output.
pub open spec fn screenshot_args_of(path: Seq<char>) -> Seq<Seq<char>> {
    seq![
        "-ss"@, "00:00:00"@,
        "-i"@, path,
        "-s"@, "192x128"@,
        "-pix_fmt"@, "rgb24"@,
        "-vcodec"@, "rawvideo"@,
        "-f"@, "rawvideo"@,
        "-"@,
    ]
}

/// The frame grab reads the given `path` itself (the argument after `-i`),
/// seeks to the start, scales to 192x128 and writes raw RGB24 to standard
/// output.
pub proof fn lemma_screenshot_args_layout(path: Seq<char>)
    ensures
        screenshot_args_of(path).len() == 13,
        screenshot_args_of(path)[0] == "-ss"@,
        screenshot_args_of(path)[1] == "00:00:00"@,
        screenshot_args_of(path)[2] == "-i"@,
        screenshot_args_of(path)[3] == path,
        screenshot_args_of(path)[4] == "-s"@,
        screenshot_args_of(path)[5] == "192x128"@,
        screenshot_args_of(path)[6] == "-pix_fmt"@,
        screenshot_args_of(path)[7] == "rgb24"@,
        screenshot_args_of(path)[8] == "-vcodec"@,
        screenshot_args_of(path)[9] == "rawvideo"@,
        screenshot_args_of(path)[10] == "-f"@,
        screenshot_args_of(path)[11] == "rawvideo"@,
        screenshot_args_of(path)[12] == "-"@,
{
}

/// The ffmpeg arguments of a preview frame grab of `path`.
pub fn screenshot_args(path: &str) -> (args: Vec<String>)
    ensures
        args.deep_view() == screenshot_args_of(path@),
        args.deep_view().len() == 13,
        args.deep_view()[2] == "-i"@,
        args.deep_view()[3] == path@,
        args.deep_view()[5] == "192x128"@,
{
    let mut args: Vec<String> = Vec::new();
    args.push(String::from_str("-ss"));
    args.push(String::from_str("00:00:00"));
    args.push(String::from_str("-i"));
    args.push(String::from_str(path));
    args.push(String::from_str("-s"));
    args.push(String::from_str("192x128"));
    args.push(String::from_str("-pix_fmt"));
    args.push(String::from_str("rgb24"));
    args.push(String::from_str("-vcodec"));
    args.push(String::from_str("rawvideo"));
    args.push(String::from_str("-f"));
    args.push(String::from_str("rawvideo"));
    args.push(String::from_str("-"));
    assert(args.deep_view() =~= screenshot_args_of(path@));
    args
}

} // verus!
