use tvconvert::convert::{
    convert_avi, convert_diy_avi, convert_mini_avi, screenshot_args, AviConversion, Options,
};

fn options() -> Options<'static> {
    Options {
        path: "/in/video.mp4",
        save_path: "/out/video.avi",
        output_name: "holiday",
        scale: "scale=240:135",
        frame_rate: "24",
        video_frame_bytes: 64800,
        sample_bit_depth: 10,
        sample_rate: "10000",
        audio_frame_bytes: 834,
    }
}

fn expected_args(rate: &str) -> Vec<String> {
    [
        "-i", "/in/video.mp4", "-r", "24", "-vf", "scale=240:135", "-b:v", rate, "-maxrate", rate,
        "-bufsize", "64k", "-c:v", "mjpeg", "-acodec", "pcm_u8", "-ar", "10000", "-ac", "1",
        "/out/video.avi",
    ]
    .iter()
    .map(|s| s.to_string())
    .collect()
}

fn check(job: &AviConversion, rate: &str) {
    assert_eq!(job.args, expected_args(rate));
    assert_eq!(job.sidecar, "ffmpeg");
    assert_eq!(job.stale_output, "/out/holiday.avi");
}

#[test]
fn convert_avi_for_the_tv() {
    check(&convert_avi(options()), "1500k");
}

#[test]
fn convert_mini_avi_for_the_mini() {
    check(&convert_mini_avi(options()), "300k");
}

#[test]
fn convert_diy_avi_for_the_diy_tv() {
    check(&convert_diy_avi(options()), "300k");
    assert_eq!(convert_diy_avi(options()).args, convert_mini_avi(options()).args);
}

#[test]
fn stale_output_replaces_an_extension_of_the_name() {
    let mut o = options();
    o.output_name = "clip.final";
    assert_eq!(convert_avi(o).stale_output, "/out/clip.avi");
}

#[test]
fn screenshot_args_grab_one_raw_frame() {
    let expected: Vec<String> = [
        "-ss", "00:00:00", "-i", "/in/video.mp4", "-s", "192x128", "-pix_fmt", "rgb24", "-vcodec",
        "rawvideo", "-f", "rawvideo", "-",
    ]
    .iter()
    .map(|s| s.to_string())
    .collect();
    assert_eq!(screenshot_args("/in/video.mp4"), expected);
}
