use tvconvert::paths::sidecar_path;

#[test]
fn sidecar_next_to_the_executable() {
    assert_eq!(sidecar_path("/opt/tinytv/converter", "ffmpeg", false), "/opt/tinytv/ffmpeg");
}

#[test]
fn sidecar_gets_exe_extension_on_windows() {
    assert_eq!(sidecar_path("/opt/tinytv/converter", "ffmpeg", true), "/opt/tinytv/ffmpeg.exe");
}
