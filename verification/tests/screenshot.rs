use base64::Engine;
use tvconvert::screenshot::{
    preview_pixels, screenshot, screenshot_response, set_full_alpha, ScreenshotError,
    SCREENSHOT_HEIGHT, SCREENSHOT_RGB_BYTES, SCREENSHOT_WIDTH,
};

fn frame() -> Vec<u8> {
    (0..SCREENSHOT_RGB_BYTES).map(|i| (i * 7 % 251) as u8).collect()
}

#[test]
fn set_full_alpha_touches_only_whole_pixels() {
    let mut px = vec![1u8, 2, 3, 4, 5, 6, 7, 8, 9];
    set_full_alpha(&mut px);
    assert_eq!(px, vec![1, 2, 3, 255, 5, 6, 7, 255, 9]);
    let mut empty: Vec<u8> = Vec::new();
    set_full_alpha(&mut empty);
    assert!(empty.is_empty());
}

#[test]
fn preview_pixels_copy_rgb_and_are_opaque() {
    let rgb = frame();
    let px = preview_pixels(rgb.clone());
    assert_eq!(px.len(), 4 * 192 * 128);
    for p in 0..192 * 128 {
        assert_eq!(px[4 * p], rgb[3 * p]);
        assert_eq!(px[4 * p + 1], rgb[3 * p + 1]);
        assert_eq!(px[4 * p + 2], rgb[3 * p + 2]);
        assert_eq!(px[4 * p + 3], 255);
    }
}

#[test]
fn preview_pixels_ignore_trailing_bytes() {
    let mut rgb = frame();
    let px1 = preview_pixels(rgb.clone());
    rgb.extend_from_slice(&[9, 9, 9, 9, 9]);
    assert_eq!(preview_pixels(rgb), px1);
}

#[test]
fn screenshot_response_is_base64() {
    assert_eq!(screenshot_response(vec![1, 2, 3]).unwrap().data, "AQID");
    assert_eq!(screenshot_response(b"hello".to_vec()).unwrap().data, "aGVsbG8=");
    assert_eq!(screenshot_response(Vec::new()).unwrap().data, "");
}

#[test]
fn screenshot_is_a_base64_png_of_the_frame() {
    let rgb = frame();
    let resp = screenshot(rgb.clone()).unwrap();
    assert_eq!(resp.data.len() % 4, 0);
    assert!(resp
        .data
        .chars()
        .all(|c| c.is_ascii_alphanumeric() || c == '+' || c == '/' || c == '='));
    let png = base64::engine::general_purpose::STANDARD.decode(resp.data.as_bytes()).unwrap();
    assert_eq!(&png[..8], &[137, 80, 78, 71, 13, 10, 26, 10]);
    let img = image::load_from_memory(&png).unwrap().into_rgba8();
    assert_eq!(img.width(), SCREENSHOT_WIDTH);
    assert_eq!(img.height(), SCREENSHOT_HEIGHT);
    assert_eq!(img.into_raw(), preview_pixels(rgb));
}

#[test]
fn screenshot_succeeds_on_any_full_frame() {
    let black = vec![0u8; SCREENSHOT_RGB_BYTES];
    let resp: Result<_, ScreenshotError> = screenshot(black);
    assert!(resp.is_ok());
    let white = vec![255u8; SCREENSHOT_RGB_BYTES + 3];
    assert!(screenshot(white).is_ok());
}

#[test]
fn screenshot_response_base64_padding() {
    assert_eq!(screenshot_response(vec![0xff]).unwrap().data, "/w==");
    assert_eq!(screenshot_response(vec![0xfb, 0xff]).unwrap().data, "+/8=");
    assert_eq!(screenshot_response(b"foobar".to_vec()).unwrap().data, "Zm9vYmFy");
}
