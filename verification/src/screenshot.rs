//! The preview shown in the app: one raw RGB24 frame of 192x128 pixels,
//! turned into an opaque RGBA image, encoded as PNG and then as base64.

use vstd::prelude::*;

verus! {

/// Width of the preview frame in pixels.
pub const SCREENSHOT_WIDTH: u32 = 192;

/// Height of the preview frame in pixels.
pub const SCREENSHOT_HEIGHT: u32 = 128;

/// Bytes of a full raw RGB24 preview frame.
pub const SCREENSHOT_RGB_BYTES: usize = 73728;

/// The payload of a preview event: a picture as a string.
#[derive(Clone, Debug)]
pub struct Payload {
    pub picture_data: String,
}

/// The preview returned to the front end: a base64-encoded PNG.
#[derive(Clone, Debug)]
pub struct ScreenshotResponse {
    pub data: String,
}

/// Why a preview could not be made.
#[derive(Clone, Copy, Debug, PartialEq, Eq)]
pub enum ScreenshotError {
    /// The PNG is too long for its base64 text to have a length that fits
    /// in `usize`.
    TooLargeForBase64,
}

#[verifier::external_type_specification]
#[verifier::external_body]
pub struct ExImageError(image::ImageError);

/// The RGBA8 samples of an image of `pixels` pixels given by the RGB8
/// samples `rgb`: each pixel keeps its red, green and blue and gets the
/// alpha 255.
pub open spec fn rgba_from_rgb(rgb: Seq<u8>, pixels: nat) -> Seq<u8> {
    Seq::new(4 * pixels, |i: int| if i % 4 == 3 { 255u8 } else { rgb[(i / 4) * 3 + i % 4] })
}

/// `px` with the alpha sample (the fourth byte) of each whole 4-byte pixel
/// set to 255; a trailing partial pixel is left as it is.
pub open spec fn with_full_alpha(px: Seq<u8>) -> Seq<u8> {
    Seq::new(px.len(), |i: int| if i % 4 == 3 && i / 4 < px.len() / 4 { 255u8 } else { px[i] })
}

/// Every whole 4-byte pixel of `px` has the alpha 255.
pub open spec fn all_opaque(px: Seq<u8>) -> bool {
    forall|i: int| 0 <= i < px.len() && i % 4 == 3 && i / 4 < px.len() / 4 ==> #[trigger] px[i] == 255u8
}

/// The PNG file that the `image` crate's `PngEncoder` (default compression
/// and filter) writes for the RGBA8 image `pixels` of the given size, or
/// `None` where it reports an error.
pub uninterp spec fn png_rgba8_encoding(pixels: Seq<u8>, width: u32, height: u32) -> Option<Seq<u8>>;

/// The PNG file signature, the first eight bytes of every PNG file.
pub open spec fn png_signature() -> Seq<u8> {
    seq![137u8, 80u8, 78u8, 71u8, 13u8, 10u8, 26u8, 10u8]
}

/// The base64 digit for the 6-bit value `v` (RFC 4648 standard alphabet:
/// `A`-`Z`, `a`-`z`, `0`-`9`, `+`, `/`).
pub open spec fn base64_digit(v: int) -> char {
    if v < 26 {
        (65 + v) as char
    } else if v < 52 {
        (97 + (v - 26)) as char
    } else if v < 62 {
        (48 + (v - 52)) as char
    } else if v == 62 {
        '+'
    } else {
        '/'
    }
}

/// The standard padded base64 encoding (RFC 4648) of `bytes`: each group of
/// three bytes gives four digits of six bits each, most significant first; a
/// final group of one or two bytes is filled with zero bits and padded with
/// `=` to four characters.
pub open spec fn base64_standard(bytes: Seq<u8>) -> Seq<char>
    decreases bytes.len(),
{
    if bytes.len() == 0 {
        seq![]
    } else if bytes.len() == 1 {
        let b0 = bytes[0] as int;
        seq![base64_digit(b0 / 4), base64_digit((b0 % 4) * 16), '=', '=']
    } else if bytes.len() == 2 {
        let b0 = bytes[0] as int;
        let b1 = bytes[1] as int;
        seq![
            base64_digit(b0 / 4),
            base64_digit((b0 % 4) * 16 + b1 / 16),
            base64_digit((b1 % 16) * 4),
            '=',
        ]
    } else {
        let b0 = bytes[0] as int;
        let b1 = bytes[1] as int;
        let b2 = bytes[2] as int;
        seq![
            base64_digit(b0 / 4),
            base64_digit((b0 % 4) * 16 + b1 / 16),
            base64_digit((b1 % 16) * 4 + b2 / 64),
            base64_digit(b2 % 64),
        ] + base64_standard(bytes.skip(3))
    }
}

/// The characters of standard padded base64: the 64 letters of its alphabet
/// and the padding `=`.
pub open spec fn is_base64_char(c: char) -> bool {
    ||| ('A' <= c && c <= 'Z')
    ||| ('a' <= c && c <= 'z')
    ||| ('0' <= c && c <= '9')
    ||| c == '+'
    ||| c == '/'
    ||| c == '='
}

/// Well-formed base64 text for `n` bytes: `4 * ceil(n / 3)` characters of
/// the base64 alphabet and padding.
pub open spec fn is_base64_text_for(text: Seq<char>, n: nat) -> bool {
    &&& text.len() == base64_len(n)
    &&& forall|i: int| 0 <= i < text.len() ==> is_base64_char(#[trigger] text[i])
}

/// The 64 characters of the standard base64 alphabet, in the order of their
/// 6-bit values.
pub open spec fn base64_alphabet() -> Seq<char> {
    "ABCDEFGHIJKLMNOPQRSTUVWXYZabcdefghijklmnopqrstuvwxyz0123456789+/"@
}

/// The digit for each 6-bit value is the character at that place of the
/// standard alphabet.
pub proof fn lemma_base64_digits(v: int)
    requires
        0 <= v < 64,
    ensures
        base64_digit(v) == base64_alphabet()[v],
{
    reveal_strlit("ABCDEFGHIJKLMNOPQRSTUVWXYZabcdefghijklmnopqrstuvwxyz0123456789+/");
}

/// Three bytes, read as the 24-bit number `n = 65536 * b0 + 256 * b1 + b2`,
/// become the four alphabet characters of the 6-bit fields of `n`, most
/// significant first, followed by the text of what comes after them.
pub proof fn lemma_base64_group(b0: u8, b1: u8, b2: u8, rest: Seq<u8>)
    ensures
        ({
            let n = 65536 * b0 + 256 * b1 + b2;
            base64_standard(seq![b0, b1, b2] + rest) == seq![
                base64_alphabet()[n / 262144],
                base64_alphabet()[(n / 4096) % 64],
                base64_alphabet()[(n / 64) % 64],
                base64_alphabet()[n % 64],
            ] + base64_standard(rest)
        }),
{
    let bytes = seq![b0, b1, b2] + rest;
    assert(bytes.skip(3) =~= rest);
    assert(bytes[0] == b0 && bytes[1] == b1 && bytes[2] == b2);
    let x0 = b0 as int;
    let x1 = b1 as int;
    let x2 = b2 as int;
    let n = 65536 * x0 + 256 * x1 + x2;
    assert(n / 262144 == x0 / 4 && (n / 4096) % 64 == (x0 % 4) * 16 + x1 / 16 && (n / 64) % 64 == (
    x1 % 16) * 4 + x2 / 64 && n % 64 == x2 % 64) by (nonlinear_arith)
        requires
            0 <= x0 < 256,
            0 <= x1 < 256,
            0 <= x2 < 256,
            n == 65536 * x0 + 256 * x1 + x2,
    ;
    lemma_base64_digits(x0 / 4);
    lemma_base64_digits((x0 % 4) * 16 + x1 / 16);
    lemma_base64_digits((x1 % 16) * 4 + x2 / 64);
    lemma_base64_digits(x2 % 64);
}

/// A last group of two bytes, read as the 16-bit number `256 * b0 + b1`
/// padded with two zero bits, becomes three alphabet characters and `=`; a
/// last single byte padded with four zero bits becomes two characters and
/// `==`.
pub proof fn lemma_base64_padding(b0: u8, b1: u8)
    ensures
        ({
            let n = (256 * b0 + b1) * 4;
            base64_standard(seq![b0, b1]) == seq![
                base64_alphabet()[n / 4096],
                base64_alphabet()[(n / 64) % 64],
                base64_alphabet()[n % 64],
                '=',
            ]
        }),
        ({
            let m = b0 * 16;
            base64_standard(seq![b0]) == seq![
                base64_alphabet()[m / 64],
                base64_alphabet()[m % 64],
                '=',
                '=',
            ]
        }),
{
    let x0 = b0 as int;
    let x1 = b1 as int;
    let n = (256 * x0 + x1) * 4;
    let m = x0 * 16;
    assert(n / 4096 == x0 / 4 && (n / 64) % 64 == (x0 % 4) * 16 + x1 / 16 && n % 64 == (x1 % 16)
        * 4 && m / 64 == x0 / 4 && m % 64 == (x0 % 4) * 16) by (nonlinear_arith)
        requires
            0 <= x0 < 256,
            0 <= x1 < 256,
            n == (256 * x0 + x1) * 4,
            m == x0 * 16,
    ;
    lemma_base64_digits(x0 / 4);
    lemma_base64_digits((x0 % 4) * 16 + x1 / 16);
    lemma_base64_digits((x1 % 16) * 4);
    lemma_base64_digits((x0 % 4) * 16);
}

/// Base64 text is built group by group: bytes whose count is a multiple of
/// three, followed by more bytes, give the text of the first part followed by
/// the text of the rest.
pub proof fn lemma_base64_concat(a: Seq<u8>, b: Seq<u8>)
    requires
        a.len() % 3 == 0,
    ensures
        base64_standard(a + b) == base64_standard(a) + base64_standard(b),
    decreases a.len(),
{
    if a.len() == 0 {
        assert(a + b =~= b);
        assert(base64_standard(a) =~= Seq::<char>::empty());
    } else {
        lemma_base64_concat(a.skip(3), b);
        assert((a + b).skip(3) =~= a.skip(3) + b);
        assert((a + b)[0] == a[0] && (a + b)[1] == a[1] && (a + b)[2] == a[2]);
    }
}

/// Length of the padded base64 text of `n` bytes.
pub open spec fn base64_len(n: nat) -> nat {
    4 * ((n + 2) / 3)
}

/// Every full or partial group of three bytes takes four characters.
pub proof fn lemma_base64_len_by_groups(k: nat)
    ensures
        base64_len(3 * k) == 4 * k,
        base64_len(3 * k + 1) == 4 * k + 4,
        base64_len(3 * k + 2) == 4 * k + 4,
{
}

/// Base64 text is `4 * ceil(n / 3)` characters of the base64 alphabet and
/// padding.
pub proof fn lemma_base64_text(bytes: Seq<u8>)
    ensures
        is_base64_text_for(base64_standard(bytes), bytes.len()),
    decreases bytes.len(),
{
    let t = base64_standard(bytes);
    if bytes.len() >= 3 {
        let rest = bytes.skip(3);
        lemma_base64_text(rest);
        let b0 = bytes[0] as int;
        let b1 = bytes[1] as int;
        let b2 = bytes[2] as int;
        let head = seq![
            base64_digit(b0 / 4),
            base64_digit((b0 % 4) * 16 + b1 / 16),
            base64_digit((b1 % 16) * 4 + b2 / 64),
            base64_digit(b2 % 64),
        ];
        assert(t == head + base64_standard(rest));
        assert forall|i: int| 0 <= i < t.len() implies is_base64_char(#[trigger] t[i]) by {
            if i >= 4 {
                assert(t[i] == base64_standard(rest)[i - 4]);
            }
        }
    }
}

/// RGB8 to RGBA8 with the `image` crate: `ImageBuffer::from_raw` builds the
/// RGB image from the first `3 * width * height` samples, and
/// `DynamicImage::into_rgba8` converts it; the raw samples are returned.
///
/// Trusted: per the source of `image` 0.24, `from_raw` gives `None` exactly
/// when the buffer is shorter than `3 * width * height` (or that product
/// overflows), and the RGB-to-RGBA conversion copies red, green and blue and
/// sets alpha to the maximum, 255. Allocating the RGBA buffer panics where
/// `4 * width * height` overflows `usize`, which `requires` leaves out.
#[verifier::external_body]
fn rgb8_to_rgba8(width: u32, height: u32, rgb: Vec<u8>) -> (res: Option<Vec<u8>>)
    requires
        4 * width * height <= usize::MAX,
    ensures
        res is Some <==> 3 * width * height <= rgb@.len(),
        res matches Some(v) ==> v@ == rgba_from_rgb(rgb@, (width * height) as nat),
{
    match image::ImageBuffer::<image::Rgb<u8>, Vec<u8>>::from_raw(width, height, rgb) {
        Some(buf) => Some(image::DynamicImage::ImageRgb8(buf).into_rgba8().into_raw()),
        None => None,
    }
}

/// PNG encoding of RGBA8 samples with `image::codecs::png::PngEncoder`.
///
/// Trusted: the encoder writes into a `Vec`, so the outcome depends on the
/// arguments alone; its bytes, or its failure, are the named
/// `png_rgba8_encoding(pixels, width, height)`. Per the source of `png`
/// 0.17.16, with exactly `4 * width * height` samples (which `requires` asks
/// for, keeping the encoder's unchecked row-length product in `usize`) the
/// only errors are a zero width or height, reported by `Writer::init` before
/// anything else; writes into a `Vec` do not fail, and IDAT data is split
/// into chunks short enough to be written. `init` writes the PNG signature
/// first.
#[verifier::external_body]
#[allow(deprecated)]
fn encode_png_rgba8(pixels: &[u8], width: u32, height: u32) -> (res: Result<Vec<u8>, image::ImageError>)
    requires
        pixels@.len() == 4 * width * height,
    ensures
        match res {
            Ok(png) => png_rgba8_encoding(pixels@, width, height) == Some(png@),
            Err(_) => png_rgba8_encoding(pixels@, width, height) is None,
        },
        res is Ok <==> (width > 0 && height > 0),
        res matches Ok(png) ==> png@.len() >= 8 && png@.take(8) == png_signature(),
{
    let mut png = Vec::new();
    let outcome = image::codecs::png::PngEncoder::new(&mut png).encode(
        pixels,
        width,
        height,
        image::ColorType::Rgba8,
    );
    match outcome {
        Ok(()) => Ok(png),
        Err(e) => Err(e),
    }
}

/// `base64::encode` (the standard engine, with padding).
///
/// Trusted: the `STANDARD` engine of `base64` 0.21.7 writes standard padded
/// base64 (`alphabet::STANDARD`, `PAD_BYTE` `=`), which `base64_standard`
/// states. `encode` panics where its length `base64::encoded_len` overflows
/// `usize`, which `requires` leaves out.
#[verifier::external_body]
#[allow(deprecated)]
fn base64_encode(bytes: &[u8]) -> (res: String)
    requires
        base64_len(bytes@.len()) <= usize::MAX,
    ensures
        res@ == base64_standard(bytes@),
{
    base64::encode(bytes)
}

/// Sets the alpha sample of every whole 4-byte pixel of `px` to 255.
pub fn set_full_alpha(px: &mut Vec<u8>)
    ensures
        final(px)@ == with_full_alpha(old(px)@),
{
    let ghost orig = px@;
    let n = px.len() / 4;
    let mut k: usize = 0;
    while k < n
        invariant
            n == orig.len() / 4,
            k <= n,
            px@.len() == orig.len(),
            forall|i: int|
                0 <= i < orig.len() ==> #[trigger] px@[i] == if i % 4 == 3 && i / 4 < k {
                    255u8
                } else {
                    orig[i]
                },
        decreases n - k,
    {
        assert(4 * k + 3 < orig.len()) by (nonlinear_arith)
            requires
                k < n,
                n == orig.len() / 4,
        ;
        assert(px.len() == orig.len());
        let idx = 4 * k + 3;
        px.set(idx, 255u8);
        k = k + 1;
        assert forall|i: int| 0 <= i < orig.len() implies #[trigger] px@[i] == if i % 4 == 3 && i
            / 4 < k {
            255u8
        } else {
            orig[i]
        } by {
            if i == idx {
                assert(i % 4 == 3 && i / 4 == k - 1);
            } else if i % 4 == 3 {
                assert(i / 4 < k <==> i / 4 < k - 1);
            }
        }
    }
    assert(px@ =~= with_full_alpha(orig));
}

/// An RGBA image converted from RGB has every pixel opaque already, so
/// forcing the alpha to 255 changes nothing.
pub proof fn lemma_full_alpha_of_rgba_from_rgb(rgb: Seq<u8>, pixels: nat)
    ensures
        with_full_alpha(rgba_from_rgb(rgb, pixels)) == rgba_from_rgb(rgb, pixels),
        all_opaque(rgba_from_rgb(rgb, pixels)),
{
    let px = rgba_from_rgb(rgb, pixels);
    assert(with_full_alpha(px) =~= px);
}

/// Forcing the alpha sets the fourth sample of each whole pixel to 255 and
/// leaves every other sample, and the length, as they were.
pub proof fn lemma_full_alpha_samples(px: Seq<u8>, p: int, k: int)
    requires
        0 <= p < px.len() / 4,
        0 <= k < 3,
    ensures
        with_full_alpha(px).len() == px.len(),
        with_full_alpha(px)[4 * p + k] == px[4 * p + k],
        with_full_alpha(px)[4 * p + 3] == 255u8,
{
    assert((4 * p + k) % 4 == k && (4 * p + 3) % 4 == 3 && (4 * p + 3) / 4 == p);
    assert(4 * p + 3 < px.len()) by (nonlinear_arith)
        requires
            0 <= p < px.len() / 4,
    ;
}

/// Forcing the alpha leaves every whole pixel opaque.
pub proof fn lemma_full_alpha_is_opaque(px: Seq<u8>)
    ensures
        all_opaque(with_full_alpha(px)),
{
}

/// The RGBA8 preview samples of a raw RGB24 preview frame.
pub open spec fn preview_pixels_of(rgb: Seq<u8>) -> Seq<u8> {
    with_full_alpha(rgba_from_rgb(rgb, (SCREENSHOT_WIDTH * SCREENSHOT_HEIGHT) as nat))
}

/// Pixel `p` of the RGBA8 samples `px`: red, green, blue and alpha.
pub open spec fn rgba_pixel(px: Seq<u8>, p: int) -> (u8, u8, u8, u8) {
    (px[4 * p], px[4 * p + 1], px[4 * p + 2], px[4 * p + 3])
}

/// Pixel `p` of the RGB8 samples `rgb`: red, green and blue.
pub open spec fn rgb_pixel(rgb: Seq<u8>, p: int) -> (u8, u8, u8) {
    (rgb[3 * p], rgb[3 * p + 1], rgb[3 * p + 2])
}

/// Each pixel of the preview keeps the red, green and blue of the same pixel
/// of the frame and is fully opaque; the preview holds 192x128 pixels of
/// four samples each.
pub proof fn lemma_preview_keeps_colours(rgb: Seq<u8>)
    requires
        rgb.len() >= 73728,
    ensures
        preview_pixels_of(rgb).len() == 4 * 192 * 128,
        forall|p: int|
            0 <= p < 192 * 128 ==> #[trigger] rgba_pixel(preview_pixels_of(rgb), p) == (
                rgb[3 * p],
                rgb[3 * p + 1],
                rgb[3 * p + 2],
                255u8,
            ),
{
    let n: nat = 192 * 128;
    let raw = rgba_from_rgb(rgb, n);
    let px = preview_pixels_of(rgb);
    assert(px.len() == 4 * n);
    assert forall|p: int| 0 <= p < 192 * 128 implies #[trigger] rgba_pixel(px, p) == (
        rgb[3 * p],
        rgb[3 * p + 1],
        rgb[3 * p + 2],
        255u8,
    ) by {
        assert((4 * p) / 4 == p && (4 * p) % 4 == 0);
        assert((4 * p + 1) / 4 == p && (4 * p + 1) % 4 == 1);
        assert((4 * p + 2) / 4 == p && (4 * p + 2) % 4 == 2);
        assert((4 * p + 3) / 4 == p && (4 * p + 3) % 4 == 3);
        assert(raw[4 * p] == rgb[3 * p]);
        assert(raw[4 * p + 1] == rgb[3 * p + 1]);
        assert(raw[4 * p + 2] == rgb[3 * p + 2]);
        assert(px[4 * p] == raw[4 * p]);
        assert(px[4 * p + 1] == raw[4 * p + 1]);
        assert(px[4 * p + 2] == raw[4 * p + 2]);
        assert(px[4 * p + 3] == 255u8);
    }
}

/// The opaque RGBA8 samples of the preview, from a raw RGB24 frame of at
/// least 192x128 pixels (bytes past the frame are ignored).
pub fn preview_pixels(rgb_data: Vec<u8>) -> (res: Vec<u8>)
    requires
        rgb_data@.len() >= SCREENSHOT_RGB_BYTES,
    ensures
        res@ == preview_pixels_of(rgb_data@),
        res@.len() == 4 * SCREENSHOT_WIDTH * SCREENSHOT_HEIGHT,
        all_opaque(res@),
        forall|p: int|
            0 <= p < 192 * 128 ==> #[trigger] rgba_pixel(res@, p) == (
                rgb_data@[3 * p],
                rgb_data@[3 * p + 1],
                rgb_data@[3 * p + 2],
                255u8,
            ),
{
    proof {
        lemma_preview_keeps_colours(rgb_data@);
    }
    let rgba = rgb8_to_rgba8(SCREENSHOT_WIDTH, SCREENSHOT_HEIGHT, rgb_data);
    let mut px = match rgba {
        Some(px) => px,
        None => {
            proof {
                assert(false);
            }
            Vec::new()
        },
    };
    set_full_alpha(&mut px);
    proof {
        lemma_full_alpha_is_opaque(px@);
    }
    px
}

/// The response for an encoded PNG: its base64 text, or
/// `TooLargeForBase64` where that text would be longer than `usize::MAX`.
pub fn screenshot_response(png: Vec<u8>) -> (res: Result<ScreenshotResponse, ScreenshotError>)
    ensures
        base64_len(png@.len()) <= usize::MAX ==> (res matches Ok(r) && r.data@ == base64_standard(
            png@,
        ) && is_base64_text_for(r.data@, png@.len())),
        base64_len(png@.len()) > usize::MAX ==> res == Err::<ScreenshotResponse, ScreenshotError>(
            ScreenshotError::TooLargeForBase64,
        ),
{
    let n = png.len();
    let limit: usize = usize::MAX / 4 * 3;
    proof {
        assert(n <= limit <==> base64_len(n as nat) <= usize::MAX) by (nonlinear_arith)
            requires
                limit == usize::MAX / 4 * 3,
                usize::MAX >= 0,
        ;
    }
    if n <= limit {
        let data = base64_encode(png.as_slice());
        proof {
            lemma_base64_text(png@);
        }
        Ok(ScreenshotResponse { data })
    } else {
        Err(ScreenshotError::TooLargeForBase64)
    }
}

/// The preview of a raw RGB24 frame of at least 192x128 pixels: the opaque
/// RGBA image, PNG-encoded (which always succeeds for this size), as base64
/// text.
pub fn screenshot(rgb_data: Vec<u8>) -> (res: Result<ScreenshotResponse, ScreenshotError>)
    requires
        rgb_data@.len() >= SCREENSHOT_RGB_BYTES,
    ensures
        match png_rgba8_encoding(preview_pixels_of(rgb_data@), SCREENSHOT_WIDTH, SCREENSHOT_HEIGHT) {
            None => false,
            Some(png) => {
                &&& png.len() >= 8 && png.take(8) == png_signature()
                &&& base64_len(png.len()) <= usize::MAX ==> (res matches Ok(r) && r.data@
                    == base64_standard(png) && is_base64_text_for(r.data@, png.len()))
                &&& base64_len(png.len()) > usize::MAX ==> res == Err::<
                    ScreenshotResponse,
                    ScreenshotError,
                >(ScreenshotError::TooLargeForBase64)
            },
        },
{
    let px = preview_pixels(rgb_data);
    match encode_png_rgba8(px.as_slice(), SCREENSHOT_WIDTH, SCREENSHOT_HEIGHT) {
        Ok(png) => screenshot_response(png),
        Err(_) => {
            proof {
                assert(false);
            }
            Err(ScreenshotError::TooLargeForBase64)
        },
    }
}

} // verus!
