//! The preparation pipeline: pick the image format, decode, rotate, fit the
//! picture into the 320x320 LCD with black bars, and encode a JPEG small
//! enough for one upload, lowering the quality until it fits.
//!
//! Decoding, rotating, resampling, compositing and JPEG encoding are done by
//! the `image` crate; the choices around them are made here.

use vstd::prelude::*;

use crate::frame::{PreparedImage, RenderedFrame, black_pixels};
use crate::jpeg::{JpegError, validate_jpeg_for_lcd, validate_jpeg_spec};
use crate::packetize::{PacketizeError, chunk_count, packet_spec, packetizable, packetize_jpeg};
use crate::protocol::{EXPECTED_JPEG_HEIGHT, EXPECTED_JPEG_WIDTH, HID_PACKET_LEN, MAX_SYNTHETIC_CHUNKS};
use crate::rotation::{PrepareOptions, Rotation, swaps_axes};
use vstd::string::*;

verus! {

/// The image formats the pipeline tells apart.
#[derive(Debug, Clone, Copy, PartialEq, Eq, Structural)]
pub enum SourceFormat {
    Bmp,
    Ico,
    Jpeg,
    Png,
    WebP,
    /// Any other format the `image` crate knows.
    Other,
}

/// Why a source image could not be prepared.
#[derive(Debug, Clone, Copy, PartialEq, Eq, Structural)]
pub enum PrepareError {
    /// Neither the file extension nor the leading bytes name a format.
    UnknownFormat,
    /// The format is not one of bmp, ico, jpg/jpeg, png, webp.
    UnsupportedFormat,
    /// The decoder rejected the bytes.
    Decode,
    /// The JPEG encoder failed.
    Encode,
    /// Even the lowest quality does not fit in one upload; `last_len` is the
    /// size of the last attempt and `last_error` why it did not fit.
    TooLarge { last_len: usize, last_error: PacketizeError },
    /// The encoded JPEG was not accepted as a 320x320 JPEG.
    Jpeg(JpegError),
    /// A rendered frame's buffer does not hold `width * height` RGBA pixels.
    MalformedFrame,
}

/// The resampling filters of the `image` crate.
#[derive(Debug, Clone, Copy, PartialEq, Eq, Structural)]
pub enum ResizeFilter {
    Nearest,
    Triangle,
    CatmullRom,
    Gaussian,
    Lanczos3,
}

/// The filter pictures are resampled with for the LCD.
pub open spec fn lcd_filter() -> ResizeFilter {
    ResizeFilter::Lanczos3
}

/// The formats the service accepts.
pub open spec fn is_supported_format(f: SourceFormat) -> bool {
    f != SourceFormat::Other
}

/// The format `ImageFormat::from_path` finds from the extension of `path`.
pub uninterp spec fn format_by_extension(path: Seq<char>) -> Option<SourceFormat>;

/// The format `image::guess_format` finds from the leading bytes.
pub uninterp spec fn format_by_signature(bytes: Seq<u8>) -> Option<SourceFormat>;

/// The width, height and RGBA bytes the `image` decoder produces for `bytes`
/// read as `format`, or `None` when it rejects them.
pub uninterp spec fn decoded_rgba(bytes: Seq<u8>, format: SourceFormat) -> Option<(u32, u32, Seq<u8>)>;

/// The frame `DynamicImage::resize` makes with `filter` when it fits a `w` by
/// `h` picture into `nw` by `nh`, keeping the aspect ratio.
pub uninterp spec fn resized_to_fit(w: u32, h: u32, rgba: Seq<u8>, nw: u32, nh: u32, filter: ResizeFilter) -> (u32, u32, Seq<u8>);

/// `side` differs from the quotient `num / den` by less than one and is at
/// least one.
pub open spec fn within_one(side: int, num: int, den: int) -> bool {
    side >= 1 && side * den < num + den && side * den > num - den
}

/// `(rw, rh)` is the size a `w` by `h` picture takes when it is fitted into
/// `nw` by `nh` with its aspect ratio kept: the side that limits the scale
/// takes its bound, and the other side is scaled by the same factor and
/// rounded (to within one, as the scaling is done in floating point).
pub open spec fn fits_within(w: u32, h: u32, nw: u32, nh: u32, rw: u32, rh: u32) -> bool {
    if (nw as int) * (h as int) <= (nh as int) * (w as int) {
        rw == nw && within_one(rh as int, (h as int) * (nw as int), w as int)
    } else {
        rh == nh && within_one(rw as int, (w as int) * (nh as int), h as int)
    }
}

/// The bytes of the `image` crate's baseline JPEG encoding of an RGB picture
/// at `quality`, or `None` when the encoder fails.
pub uninterp spec fn jpeg_encoding(w: u32, h: u32, rgba: Seq<u8>, quality: u8) -> Option<Seq<u8>>;

/// Channel `c` of pixel `(x, y)` in an RGBA raster of width `w`.
pub open spec fn rgba_at(w: int, rgba: Seq<u8>, x: int, y: int, c: int) -> u8 {
    rgba[(y * w + x) * 4 + c]
}

/// The pixels of a `w` by `h` raster turned clockwise by `rotation`.
pub open spec fn rotated_pixels(rotation: Rotation, w: u32, h: u32, src: Seq<u8>) -> Seq<u8> {
    let ow: int = if swaps_axes(rotation) {
        h as int
    } else {
        w as int
    };
    Seq::new(
        (w as nat) * (h as nat) * 4,
        |i: int|
            {
                let p = i / 4;
                let c = i % 4;
                let x = p % ow;
                let y = p / ow;
                match rotation {
                    Rotation::Deg0 => src[i],
                    Rotation::Deg90 => rgba_at(w as int, src, y, h - 1 - x, c),
                    Rotation::Deg180 => rgba_at(w as int, src, w - 1 - x, h - 1 - y, c),
                    Rotation::Deg270 => rgba_at(w as int, src, w - 1 - y, x, c),
                }
            },
    )
}

/// The `cw` by `ch` raster `canvas` with the colour channels of the `fw` by
/// `fh` raster `src` placed at `(ox, oy)`, every pixel made opaque.
pub open spec fn placed_rgb(cw: u32, ch: u32, canvas: Seq<u8>, ox: int, oy: int, fw: u32, fh: u32, src: Seq<u8>) -> Seq<u8> {
    Seq::new(
        (cw as nat) * (ch as nat) * 4,
        |i: int|
            {
                let p = i / 4;
                let c = i % 4;
                let x = p % (cw as int);
                let y = p / (cw as int);
                if c == 3 {
                    255u8
                } else if ox <= x < ox + fw && oy <= y < oy + fh {
                    rgba_at(fw as int, src, x - ox, y - oy, c)
                } else {
                    canvas[i]
                }
            },
    )
}

/// A `cw` by `ch` opaque black canvas with the colour channels of the `fw` by
/// `fh` raster `src` placed at `(ox, oy)`.
pub open spec fn centered_pixels(cw: u32, ch: u32, ox: int, oy: int, fw: u32, fh: u32, src: Seq<u8>) -> Seq<u8> {
    placed_rgb(cw, ch, black_pixels(cw, ch), ox, oy, fw, fh, src)
}

/// The format chosen for a source: from its extension, else from its bytes.
pub open spec fn detected_format(path: Seq<char>, bytes: Seq<u8>) -> Option<SourceFormat> {
    match format_by_extension(path) {
        Some(f) => Some(f),
        None => format_by_signature(bytes),
    }
}

/// The size of a `w` by `h` raster turned by `rotation`.
pub open spec fn rotated_size(rotation: Rotation, w: u32, h: u32) -> (u32, u32) {
    if swaps_axes(rotation) {
        (h, w)
    } else {
        (w, h)
    }
}

/// A raster turned by `rotation` and resampled to fit into 320x320 with its
/// aspect ratio kept: the band shown on the LCD, with its size.
pub open spec fn lcd_band(rotation: Rotation, w: u32, h: u32, rgba: Seq<u8>) -> (u32, u32, Seq<u8>) {
    let (rw, rh) = rotated_size(rotation, w, h);
    resized_to_fit(rw, rh, rotated_pixels(rotation, w, h, rgba), 320, 320, lcd_filter())
}

/// A raster normalized for the LCD: rotated, fitted into 320x320 keeping its
/// aspect ratio, and centred on a black canvas. A raster with no pixel leaves
/// the canvas black.
pub open spec fn normalized_pixels(rotation: Rotation, w: u32, h: u32, rgba: Seq<u8>) -> Seq<u8> {
    if w == 0 || h == 0 {
        black_pixels(320, 320)
    } else {
        let band = lcd_band(rotation, w, h, rgba);
        centered_pixels(320, 320, (320 - band.0) / 2, (320 - band.1) / 2, band.0, band.1, band.2)
    }
}

/// The JPEG qualities tried, best first.
pub open spec fn jpeg_qualities() -> Seq<u8> {
    seq![95u8, 90, 85, 80, 75, 70, 65, 60, 55, 50, 45, 40, 35, 30, 25, 20]
}

/// The outcome of encoding a raster from quality `jpeg_qualities()[i]` down:
/// the first encoding that fits in one upload, checked as a 320x320 JPEG.
/// `last` is the size and error of the previous attempt.
pub open spec fn encode_from(
    w: u32,
    h: u32,
    rgba: Seq<u8>,
    i: int,
    last: Option<(nat, PacketizeError)>,
) -> Result<(Seq<u8>, u16, u16), PrepareError>
    decreases 16 - i,
{
    if i < 0 || i >= 16 {
        match last {
            Some((len, e)) => Err(PrepareError::TooLarge { last_len: len as usize, last_error: e }),
            None => Err(PrepareError::Encode),
        }
    } else {
        match jpeg_encoding(w, h, rgba, jpeg_qualities()[i]) {
            None => Err(PrepareError::Encode),
            Some(jpeg) => if packetizable(jpeg) {
                match validate_jpeg_spec(jpeg) {
                    Ok((jw, jh)) => Ok((jpeg, jw, jh)),
                    Err(e) => Err(PrepareError::Jpeg(e)),
                }
            } else {
                encode_from(
                    w,
                    h,
                    rgba,
                    i + 1,
                    Some(
                        (
                            jpeg.len(),
                            if jpeg.len() == 0 {
                                PacketizeError::EmptyPayload
                            } else {
                                PacketizeError::TooManyChunks {
                                    chunks: chunk_count(jpeg.len()) as usize,
                                }
                            },
                        ),
                    ),
                )
            },
        }
    }
}

/// `r` is the decoded frame `d` names, or nothing when `d` is nothing.
pub open spec fn is_decoded_frame(r: Option<RenderedFrame>, d: Option<(u32, u32, Seq<u8>)>) -> bool {
    match (r, d) {
        (Some(f), Some((w, h, px))) => f.spec_width() == w && f.spec_height() == h && f.spec_rgba()
            == px && f.well_formed(),
        (None, None) => true,
        _ => false,
    }
}

/// `r` holds the bytes `e` names, or nothing when `e` is nothing.
pub open spec fn is_encoding(r: Option<Vec<u8>>, e: Option<Seq<u8>>) -> bool {
    match (r, e) {
        (Some(v), Some(jpeg)) => v@ == jpeg,
        (None, None) => true,
        _ => false,
    }
}

/// The file name of `path` decides its format when it has a known extension.
#[verifier::external_body]
fn format_from_path(path: &str) -> (f: Option<SourceFormat>)
    ensures
        f == format_by_extension(path@),
{
    match image::ImageFormat::from_path(path).ok()? {
        image::ImageFormat::Bmp => Some(SourceFormat::Bmp),
        image::ImageFormat::Ico => Some(SourceFormat::Ico),
        image::ImageFormat::Jpeg => Some(SourceFormat::Jpeg),
        image::ImageFormat::Png => Some(SourceFormat::Png),
        image::ImageFormat::WebP => Some(SourceFormat::WebP),
        _ => Some(SourceFormat::Other),
    }
}

/// The leading bytes decide the format otherwise.
#[verifier::external_body]
fn format_from_signature(bytes: &[u8]) -> (f: Option<SourceFormat>)
    ensures
        f == format_by_signature(bytes@),
{
    match image::guess_format(bytes).ok()? {
        image::ImageFormat::Bmp => Some(SourceFormat::Bmp),
        image::ImageFormat::Ico => Some(SourceFormat::Ico),
        image::ImageFormat::Jpeg => Some(SourceFormat::Jpeg),
        image::ImageFormat::Png => Some(SourceFormat::Png),
        image::ImageFormat::WebP => Some(SourceFormat::WebP),
        _ => Some(SourceFormat::Other),
    }
}

/// Decodes `bytes` as `format` with `image::load_from_memory_with_format`
/// and converts the picture to RGBA8; the buffer of an `ImageBuffer` always
/// holds `width * height` pixels.
#[verifier::external_body]
fn decode_rgba(bytes: &[u8], format: SourceFormat) -> (r: Option<RenderedFrame>)
    requires
        is_supported_format(format),
    ensures
        is_decoded_frame(r, decoded_rgba(bytes@, format)),
{
    let format = match format {
        SourceFormat::Bmp => image::ImageFormat::Bmp,
        SourceFormat::Ico => image::ImageFormat::Ico,
        SourceFormat::Jpeg => image::ImageFormat::Jpeg,
        SourceFormat::Png => image::ImageFormat::Png,
        SourceFormat::WebP => image::ImageFormat::WebP,
        SourceFormat::Other => return None,
    };
    let rgba = image::load_from_memory_with_format(bytes, format).ok()?.to_rgba8();
    Some(RenderedFrame::new(rgba.width(), rgba.height(), rgba.into_raw()))
}

/// `image::imageops::rotate90`: pixel `(x, y)` moves to `(h - 1 - y, x)`.
#[verifier::external_body]
fn rotate90(frame: &RenderedFrame) -> (r: RenderedFrame)
    requires
        frame.well_formed(),
    ensures
        r.spec_width() == frame.spec_height(),
        r.spec_height() == frame.spec_width(),
        r.spec_rgba() == rotated_pixels(
            Rotation::Deg90,
            frame.spec_width(),
            frame.spec_height(),
            frame.spec_rgba(),
        ),
{
    let image = image::RgbaImage::from_raw(frame.width(), frame.height(), frame.rgba().to_vec()).unwrap();
    let out = image::imageops::rotate90(&image);
    RenderedFrame::new(out.width(), out.height(), out.into_raw())
}

/// `image::imageops::rotate180`: pixel `(x, y)` moves to `(w - 1 - x, h - 1 - y)`.
#[verifier::external_body]
fn rotate180(frame: &RenderedFrame) -> (r: RenderedFrame)
    requires
        frame.well_formed(),
    ensures
        r.spec_width() == frame.spec_width(),
        r.spec_height() == frame.spec_height(),
        r.spec_rgba() == rotated_pixels(
            Rotation::Deg180,
            frame.spec_width(),
            frame.spec_height(),
            frame.spec_rgba(),
        ),
{
    let image = image::RgbaImage::from_raw(frame.width(), frame.height(), frame.rgba().to_vec()).unwrap();
    let out = image::imageops::rotate180(&image);
    RenderedFrame::new(out.width(), out.height(), out.into_raw())
}

/// `image::imageops::rotate270`: pixel `(x, y)` moves to `(y, w - 1 - x)`.
#[verifier::external_body]
fn rotate270(frame: &RenderedFrame) -> (r: RenderedFrame)
    requires
        frame.well_formed(),
    ensures
        r.spec_width() == frame.spec_height(),
        r.spec_height() == frame.spec_width(),
        r.spec_rgba() == rotated_pixels(
            Rotation::Deg270,
            frame.spec_width(),
            frame.spec_height(),
            frame.spec_rgba(),
        ),
{
    let image = image::RgbaImage::from_raw(frame.width(), frame.height(), frame.rgba().to_vec()).unwrap();
    let out = image::imageops::rotate270(&image);
    RenderedFrame::new(out.width(), out.height(), out.into_raw())
}

/// `DynamicImage::resize` with `filter`: the largest size that fits in `nw`
/// by `nh` with the same aspect ratio. The crate works the size out in
/// `resize_dimensions` (`fill = false`): with `f64` ratios, rounded, and at
/// least one pixel; the rounding error stays far below one pixel, which
/// `fits_within` allows for.
#[verifier::external_body]
fn resize_to_fit(frame: &RenderedFrame, nw: u32, nh: u32, filter: ResizeFilter) -> (r: RenderedFrame)
    requires
        frame.well_formed(),
        frame.spec_width() >= 1,
        frame.spec_height() >= 1,
        nw >= 1,
        nh >= 1,
    ensures
        (r.spec_width(), r.spec_height(), r.spec_rgba()) == resized_to_fit(
            frame.spec_width(),
            frame.spec_height(),
            frame.spec_rgba(),
            nw,
            nh,
            filter,
        ),
        fits_within(frame.spec_width(), frame.spec_height(), nw, nh, r.spec_width(), r.spec_height()),
        r.spec_width() <= nw,
        r.spec_height() <= nh,
        r.well_formed(),
{
    let image = image::RgbaImage::from_raw(frame.width(), frame.height(), frame.rgba().to_vec()).unwrap();
    let filter = match filter {
        ResizeFilter::Nearest => image::imageops::FilterType::Nearest,
        ResizeFilter::Triangle => image::imageops::FilterType::Triangle,
        ResizeFilter::CatmullRom => image::imageops::FilterType::CatmullRom,
        ResizeFilter::Gaussian => image::imageops::FilterType::Gaussian,
        ResizeFilter::Lanczos3 => image::imageops::FilterType::Lanczos3,
    };
    let out = image::DynamicImage::ImageRgba8(image).resize(nw, nh, filter).to_rgba8();
    RenderedFrame::new(out.width(), out.height(), out.into_raw())
}

/// `image::imageops::overlay` of the RGB channels of `frame` at `(ox, oy)`
/// onto the RGB channels of `canvas` (an RGB pixel is copied over the one
/// below it), read back as opaque RGBA.
#[verifier::external_body]
fn overlay_rgb(canvas: &RenderedFrame, frame: &RenderedFrame, ox: u32, oy: u32) -> (r: RenderedFrame)
    requires
        canvas.well_formed(),
        frame.well_formed(),
        ox + frame.spec_width() <= canvas.spec_width(),
        oy + frame.spec_height() <= canvas.spec_height(),
    ensures
        r.spec_width() == canvas.spec_width(),
        r.spec_height() == canvas.spec_height(),
        r.spec_rgba() == placed_rgb(
            canvas.spec_width(),
            canvas.spec_height(),
            canvas.spec_rgba(),
            ox as int,
            oy as int,
            frame.spec_width(),
            frame.spec_height(),
            frame.spec_rgba(),
        ),
        r.well_formed(),
{
    let top = image::RgbaImage::from_raw(frame.width(), frame.height(), frame.rgba().to_vec()).unwrap();
    let base = image::RgbaImage::from_raw(canvas.width(), canvas.height(), canvas.rgba().to_vec()).unwrap();
    let mut base = image::DynamicImage::ImageRgba8(base).to_rgb8();
    image::imageops::overlay(&mut base, &image::DynamicImage::ImageRgba8(top).to_rgb8(), i64::from(ox), i64::from(oy));
    let out = image::DynamicImage::ImageRgb8(base).to_rgba8();
    RenderedFrame::new(out.width(), out.height(), out.into_raw())
}

/// `JpegEncoder::new_with_quality(.., quality).encode_image` on the RGB
/// channels of `frame`.
#[verifier::external_body]
fn encode_jpeg(frame: &RenderedFrame, quality: u8) -> (r: Option<Vec<u8>>)
    requires
        frame.well_formed(),
    ensures
        is_encoding(r, jpeg_encoding(frame.spec_width(), frame.spec_height(), frame.spec_rgba(), quality)),
{
    let image = image::RgbaImage::from_raw(frame.width(), frame.height(), frame.rgba().to_vec()).unwrap();
    let rgb = image::DynamicImage::ImageRgba8(image).to_rgb8();
    let mut output = Vec::new();
    let mut encoder = image::codecs::jpeg::JpegEncoder::new_with_quality(&mut output, quality);
    encoder.encode_image(&rgb).ok()?;
    Some(output)
}

/// Accepts bmp, ico, jpg/jpeg, png and webp.
pub fn ensure_supported_format(format: SourceFormat) -> (r: Result<(), PrepareError>)
    ensures
        r is Ok <==> is_supported_format(format),
        r is Err ==> r == Err::<(), PrepareError>(PrepareError::UnsupportedFormat),
{
    match format {
        SourceFormat::Other => Err(PrepareError::UnsupportedFormat),
        _ => Ok(()),
    }
}

/// The format of a source: from its extension, else from its leading bytes.
pub fn detect_format(path: &str, bytes: &[u8]) -> (r: Result<SourceFormat, PrepareError>)
    ensures
        detected_format(path@, bytes@) matches Some(f) ==> r == Ok::<SourceFormat, PrepareError>(f),
        detected_format(path@, bytes@) is None ==> r == Err::<SourceFormat, PrepareError>(
            PrepareError::UnknownFormat,
        ),
{
    match format_from_path(path) {
        Some(f) => Ok(f),
        None => match format_from_signature(bytes) {
            Some(f) => Ok(f),
            None => Err(PrepareError::UnknownFormat),
        },
    }
}

impl Rotation {
    /// Turns `frame` clockwise by this rotation.
    pub fn apply(self, frame: RenderedFrame) -> (r: RenderedFrame)
        requires
            frame.well_formed(),
        ensures
            swaps_axes(self) ==> r.spec_width() == frame.spec_height() && r.spec_height()
                == frame.spec_width(),
            !swaps_axes(self) ==> r.spec_width() == frame.spec_width() && r.spec_height()
                == frame.spec_height(),
            r.spec_rgba() =~= rotated_pixels(
                self,
                frame.spec_width(),
                frame.spec_height(),
                frame.spec_rgba(),
            ),
            r.well_formed(),
    {
        match self {
            Rotation::Deg0 => {
                assert(frame.spec_rgba() =~= rotated_pixels(
                    self,
                    frame.spec_width(),
                    frame.spec_height(),
                    frame.spec_rgba(),
                ));
                frame
            },
            Rotation::Deg90 => rotate90(&frame),
            Rotation::Deg180 => rotate180(&frame),
            Rotation::Deg270 => rotate270(&frame),
        }
    }
}

/// Rotates `frame`, fits it into 320x320 keeping its aspect ratio, and centres
/// it on a black canvas; a frame with no pixel gives the black canvas alone.
pub fn normalize_frame(frame: RenderedFrame, rotation: Rotation) -> (r: RenderedFrame)
    requires
        frame.well_formed(),
    ensures
        r.spec_width() == 320,
        r.spec_height() == 320,
        r.well_formed(),
        r.spec_rgba() == normalized_pixels(
            rotation,
            frame.spec_width(),
            frame.spec_height(),
            frame.spec_rgba(),
        ),
        frame.spec_width() > 0 && frame.spec_height() > 0 ==> {
            let (rw, rh) = rotated_size(rotation, frame.spec_width(), frame.spec_height());
            let band = lcd_band(rotation, frame.spec_width(), frame.spec_height(), frame.spec_rgba());
            fits_within(rw, rh, 320, 320, band.0, band.1)
        },
{
    let target_w: u32 = EXPECTED_JPEG_WIDTH as u32;
    let target_h: u32 = EXPECTED_JPEG_HEIGHT as u32;
    let canvas = RenderedFrame::black(target_w, target_h);
    if frame.width() == 0 || frame.height() == 0 {
        return canvas;
    }
    let ghost (w, h, px) = (frame.spec_width(), frame.spec_height(), frame.spec_rgba());
    let rotated = rotation.apply(frame);
    let resized = resize_to_fit(&rotated, target_w, target_h, ResizeFilter::Lanczos3);
    let offset_x = (target_w - resized.width()) / 2;
    let offset_y = (target_h - resized.height()) / 2;
    let out = overlay_rgb(&canvas, &resized, offset_x, offset_y);
    assert(rotated.spec_rgba() == rotated_pixels(rotation, w, h, px));
    out
}

/// The normalized RGBA pixels of a source image, or why there are none.
pub open spec fn load_normalized_spec(path: Seq<char>, bytes: Seq<u8>, rotation: Rotation) -> Result<Seq<u8>, PrepareError> {
    match detected_format(path, bytes) {
        None => Err(PrepareError::UnknownFormat),
        Some(f) => if !is_supported_format(f) {
            Err(PrepareError::UnsupportedFormat)
        } else {
            match decoded_rgba(bytes, f) {
                None => Err(PrepareError::Decode),
                Some((w, h, px)) => Ok(normalized_pixels(rotation, w, h, px)),
            }
        },
    }
}

/// `r` is the 320x320 frame with the pixels `s` names, or the same error.
pub open spec fn is_lcd_frame_result(r: Result<RenderedFrame, PrepareError>, s: Result<Seq<u8>, PrepareError>) -> bool {
    match (r, s) {
        (Ok(f), Ok(px)) => f.spec_width() == 320 && f.spec_height() == 320 && f.well_formed()
            && f.spec_rgba() == px,
        (Err(a), Err(b)) => a == b,
        _ => false,
    }
}

/// Decodes and normalizes a source image, with the given rotation.
pub fn load_normalized_image_with_rotation(path: &str, bytes: &[u8], rotation: Rotation) -> (r: Result<RenderedFrame, PrepareError>)
    ensures
        is_lcd_frame_result(r, load_normalized_spec(path@, bytes@, rotation)),
{
    let format = detect_format(path, bytes)?;
    ensure_supported_format(format)?;
    let decoded = match decode_rgba(bytes, format) {
        Some(frame) => frame,
        None => return Err(PrepareError::Decode),
    };
    Ok(normalize_frame(decoded, rotation))
}

/// Decodes and normalizes a source image without rotating it.
pub fn load_normalized_image_without_rotation(path: &str, bytes: &[u8]) -> (r: Result<RenderedFrame, PrepareError>)
    ensures
        is_lcd_frame_result(r, load_normalized_spec(path@, bytes@, Rotation::Deg0)),
{
    load_normalized_image_with_rotation(path, bytes, Rotation::Deg0)
}

/// Decodes and normalizes a source image with the rotation of `options`.
pub fn load_normalized_image(path: &str, bytes: &[u8], options: PrepareOptions) -> (r: Result<RenderedFrame, PrepareError>)
    ensures
        is_lcd_frame_result(r, load_normalized_spec(path@, bytes@, options.spec_rotation())),
{
    load_normalized_image_with_rotation(path, bytes, options.rotation())
}

/// The background frame of a source image: decoded and normalized, not rotated.
pub fn decode_source_frame(path: &str, bytes: &[u8]) -> (r: Result<RenderedFrame, PrepareError>)
    ensures
        is_lcd_frame_result(r, load_normalized_spec(path@, bytes@, Rotation::Deg0)),
{
    load_normalized_image_without_rotation(path, bytes)
}

/// Checks that a source image can be decoded and normalized.
pub fn validate_source_image(path: &str, bytes: &[u8]) -> (r: Result<(), PrepareError>)
    ensures
        r is Ok <==> load_normalized_spec(path@, bytes@, Rotation::Deg0) is Ok,
        load_normalized_spec(path@, bytes@, Rotation::Deg0) matches Err(e) ==> r == Err::<
            (),
            PrepareError,
        >(e),
{
    load_normalized_image_without_rotation(path, bytes)?;
    Ok(())
}

/// `r` is the prepared image for `source_path` that the encoding outcome `s`
/// names, or the same error.
pub open spec fn is_prepared_result(
    r: Result<PreparedImage, PrepareError>,
    source_path: Seq<char>,
    s: Result<(Seq<u8>, u16, u16), PrepareError>,
) -> bool {
    match (r, s) {
        (Ok(img), Ok((jpeg, w, h))) => {
            &&& img.spec_source_path() == source_path
            &&& img.spec_jpeg_bytes() == jpeg
            &&& img.spec_width() == w
            &&& img.spec_height() == h
            &&& img.spec_packets().len() == chunk_count(jpeg.len())
            &&& forall|i: int|
                0 <= i < img.spec_packets().len() ==> (#[trigger] img.spec_packets()[i])@
                    == packet_spec(jpeg, i as nat)
        },
        (Err(a), Err(b)) => a == b,
        _ => false,
    }
}

/// Encodes a frame as a JPEG for the LCD: the qualities 95, 90, ..., 20 are
/// tried in turn and the first encoding that fits in one upload is kept,
/// after checking that it is a 320x320 JPEG.
pub fn prepare_frame(source_path: String, frame: &RenderedFrame) -> (r: Result<PreparedImage, PrepareError>)
    requires
        frame.well_formed(),
    ensures
        is_prepared_result(
            r,
            source_path@,
            encode_from(frame.spec_width(), frame.spec_height(), frame.spec_rgba(), 0, None),
        ),
{
    let ghost (w, h, px) = (frame.spec_width(), frame.spec_height(), frame.spec_rgba());
    let qualities: [u8; 16] = [95, 90, 85, 80, 75, 70, 65, 60, 55, 50, 45, 40, 35, 30, 25, 20];
    assert(qualities@ =~= jpeg_qualities());
    let mut last: Option<(usize, PacketizeError)> = None;
    let mut i: usize = 0;
    while i < 16
        invariant
            frame.well_formed(),
            w == frame.spec_width(),
            h == frame.spec_height(),
            px == frame.spec_rgba(),
            qualities@ == jpeg_qualities(),
            i <= 16,
            encode_from(w, h, px, 0, None) == encode_from(
                w,
                h,
                px,
                i as int,
                match last {
                    Some((len, e)) => Some((len as nat, e)),
                    None => None,
                },
            ),
        decreases 16 - i,
    {
        let encoded = match encode_jpeg(frame, qualities[i]) {
            Some(bytes) => bytes,
            None => return Err(PrepareError::Encode),
        };
        match packetize_jpeg(encoded.as_slice()) {
            Ok(packets) => {
                let (width, height) = match validate_jpeg_for_lcd(source_path.as_str(), encoded.as_slice()) {
                    Ok(dims) => dims,
                    Err(e) => return Err(PrepareError::Jpeg(e.error)),
                };
                return Ok(PreparedImage::new(source_path, encoded, packets, width, height));
            },
            Err(e) => {
                last = Some((encoded.len(), e));
            },
        }
        i = i + 1;
    }
    match last {
        Some((last_len, last_error)) => Err(PrepareError::TooLarge { last_len, last_error }),
        None => Err(PrepareError::Encode),
    }
}

/// Rotates a rendered 320x320 frame and prepares it for upload.
pub fn prepare_rendered_frame(source_path: String, frame: RenderedFrame, rotation: Rotation) -> (r: Result<PreparedImage, PrepareError>)
    requires
        frame.well_formed(),
    ensures
        is_prepared_result(
            r,
            source_path@,
            encode_from(
                if swaps_axes(rotation) {
                    frame.spec_height()
                } else {
                    frame.spec_width()
                },
                if swaps_axes(rotation) {
                    frame.spec_width()
                } else {
                    frame.spec_height()
                },
                rotated_pixels(rotation, frame.spec_width(), frame.spec_height(), frame.spec_rgba()),
                0,
                None,
            ),
        ),
{
    let rotated = rotation.apply(frame);
    prepare_frame(source_path, &rotated)
}

/// Reads, normalizes and prepares a source image for upload.
pub fn prepare_image_bytes(path: &str, bytes: &[u8], options: PrepareOptions) -> (r: Result<PreparedImage, PrepareError>)
    ensures
        load_normalized_spec(path@, bytes@, options.spec_rotation()) matches Err(e) ==> r == Err::<
            PreparedImage,
            PrepareError,
        >(e),
        load_normalized_spec(path@, bytes@, options.spec_rotation()) matches Ok(px)
            ==> is_prepared_result(r, path@, encode_from(320, 320, px, 0, None)),
{
    let normalized = load_normalized_image(path, bytes, options)?;
    prepare_frame(String::from_str(path), &normalized)
}

/// Every frame the pipeline prepares is a JPEG that declares 320x320 and fits
/// in one upload.
pub proof fn lemma_prepared_jpeg_fits_the_lcd(
    w: u32,
    h: u32,
    rgba: Seq<u8>,
    i: int,
    last: Option<(nat, PacketizeError)>,
)
    ensures
        encode_from(w, h, rgba, i, last) matches Ok((jpeg, jw, jh)) ==> {
            &&& packetizable(jpeg)
            &&& validate_jpeg_spec(jpeg) == Ok::<(u16, u16), JpegError>((jw, jh))
            &&& jw == EXPECTED_JPEG_WIDTH
            &&& jh == EXPECTED_JPEG_HEIGHT
        },
    decreases 16 - i,
{
    if 0 <= i < 16 {
        match jpeg_encoding(w, h, rgba, jpeg_qualities()[i]) {
            None => {},
            Some(jpeg) => {
                if !packetizable(jpeg) {
                    lemma_prepared_jpeg_fits_the_lcd(
                        w,
                        h,
                        rgba,
                        i + 1,
                        Some(
                            (
                                jpeg.len(),
                                if jpeg.len() == 0 {
                                    PacketizeError::EmptyPayload
                                } else {
                                    PacketizeError::TooManyChunks {
                                        chunks: chunk_count(jpeg.len()) as usize,
                                    }
                                },
                            ),
                        ),
                    );
                }
            },
        }
    }
}

/// Byte `i` of a raster `ow` pixels wide and `oh` high is channel `i % 4` of
/// the pixel at column `(i / 4) % ow`, row `(i / 4) / ow`.
proof fn lemma_byte_position(i: int, ow: int, oh: int)
    requires
        ow > 0,
        oh >= 0,
        0 <= i < ow * oh * 4,
    ensures
        0 <= (i / 4) % ow < ow,
        0 <= (i / 4) / ow < oh,
        0 <= i % 4 < 4,
        i == (((i / 4) / ow) * ow + (i / 4) % ow) * 4 + i % 4,
{
    let p = i / 4;
    vstd::arithmetic::div_mod::lemma_fundamental_div_mod(i, 4);
    vstd::arithmetic::div_mod::lemma_fundamental_div_mod(p, ow);
    assert(0 <= p < ow * oh) by (nonlinear_arith)
        requires
            i == 4 * p + i % 4,
            0 <= i % 4 < 4,
            0 <= i < ow * oh * 4,
    ;
    assert(0 <= p / ow < oh) by (nonlinear_arith)
        requires
            p == ow * (p / ow) + p % ow,
            0 <= p % ow < ow,
            0 <= p < ow * oh,
            ow > 0,
    ;
}

/// The byte of channel `c` of pixel `(x, y)` in a raster `ow` pixels wide
/// lies within a raster of `oh` rows, and its column, row and channel are
/// read back from its position.
pub(crate) proof fn lemma_pixel_byte(x: int, y: int, c: int, ow: int, oh: int)
    requires
        0 <= x < ow,
        0 <= y < oh,
        0 <= c < 4,
    ensures
        0 <= (y * ow + x) * 4 + c < ow * oh * 4,
        ((y * ow + x) * 4 + c) / 4 == y * ow + x,
        ((y * ow + x) * 4 + c) % 4 == c,
        (y * ow + x) % ow == x,
        (y * ow + x) / ow == y,
{
    assert(0 <= y * ow + x < ow * oh) by (nonlinear_arith)
        requires
            0 <= x < ow,
            0 <= y < oh,
    ;
    assert(0 <= (y * ow + x) * 4 + c < ow * oh * 4) by (nonlinear_arith)
        requires
            0 <= y * ow + x < ow * oh,
            0 <= c < 4,
    ;
    vstd::arithmetic::div_mod::lemma_fundamental_div_mod_converse((y * ow + x) * 4 + c, 4, y * ow + x, c);
    vstd::arithmetic::div_mod::lemma_fundamental_div_mod_converse(y * ow + x, ow, y, x);
}

/// Rotations undo each other: a quarter turn followed by a three-quarter
/// turn (in either order), or two half turns, give back the raster they
/// started from, and no turn leaves it as it is.
pub proof fn lemma_rotations_compose_back(w: u32, h: u32, src: Seq<u8>)
    requires
        src.len() == (w as int) * (h as int) * 4,
    ensures
        rotated_pixels(Rotation::Deg0, w, h, src) == src,
        rotated_pixels(Rotation::Deg270, h, w, rotated_pixels(Rotation::Deg90, w, h, src)) == src,
        rotated_pixels(Rotation::Deg90, h, w, rotated_pixels(Rotation::Deg270, w, h, src)) == src,
        rotated_pixels(Rotation::Deg180, w, h, rotated_pixels(Rotation::Deg180, w, h, src)) == src,
{
    let (wi, hi) = (w as int, h as int);
    assert((h as nat) * (w as nat) * 4 == src.len()) by (nonlinear_arith)
        requires
            src.len() == (w as int) * (h as int) * 4,
    ;
    assert(rotated_pixels(Rotation::Deg0, w, h, src) =~= src);
    if w == 0 || h == 0 {
        assert(rotated_pixels(Rotation::Deg270, h, w, rotated_pixels(Rotation::Deg90, w, h, src)) =~= src);
        assert(rotated_pixels(Rotation::Deg90, h, w, rotated_pixels(Rotation::Deg270, w, h, src)) =~= src);
        assert(rotated_pixels(Rotation::Deg180, w, h, rotated_pixels(Rotation::Deg180, w, h, src)) =~= src);
        return;
    }
    let q = rotated_pixels(Rotation::Deg90, w, h, src);
    let back = rotated_pixels(Rotation::Deg270, h, w, q);
    assert forall|i: int| 0 <= i < src.len() implies back[i] == src[i] by {
        lemma_byte_position(i, wi, hi);
        let (x, y, c) = ((i / 4) % wi, (i / 4) / wi, i % 4);
        lemma_pixel_byte(hi - 1 - y, x, c, hi, wi);
        lemma_pixel_byte(x, y, c, wi, hi);
    }
    assert(back =~= src);
    let q = rotated_pixels(Rotation::Deg270, w, h, src);
    let back = rotated_pixels(Rotation::Deg90, h, w, q);
    assert forall|i: int| 0 <= i < src.len() implies back[i] == src[i] by {
        lemma_byte_position(i, wi, hi);
        let (x, y, c) = ((i / 4) % wi, (i / 4) / wi, i % 4);
        lemma_pixel_byte(y, wi - 1 - x, c, hi, wi);
        lemma_pixel_byte(x, y, c, wi, hi);
    }
    assert(back =~= src);
    let q = rotated_pixels(Rotation::Deg180, w, h, src);
    let back = rotated_pixels(Rotation::Deg180, w, h, q);
    assert forall|i: int| 0 <= i < src.len() implies back[i] == src[i] by {
        lemma_byte_position(i, wi, hi);
        let (x, y, c) = ((i / 4) % wi, (i / 4) / wi, i % 4);
        lemma_pixel_byte(wi - 1 - x, hi - 1 - y, c, wi, hi);
        lemma_pixel_byte(x, y, c, wi, hi);
    }
    assert(back =~= src);
}

/// On the LCD the fitted band sits centred: its left edge is at
/// `(320 - band width) / 2` and its top edge at `(320 - band height) / 2`, so
/// the black bars on opposite sides differ by at most one pixel. Every pixel
/// is opaque; outside the band it is black, inside it shows the band.
pub proof fn lemma_band_is_centred(rotation: Rotation, w: u32, h: u32, rgba: Seq<u8>, x: int, y: int, c: int)
    requires
        w > 0,
        h > 0,
        0 <= x < 320,
        0 <= y < 320,
        0 <= c < 4,
    ensures
        ({
            let band = lcd_band(rotation, w, h, rgba);
            let bw = band.0 as int;
            let bh = band.1 as int;
            let left = (320 - bw) / 2;
            let top = (320 - bh) / 2;
            let right = 320 - (left + bw);
            let bottom = 320 - (top + bh);
            let inside = left <= x < left + bw && top <= y < top + bh;
            let px = normalized_pixels(rotation, w, h, rgba)[(y * 320 + x) * 4 + c];
            &&& 0 <= right - left <= 1
            &&& 0 <= bottom - top <= 1
            &&& c == 3 ==> px == 255
            &&& c < 3 && inside ==> px == band.2[((y - top) * bw + (x - left)) * 4 + c]
            &&& c < 3 && !inside ==> px == 0
        }),
{
    lemma_pixel_byte(x, y, c, 320, 320);
}

/// Exactly the five documented formats are accepted: bmp, ico, jpg/jpeg,
/// png and webp; any other format is refused.
pub proof fn lemma_supported_formats(f: SourceFormat)
    ensures
        is_supported_format(f) <==> (f == SourceFormat::Bmp || f == SourceFormat::Ico || f
            == SourceFormat::Jpeg || f == SourceFormat::Png || f == SourceFormat::WebP),
        f == SourceFormat::Other ==> !is_supported_format(f),
{
}

/// A background in one of the documented formats (bmp, ico, jpg/jpeg, png,
/// webp) that its decoder reads is accepted and normalized for the LCD.
pub proof fn lemma_documented_formats_load(path: Seq<char>, bytes: Seq<u8>, rotation: Rotation)
    requires
        detected_format(path, bytes) matches Some(f) && (f == SourceFormat::Bmp || f
            == SourceFormat::Ico || f == SourceFormat::Jpeg || f == SourceFormat::Png || f
            == SourceFormat::WebP) && decoded_rgba(bytes, f) is Some,
    ensures
        load_normalized_spec(path, bytes, rotation) is Ok,
{
}

} // verus!
