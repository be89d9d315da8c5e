//! Animated sources: the frames of a GIF, each scaled to fit the 320x320 LCD
//! and centred on a black canvas, with the delay it is shown for.
//!
//! GIF decoding, resampling and alpha compositing are done by the `image`
//! crate; the frame geometry is worked out here.

use vstd::prelude::*;

use crate::frame::{RenderedFrame, black_pixels};
use crate::prepare::{ResizeFilter, lcd_filter, lemma_pixel_byte, rgba_at};

verus! {

/// The side of the square LCD, in pixels.
pub const CANVAS_SIDE: u32 = 320;

/// `a / b` rounded to the nearest whole number, halves rounded up (as
/// `f64::round` does for positive values).
pub open spec fn div_round(a: int, b: int) -> int {
    (2 * a + b) / (2 * b)
}

/// The size a `w` by `h` frame is scaled to so that it fits the canvas with
/// its aspect ratio kept: the longer side becomes 320 pixels, the other one
/// is scaled by the same factor, rounded, and kept between 1 and 320. A side
/// of no pixel scales to one pixel.
pub open spec fn fitted_size(w: u32, h: u32) -> (u32, u32) {
    if w == 0 && h == 0 {
        (1u32, 1u32)
    } else if h <= w {
        let scaled = div_round(h * 320, w as int);
        (320u32, (if scaled < 1 {
            1
        } else if scaled > 320 {
            320
        } else {
            scaled
        }) as u32)
    } else {
        let scaled = div_round(w * 320, h as int);
        ((if scaled < 1 {
            1
        } else if scaled > 320 {
            320
        } else {
            scaled
        }) as u32, 320u32)
    }
}

/// The RGBA bytes `image::imageops::resize` makes with `filter` of a `w` by
/// `h` raster at exactly `nw` by `nh`.
pub uninterp spec fn resized_exactly(w: u32, h: u32, rgba: Seq<u8>, nw: u32, nh: u32, filter: ResizeFilter) -> Seq<u8>;

/// The RGBA bytes `image::imageops::overlay` makes when it composites the
/// `fw` by `fh` raster `rgba` at `(ox, oy)` onto the `cw` by `ch` raster
/// `canvas`.
pub uninterp spec fn overlaid(cw: u32, ch: u32, canvas: Seq<u8>, ox: u32, oy: u32, fw: u32, fh: u32, rgba: Seq<u8>) -> Seq<u8>;

/// The frames `GifDecoder` yields for `bytes`: width, height, RGBA bytes and
/// delay in milliseconds of each, or `None` when the bytes are not a GIF the
/// decoder reads to the end.
pub uninterp spec fn gif_frames(bytes: Seq<u8>) -> Option<Seq<(u32, u32, Seq<u8>, u64)>>;

/// What compositing onto a canvas always gives: pixels outside the placed
/// raster keep the canvas, fully opaque pixels of the raster are copied, and
/// fully transparent ones leave the canvas in place.
pub open spec fn composited(cw: u32, ch: u32, canvas: Seq<u8>, ox: int, oy: int, fw: u32, fh: u32, src: Seq<u8>, out: Seq<u8>) -> bool {
    &&& out.len() == (cw as int) * (ch as int) * 4
    &&& forall|x: int, y: int, c: int|
        #![trigger rgba_at(cw as int, out, x, y, c)]
        0 <= x < cw && 0 <= y < ch && 0 <= c < 4 ==> {
            let inside = ox <= x < ox + fw && oy <= y < oy + fh;
            let alpha = rgba_at(fw as int, src, x - ox, y - oy, 3);
            &&& !inside ==> rgba_at(cw as int, out, x, y, c) == rgba_at(cw as int, canvas, x, y, c)
            &&& inside && alpha == 255 ==> rgba_at(cw as int, out, x, y, c) == rgba_at(
                fw as int,
                src,
                x - ox,
                y - oy,
                c,
            )
            &&& inside && alpha == 0 ==> rgba_at(cw as int, out, x, y, c) == rgba_at(
                cw as int,
                canvas,
                x,
                y,
                c,
            )
        }
}

/// What compositing onto an opaque black canvas always gives: pixels outside
/// the placed raster stay opaque black, fully opaque pixels of the raster are
/// copied, and fully transparent ones leave the black in place.
pub open spec fn letterboxed(cw: u32, ch: u32, ox: int, oy: int, fw: u32, fh: u32, src: Seq<u8>, out: Seq<u8>) -> bool {
    &&& out.len() == (cw as int) * (ch as int) * 4
    &&& forall|x: int, y: int, c: int|
        #![trigger rgba_at(cw as int, out, x, y, c)]
        0 <= x < cw && 0 <= y < ch && 0 <= c < 4 ==> {
            let inside = ox <= x < ox + fw && oy <= y < oy + fh;
            let alpha = rgba_at(fw as int, src, x - ox, y - oy, 3);
            &&& !inside ==> rgba_at(cw as int, out, x, y, c) == (if c == 3 {
                255u8
            } else {
                0u8
            })
            &&& inside && alpha == 255 ==> rgba_at(cw as int, out, x, y, c) == rgba_at(
                fw as int,
                src,
                x - ox,
                y - oy,
                c,
            )
            &&& inside && alpha == 0 ==> rgba_at(cw as int, out, x, y, c) == (if c == 3 {
                255u8
            } else {
                0u8
            })
        }
}

/// `r` is the list of frames `g` names, each a well-formed raster, or nothing
/// when `g` is nothing.
pub open spec fn is_gif_decoding(r: Option<Vec<(RenderedFrame, u64)>>, g: Option<Seq<(u32, u32, Seq<u8>, u64)>>) -> bool {
    match (r, g) {
        (Some(v), Some(frames)) => {
            &&& v@.len() == frames.len()
            &&& forall|i: int|
                0 <= i < frames.len() ==> {
                    &&& (#[trigger] v@[i]).0.spec_width() == frames[i].0
                    &&& v@[i].0.spec_height() == frames[i].1
                    &&& v@[i].0.spec_rgba() == frames[i].2
                    &&& v@[i].0.well_formed()
                    &&& v@[i].1 == frames[i].3
                }
        },
        (None, None) => true,
        _ => false,
    }
}

/// `image::imageops::resize` with `filter` to exactly `nw` by `nh`; the
/// buffer it returns always holds `nw * nh` pixels.
#[verifier::external_body]
fn resize_exact(frame: &RenderedFrame, nw: u32, nh: u32, filter: ResizeFilter) -> (r: RenderedFrame)
    requires
        frame.well_formed(),
        frame.spec_width() >= 1,
        frame.spec_height() >= 1,
        nw >= 1,
        nh >= 1,
    ensures
        r.spec_width() == nw,
        r.spec_height() == nh,
        r.spec_rgba() == resized_exactly(
            frame.spec_width(),
            frame.spec_height(),
            frame.spec_rgba(),
            nw,
            nh,
            filter,
        ),
        r.well_formed(),
{
    let image = image::RgbaImage::from_raw(frame.width(), frame.height(), frame.rgba().to_vec()).unwrap();
    let filter = match filter {
        ResizeFilter::Nearest => image::imageops::FilterType::Nearest,
        ResizeFilter::Triangle => image::imageops::FilterType::Triangle,
        ResizeFilter::CatmullRom => image::imageops::FilterType::CatmullRom,
        ResizeFilter::Gaussian => image::imageops::FilterType::Gaussian,
        ResizeFilter::Lanczos3 => image::imageops::FilterType::Lanczos3,
    };
    let out = image::imageops::resize(&image, nw, nh, filter);
    RenderedFrame::new(out.width(), out.height(), out.into_raw())
}

/// `image::imageops::overlay` of `frame` at `(ox, oy)` onto `canvas`: each
/// placed pixel is alpha-blended over the one below it (`Rgba::blend` copies
/// an opaque pixel and skips a transparent one).
#[verifier::external_body]
fn overlay_rgba(canvas: &RenderedFrame, frame: &RenderedFrame, ox: u32, oy: u32) -> (r: RenderedFrame)
    requires
        canvas.well_formed(),
        frame.well_formed(),
        ox + frame.spec_width() <= canvas.spec_width(),
        oy + frame.spec_height() <= canvas.spec_height(),
    ensures
        r.spec_width() == canvas.spec_width(),
        r.spec_height() == canvas.spec_height(),
        r.spec_rgba() == overlaid(
            canvas.spec_width(),
            canvas.spec_height(),
            canvas.spec_rgba(),
            ox,
            oy,
            frame.spec_width(),
            frame.spec_height(),
            frame.spec_rgba(),
        ),
        composited(
            canvas.spec_width(),
            canvas.spec_height(),
            canvas.spec_rgba(),
            ox as int,
            oy as int,
            frame.spec_width(),
            frame.spec_height(),
            frame.spec_rgba(),
            r.spec_rgba(),
        ),
        r.well_formed(),
{
    let top = image::RgbaImage::from_raw(frame.width(), frame.height(), frame.rgba().to_vec()).unwrap();
    let mut base = image::RgbaImage::from_raw(canvas.width(), canvas.height(), canvas.rgba().to_vec()).unwrap();
    image::imageops::overlay(&mut base, &top, i64::from(ox), i64::from(oy));
    RenderedFrame::new(base.width(), base.height(), base.into_raw())
}

/// `GifDecoder::new`, then `into_frames().collect_frames()`: every frame of
/// the animation as an RGBA buffer with its delay; `Frame::into_buffer`
/// returns an `ImageBuffer`, whose buffer holds `width * height` pixels.
#[verifier::external_body]
pub(crate) fn decode_gif(bytes: &[u8]) -> (r: Option<Vec<(RenderedFrame, u64)>>)
    ensures
        is_gif_decoding(r, gif_frames(bytes@)),
{
    let decoder = image::codecs::gif::GifDecoder::new(std::io::Cursor::new(bytes)).ok()?;
    let frames = image::AnimationDecoder::into_frames(decoder).collect_frames().ok()?;
    let mut out = Vec::new();
    for frame in frames {
        let delay_ms = std::time::Duration::from(frame.delay()).as_millis() as u64;
        let buffer = frame.into_buffer();
        out.push((RenderedFrame::new(buffer.width(), buffer.height(), buffer.into_raw()), delay_ms));
    }
    Some(out)
}

/// The scaled size of a `w` by `h` frame, see `fitted_size`.
pub fn fitted_dimensions(w: u32, h: u32) -> (r: (u32, u32))
    ensures
        r == fitted_size(w, h),
        1 <= r.0 <= 320,
        1 <= r.1 <= 320,
{
    if w == 0 && h == 0 {
        (1, 1)
    } else if h <= w {
        let scaled = (2 * (h as u64) * 320 + w as u64) / (2 * w as u64);
        let scaled = if scaled < 1 {
            1
        } else if scaled > 320 {
            320
        } else {
            scaled
        };
        (CANVAS_SIDE, scaled as u32)
    } else {
        let scaled = (2 * (w as u64) * 320 + h as u64) / (2 * h as u64);
        let scaled = if scaled < 1 {
            1
        } else if scaled > 320 {
            320
        } else {
            scaled
        };
        (scaled as u32, CANVAS_SIDE)
    }
}

/// What `fit_to_canvas` makes of a `w` by `h` raster: the raster itself when
/// it is already 320x320; the black canvas alone when it has no pixel (what
/// resampling nothing and compositing the transparent result gives); else
/// the raster resized to `fitted_size(w, h)` and composited onto the middle
/// of an opaque black 320x320 canvas.
pub open spec fn fitted_pixels(w: u32, h: u32, rgba: Seq<u8>) -> Seq<u8> {
    if w == 320 && h == 320 {
        rgba
    } else if w == 0 || h == 0 {
        black_pixels(320, 320)
    } else {
        let (fw, fh) = fitted_size(w, h);
        overlaid(
            320,
            320,
            black_pixels(320, 320),
            ((320 - fw) / 2) as u32,
            ((320 - fh) / 2) as u32,
            fw,
            fh,
            resized_exactly(w, h, rgba, fw, fh, lcd_filter()),
        )
    }
}

/// A composite onto the opaque black canvas is letterboxed.
proof fn lemma_composited_on_black(ox: int, oy: int, fw: u32, fh: u32, src: Seq<u8>, out: Seq<u8>)
    requires
        composited(320, 320, black_pixels(320, 320), ox, oy, fw, fh, src, out),
    ensures
        letterboxed(320, 320, ox, oy, fw, fh, src, out),
{
    assert forall|x: int, y: int, c: int|
        0 <= x < 320 && 0 <= y < 320 && 0 <= c < 4 implies rgba_at(
        320,
        black_pixels(320, 320),
        x,
        y,
        c,
    ) == (if c == 3 {
        255u8
    } else {
        0u8
    }) by {
        lemma_pixel_byte(x, y, c, 320, 320);
    }
    assert forall|x: int, y: int, c: int|
        0 <= x < 320 && 0 <= y < 320 && 0 <= c < 4 implies {
            let inside = ox <= x < ox + fw && oy <= y < oy + fh;
            let alpha = rgba_at(fw as int, src, x - ox, y - oy, 3);
            &&& !inside ==> #[trigger] rgba_at(320, out, x, y, c) == (if c == 3 {
                255u8
            } else {
                0u8
            })
            &&& inside && alpha == 255 ==> rgba_at(320, out, x, y, c) == rgba_at(
                fw as int,
                src,
                x - ox,
                y - oy,
                c,
            )
            &&& inside && alpha == 0 ==> rgba_at(320, out, x, y, c) == (if c == 3 {
                255u8
            } else {
                0u8
            })
        } by {
        lemma_pixel_byte(x, y, c, 320, 320);
    }
}

/// Scales a frame to fit the LCD and centres it on a black canvas, so a frame
/// of any size can be shown; a frame with no pixel gives the black canvas.
pub fn fit_to_canvas(frame: RenderedFrame) -> (r: RenderedFrame)
    requires
        frame.well_formed(),
    ensures
        r.spec_width() == 320,
        r.spec_height() == 320,
        r.well_formed(),
        r.spec_rgba() == fitted_pixels(frame.spec_width(), frame.spec_height(), frame.spec_rgba()),
        !(frame.spec_width() == 320 && frame.spec_height() == 320) && frame.spec_width() > 0
            && frame.spec_height() > 0 ==> {
            let (fw, fh) = fitted_size(frame.spec_width(), frame.spec_height());
            letterboxed(
                320,
                320,
                (320 - fw) / 2,
                (320 - fh) / 2,
                fw,
                fh,
                resized_exactly(
                    frame.spec_width(),
                    frame.spec_height(),
                    frame.spec_rgba(),
                    fw,
                    fh,
                    lcd_filter(),
                ),
                r.spec_rgba(),
            )
        },
{
    if frame.width() == CANVAS_SIDE && frame.height() == CANVAS_SIDE {
        return frame;
    }
    let canvas = RenderedFrame::black(CANVAS_SIDE, CANVAS_SIDE);
    if frame.width() == 0 || frame.height() == 0 {
        return canvas;
    }
    let (width, height) = fitted_dimensions(frame.width(), frame.height());
    let scaled = resize_exact(&frame, width, height, ResizeFilter::Lanczos3);
    let offset_x = (CANVAS_SIDE - width) / 2;
    let offset_y = (CANVAS_SIDE - height) / 2;
    let out = overlay_rgba(&canvas, &scaled, offset_x, offset_y);
    proof {
        lemma_composited_on_black(
            offset_x as int,
            offset_y as int,
            width,
            height,
            scaled.spec_rgba(),
            out.spec_rgba(),
        );
    }
    out
}

} // verus!
