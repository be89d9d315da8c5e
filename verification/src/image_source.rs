//! A watched background image with an optional live dashboard overlay.
//!
//! The source keeps the bytes and the normalized frame of the last valid
//! background and the prepared frame to upload. The caller reads the file,
//! renders the overlay onto the background (text rendering happens outside
//! the library) and hands the results in; the decisions are made here: when
//! to look at the file again, when a changed file replaces the background
//! (never when it is not a valid image), when to render again, and what the
//! refresh reports.

use vstd::prelude::*;

use crate::frame::{PreparedImage, RenderedFrame};
use crate::prepare::{
    PrepareError, decode_source_frame, encode_from, is_lcd_frame_result, is_prepared_result,
    lemma_pixel_byte, load_normalized_spec, prepare_rendered_frame, rgba_at, rotated_pixels,
};
use crate::rotation::{PrepareOptions, Rotation, swaps_axes};
use crate::source::{RefreshKind, RefreshSchedule, refresh_report, schedule_from};

verus! {

/// `frame` is the normalized frame of the image in `bytes` read from `path`.
pub open spec fn is_background_of(path: Seq<char>, bytes: Seq<u8>, frame: RenderedFrame) -> bool {
    is_lcd_frame_result(Ok(frame), load_normalized_spec(path, bytes, Rotation::Deg0))
}

/// A decoded background image: the file it was read from, its bytes, and its
/// frame normalized to 320x320.
pub struct Background {
    path: String,
    bytes: Vec<u8>,
    frame: RenderedFrame,
}

impl Background {
    #[verifier::type_invariant]
    spec fn inv(self) -> bool {
        is_background_of(self.path@, self.bytes@, self.frame)
    }

    pub closed spec fn spec_path(&self) -> Seq<char> {
        self.path@
    }

    pub closed spec fn spec_bytes(&self) -> Seq<u8> {
        self.bytes@
    }

    pub closed spec fn spec_frame(&self) -> RenderedFrame {
        self.frame
    }

    /// Decodes the image in `bytes`, read from `path`.
    pub fn load(path: String, bytes: Vec<u8>) -> (r: Result<Background, PrepareError>)
        ensures
            load_normalized_spec(path@, bytes@, Rotation::Deg0) matches Err(e) ==> r == Err::<
                Background,
                PrepareError,
            >(e),
            load_normalized_spec(path@, bytes@, Rotation::Deg0) is Ok ==> (r matches Ok(b) && b.spec_path()
                == path@ && b.spec_bytes() == bytes@ && is_background_of(path@, bytes@, b.spec_frame())),
    {
        match decode_source_frame(path.as_str(), bytes.as_slice()) {
            Ok(frame) => Ok(Background { path, bytes, frame }),
            Err(e) => Err(e),
        }
    }

    /// The normalized frame, for rendering the overlay onto.
    pub fn frame(&self) -> (f: &RenderedFrame)
        ensures
            *f == self.spec_frame(),
            is_background_of(self.spec_path(), self.spec_bytes(), self.spec_frame()),
    {
        proof {
            use_type_invariant(self);
        }
        &self.frame
    }
}

/// What offering new file contents did to the background.
#[derive(Debug, Clone, Copy, PartialEq, Eq, Structural)]
pub enum BackgroundUpdate {
    /// The bytes are the ones already in use.
    Unchanged,
    /// The bytes are not a valid image; the last valid background stays.
    Rejected(PrepareError),
    /// The bytes replaced the background.
    Replaced,
}

/// The upload a rendered frame becomes: the frame rotated and encoded.
pub open spec fn rendered_upload(frame: RenderedFrame, rotation: Rotation) -> Result<(Seq<u8>, u16, u16), PrepareError> {
    if !frame.well_formed() {
        Err(PrepareError::MalformedFrame)
    } else {
        encode_from(
            if swaps_axes(rotation) {
                frame.spec_height()
            } else {
                frame.spec_width()
            },
            if swaps_axes(rotation) {
                frame.spec_width()
            } else {
                frame.spec_height()
            },
            rotated_pixels(rotation, frame.spec_width(), frame.spec_height(), frame.spec_rgba()),
            0,
            None,
        )
    }
}

/// The frame a source shows: the render of the overlay when there is one,
/// else the background itself.
pub open spec fn shown_frame(has_overlay: bool, rendered: RenderedFrame, background: Background) -> RenderedFrame {
    if has_overlay {
        rendered
    } else {
        background.spec_frame()
    }
}

/// A watched image source: the last valid background, the frame being
/// uploaded, and the refresh schedule. Times are milliseconds on the caller's
/// monotonic clock.
pub struct ImageSource {
    background: Background,
    rotation: Rotation,
    has_overlay: bool,
    schedule: RefreshSchedule,
    current: PreparedImage,
}

impl ImageSource {
    pub closed spec fn spec_background(&self) -> Background {
        self.background
    }

    pub closed spec fn spec_rotation(&self) -> Rotation {
        self.rotation
    }

    pub closed spec fn spec_has_overlay(&self) -> bool {
        self.has_overlay
    }

    pub closed spec fn spec_schedule(&self) -> RefreshSchedule {
        self.schedule
    }

    pub closed spec fn spec_current(&self) -> PreparedImage {
        self.current
    }

    /// A source showing `rendered`, the first render of the overlay over
    /// `background`, prepared with the rotation of `options` at `now_ms`.
    /// Without an overlay the background itself is shown and `rendered` is
    /// not looked at.
    pub fn new(
        background: Background,
        rendered: RenderedFrame,
        options: PrepareOptions,
        has_overlay: bool,
        now_ms: u64,
        reload_interval_ms: u64,
        render_interval_ms: u64,
    ) -> (r: Result<ImageSource, PrepareError>)
        ensures
            rendered_upload(shown_frame(has_overlay, rendered, background), options.spec_rotation()) matches Err(e) ==> r == Err::<
                ImageSource,
                PrepareError,
            >(e),
            rendered_upload(shown_frame(has_overlay, rendered, background), options.spec_rotation()) is Ok ==> (r matches Ok(s) && {
                &&& s.spec_background() == background
                &&& s.spec_rotation() == options.spec_rotation()
                &&& s.spec_has_overlay() == has_overlay
                &&& s.spec_schedule() == schedule_from(
                    now_ms,
                    reload_interval_ms,
                    render_interval_ms,
                    has_overlay,
                )
                &&& is_prepared_result(
                    Ok(s.spec_current()),
                    background.spec_path(),
                    rendered_upload(shown_frame(has_overlay, rendered, background), options.spec_rotation()),
                )
            }),
    {
        let rotation = options.rotation();
        let rendered = if has_overlay {
            rendered
        } else {
            background.frame().duplicate()
        };
        if !rendered.is_well_formed() {
            return Err(PrepareError::MalformedFrame);
        }
        let path = background.path.clone();
        let current = prepare_rendered_frame(path, rendered, rotation)?;
        let schedule = RefreshSchedule::new(now_ms, reload_interval_ms, render_interval_ms, has_overlay);
        Ok(ImageSource { background, rotation, has_overlay, schedule, current })
    }

    /// The file the background is read from.
    pub fn path(&self) -> (p: &str)
        ensures
            p@ == self.spec_background().spec_path(),
    {
        self.background.path.as_str()
    }

    /// The frame to upload now.
    pub fn current(&self) -> (img: &PreparedImage)
        ensures
            *img == self.spec_current(),
    {
        &self.current
    }

    /// The last valid background, for rendering the overlay onto.
    pub fn background(&self) -> (b: &Background)
        ensures
            *b == self.spec_background(),
    {
        &self.background
    }

    /// Whether a dashboard overlay is rendered over the background.
    pub fn has_overlay(&self) -> (r: bool)
        ensures
            r == self.spec_has_overlay(),
    {
        self.has_overlay
    }

    /// Whether the file is due for a look at `now_ms`; when it is, the next
    /// look is scheduled one reload interval later.
    pub fn take_background_check(&mut self, now_ms: u64) -> (due: bool)
        ensures
            due == (now_ms >= old(self).spec_schedule().next_background_check_at_ms),
            due ==> final(self).spec_schedule().next_background_check_at_ms == now_ms.saturating_add(
                old(self).spec_schedule().reload_interval_ms,
            ),
            !due ==> final(self).spec_schedule() == old(self).spec_schedule(),
            final(self).spec_schedule().next_render_at_ms == old(self).spec_schedule().next_render_at_ms,
            final(self).spec_schedule().reload_interval_ms == old(self).spec_schedule().reload_interval_ms,
            final(self).spec_schedule().render_interval_ms == old(self).spec_schedule().render_interval_ms,
            final(self).spec_background() == old(self).spec_background(),
            final(self).spec_current() == old(self).spec_current(),
            final(self).spec_rotation() == old(self).spec_rotation(),
            final(self).spec_has_overlay() == old(self).spec_has_overlay(),
    {
        self.schedule.take_background_check(now_ms)
    }

    /// Offers the file contents just read: the same bytes change nothing,
    /// bytes that are not a valid image are rejected and the last valid
    /// background stays, and a valid new image replaces the background.
    pub fn offer_background(&mut self, candidate: Vec<u8>) -> (u: BackgroundUpdate)
        ensures
            candidate@ == old(self).spec_background().spec_bytes() ==> u == BackgroundUpdate::Unchanged,
            candidate@ != old(self).spec_background().spec_bytes() ==> match load_normalized_spec(
                old(self).spec_background().spec_path(),
                candidate@,
                Rotation::Deg0,
            ) {
                Err(e) => u == BackgroundUpdate::Rejected(e),
                Ok(_) => u == BackgroundUpdate::Replaced,
            },
            u == BackgroundUpdate::Replaced ==> {
                &&& final(self).spec_background().spec_bytes() == candidate@
                &&& final(self).spec_background().spec_path() == old(self).spec_background().spec_path()
                &&& is_background_of(
                    old(self).spec_background().spec_path(),
                    candidate@,
                    final(self).spec_background().spec_frame(),
                )
            },
            u != BackgroundUpdate::Replaced ==> final(self).spec_background() == old(self).spec_background(),
            final(self).spec_current() == old(self).spec_current(),
            final(self).spec_schedule() == old(self).spec_schedule(),
            final(self).spec_rotation() == old(self).spec_rotation(),
            final(self).spec_has_overlay() == old(self).spec_has_overlay(),
    {
        if crate::runtime::bytes_equal(&candidate, &self.background.bytes) {
            return BackgroundUpdate::Unchanged;
        }
        let path = self.background.path.clone();
        match Background::load(path, candidate) {
            Ok(background) => {
                self.background = background;
                BackgroundUpdate::Replaced
            },
            Err(e) => BackgroundUpdate::Rejected(e),
        }
    }

    /// Whether a new frame has to be rendered at `now_ms`: the background
    /// changed, or the overlay is due.
    pub fn render_due(&self, background_changed: bool, now_ms: u64) -> (due: bool)
        ensures
            due == (background_changed || (self.spec_schedule().next_render_at_ms matches Some(t)
                && now_ms >= t)),
    {
        self.schedule.render_due(background_changed, now_ms)
    }

    /// Takes the frame rendered over the background at `now_ms` (`None` when
    /// rendering failed) and reports the refresh; without an overlay the
    /// background itself is taken and `rendered` is not looked at. A frame
    /// that can be prepared
    /// for upload becomes the current frame and, with an overlay, the next
    /// render is due one render interval later; otherwise the last frame stays
    /// and the refresh reports `Unchanged`.
    pub fn accept_render(&mut self, rendered: Option<RenderedFrame>, background_changed: bool, now_ms: u64) -> (k: RefreshKind)
        ensures
            ({
                let upload = if !old(self).spec_has_overlay() {
                    rendered_upload(old(self).spec_background().spec_frame(), old(self).spec_rotation())
                } else {
                    match rendered {
                        Some(f) => rendered_upload(f, old(self).spec_rotation()),
                        None => Err(PrepareError::MalformedFrame),
                    }
                };
                &&& k == refresh_report(background_changed, upload is Ok)
                &&& upload is Ok ==> is_prepared_result(
                    Ok(final(self).spec_current()),
                    old(self).spec_background().spec_path(),
                    upload,
                )
                &&& upload is Ok && old(self).spec_has_overlay() ==> final(self).spec_schedule().next_render_at_ms
                    == Some(now_ms.saturating_add(old(self).spec_schedule().render_interval_ms))
                &&& upload is Err ==> final(self).spec_current() == old(self).spec_current()
                    && final(self).spec_schedule() == old(self).spec_schedule()
            }),
            !old(self).spec_has_overlay() ==> final(self).spec_schedule() == old(self).spec_schedule(),
            final(self).spec_schedule().next_background_check_at_ms == old(self).spec_schedule().next_background_check_at_ms,
            final(self).spec_schedule().reload_interval_ms == old(self).spec_schedule().reload_interval_ms,
            final(self).spec_schedule().render_interval_ms == old(self).spec_schedule().render_interval_ms,
            final(self).spec_background() == old(self).spec_background(),
            final(self).spec_rotation() == old(self).spec_rotation(),
            final(self).spec_has_overlay() == old(self).spec_has_overlay(),
    {
        let frame = if !self.has_overlay {
            self.background.frame().duplicate()
        } else {
            match rendered {
                Some(frame) => frame,
                None => return RefreshSchedule::report(background_changed, false),
            }
        };
        if !frame.is_well_formed() {
            return RefreshSchedule::report(background_changed, false);
        }
        let path = self.background.path.clone();
        match prepare_rendered_frame(path, frame, self.rotation) {
            Ok(prepared) => {
                self.current = prepared;
                self.schedule.rendered(now_ms, self.has_overlay);
                RefreshSchedule::report(background_changed, true)
            },
            Err(_) => RefreshSchedule::report(background_changed, false),
        }
    }
}

/// The frame a source uploads is the shown frame turned clockwise by the
/// source's rotation: `turned` is the raster that is encoded, `ow` by `oh`
/// pixels (width and height swap for a quarter turn), and its pixel `(x, y)`
/// is the shown frame's pixel `(x, y)` unturned, `(y, h - 1 - x)` for a
/// quarter turn, `(w - 1 - x, h - 1 - y)` for a half turn and
/// `(w - 1 - y, x)` for three quarters.
pub proof fn lemma_upload_is_turned(frame: RenderedFrame, rotation: Rotation) -> (turned: Seq<u8>)
    requires
        frame.well_formed(),
    ensures
        ({
            let w = frame.spec_width();
            let h = frame.spec_height();
            let src = frame.spec_rgba();
            let ow: u32 = if rotation == Rotation::Deg90 || rotation == Rotation::Deg270 {
                h
            } else {
                w
            };
            let oh: u32 = if rotation == Rotation::Deg90 || rotation == Rotation::Deg270 {
                w
            } else {
                h
            };
            &&& rendered_upload(frame, rotation) == encode_from(ow, oh, turned, 0, None)
            &&& turned.len() == (w as int) * (h as int) * 4
            &&& forall|x: int, y: int, c: int|
                #![trigger rgba_at(ow as int, turned, x, y, c)]
                0 <= x < ow && 0 <= y < oh && 0 <= c < 4 ==> rgba_at(ow as int, turned, x, y, c)
                    == match rotation {
                    Rotation::Deg0 => rgba_at(w as int, src, x, y, c),
                    Rotation::Deg90 => rgba_at(w as int, src, y, h - 1 - x, c),
                    Rotation::Deg180 => rgba_at(w as int, src, w - 1 - x, h - 1 - y, c),
                    Rotation::Deg270 => rgba_at(w as int, src, w - 1 - y, x, c),
                }
        }),
{
    let w = frame.spec_width();
    let h = frame.spec_height();
    let src = frame.spec_rgba();
    let turned = rotated_pixels(rotation, w, h, src);
    let ow: u32 = if rotation == Rotation::Deg90 || rotation == Rotation::Deg270 {
        h
    } else {
        w
    };
    let oh: u32 = if rotation == Rotation::Deg90 || rotation == Rotation::Deg270 {
        w
    } else {
        h
    };
    assert forall|x: int, y: int, c: int|
        0 <= x < ow && 0 <= y < oh && 0 <= c < 4 implies #[trigger] rgba_at(ow as int, turned, x, y, c)
        == match rotation {
        Rotation::Deg0 => rgba_at(w as int, src, x, y, c),
        Rotation::Deg90 => rgba_at(w as int, src, y, h - 1 - x, c),
        Rotation::Deg180 => rgba_at(w as int, src, w - 1 - x, h - 1 - y, c),
        Rotation::Deg270 => rgba_at(w as int, src, w - 1 - y, x, c),
    } by {
        lemma_pixel_byte(x, y, c, ow as int, oh as int);
        assert((ow as int) * (oh as int) == (w as int) * (h as int)) by (nonlinear_arith)
            requires
                (ow == w && oh == h) || (ow == h && oh == w),
        ;
    }
    turned
}

} // verus!
