//! Frame sources: what a refresh reports, the schedule of a watched image
//! with an optional live overlay, and an animation that steps through
//! prepared frames on their own delays. Times are milliseconds on the
//! caller's monotonic clock.

use vstd::prelude::*;

use crate::animation::{decode_gif, fit_to_canvas, fitted_pixels, gif_frames};
use crate::frame::PreparedImage;
use crate::prepare::{PrepareError, encode_from, is_prepared_result, prepare_rendered_frame, rotated_pixels};
use crate::rotation::{PrepareOptions, Rotation};

verus! {

/// What a refresh of a frame source did.
#[derive(Debug, Clone, Copy)]
pub enum RefreshOutcome<'a> {
    /// The current frame is the same as before.
    Unchanged,
    /// The source file was reloaded; this is the new frame.
    SourceReloaded(&'a PreparedImage),
    /// The frame was re-rendered from the same source (a new overlay or the
    /// next animation frame).
    ContentUpdated,
}

/// Why a frame source could not be made or refreshed.
#[derive(Debug, Clone, Copy, PartialEq, Eq, Structural)]
pub enum SourceError {
    /// An animation needs at least one frame, and one delay per frame.
    NoFrames,
    /// The bytes are not a GIF the decoder can read.
    Decode,
    /// Frame `index` (counted from 0) of the animation cannot be shown.
    Frame { index: usize, error: PrepareError },
    /// The source file could not be read.
    Unreadable,
}

/// A source of the frame to upload, refreshed between uploads.
pub trait FrameSource {
    /// The frame to upload now, as a value.
    spec fn spec_current(&self) -> PreparedImage;

    /// The frame to upload now.
    fn current(&self) -> (img: &PreparedImage)
        ensures
            *img == self.spec_current(),
    ;

    /// Looks for a new frame at `now_ms`.
    fn refresh_if_changed(&mut self, now_ms: u64) -> Result<RefreshOutcome<'_>, SourceError>;
}

/// Only a reload of the source file is worth a log line.
pub fn should_log_refresh(outcome: &RefreshOutcome<'_>) -> (r: bool)
    ensures
        r == (*outcome is SourceReloaded),
{
    match outcome {
        RefreshOutcome::SourceReloaded(_) => true,
        _ => false,
    }
}

/// The schedule of a watched image source: when to look at the file again,
/// and, when a dashboard overlay is shown, when to render it again.
#[derive(Debug, Clone, Copy, PartialEq, Eq, Structural)]
pub struct RefreshSchedule {
    pub reload_interval_ms: u64,
    pub render_interval_ms: u64,
    pub next_background_check_at_ms: u64,
    pub next_render_at_ms: Option<u64>,
}

/// What a refresh of a watched image source reports, from whether the
/// background changed and whether the new frame could be rendered.
pub open spec fn refresh_report(background_changed: bool, rendered: bool) -> RefreshKind {
    if !rendered {
        RefreshKind::Unchanged
    } else if background_changed {
        RefreshKind::SourceReloaded
    } else {
        RefreshKind::ContentUpdated
    }
}

/// The kind of a refresh outcome, without the frame.
#[derive(Debug, Clone, Copy, PartialEq, Eq, Structural)]
pub enum RefreshKind {
    Unchanged,
    SourceReloaded,
    ContentUpdated,
}

/// The schedule right after the first render at `now_ms`.
pub open spec fn schedule_from(now_ms: u64, reload_interval_ms: u64, render_interval_ms: u64, has_overlay: bool) -> RefreshSchedule {
    RefreshSchedule {
        reload_interval_ms,
        render_interval_ms,
        next_background_check_at_ms: now_ms.saturating_add(reload_interval_ms),
        next_render_at_ms: if has_overlay {
            Some(now_ms.saturating_add(render_interval_ms))
        } else {
            None
        },
    }
}

impl RefreshSchedule {
    /// The schedule right after the first render at `now_ms`; re-rendering is
    /// scheduled only when an overlay is shown.
    pub fn new(now_ms: u64, reload_interval_ms: u64, render_interval_ms: u64, has_overlay: bool) -> (s: RefreshSchedule)
        ensures
            s == schedule_from(now_ms, reload_interval_ms, render_interval_ms, has_overlay),
            s.reload_interval_ms == reload_interval_ms,
            s.render_interval_ms == render_interval_ms,
            s.next_background_check_at_ms == now_ms.saturating_add(reload_interval_ms),
            has_overlay ==> s.next_render_at_ms == Some(now_ms.saturating_add(render_interval_ms)),
            !has_overlay ==> s.next_render_at_ms is None,
    {
        RefreshSchedule {
            reload_interval_ms,
            render_interval_ms,
            next_background_check_at_ms: now_ms.saturating_add(reload_interval_ms),
            next_render_at_ms: if has_overlay {
                Some(now_ms.saturating_add(render_interval_ms))
            } else {
                None
            },
        }
    }

    /// Whether the source file is due for a look at `now_ms`; when it is, the
    /// next look is scheduled one reload interval later.
    pub fn take_background_check(&mut self, now_ms: u64) -> (due: bool)
        ensures
            due == (now_ms >= old(self).next_background_check_at_ms),
            due ==> final(self).next_background_check_at_ms == now_ms.saturating_add(
                old(self).reload_interval_ms,
            ),
            !due ==> final(self).next_background_check_at_ms == old(self).next_background_check_at_ms,
            final(self).reload_interval_ms == old(self).reload_interval_ms,
            final(self).render_interval_ms == old(self).render_interval_ms,
            final(self).next_render_at_ms == old(self).next_render_at_ms,
    {
        if now_ms < self.next_background_check_at_ms {
            return false;
        }
        self.next_background_check_at_ms = now_ms.saturating_add(self.reload_interval_ms);
        true
    }

    /// Whether a new frame has to be rendered at `now_ms`: the background
    /// changed, or the overlay is due.
    pub fn render_due(&self, background_changed: bool, now_ms: u64) -> (due: bool)
        ensures
            due == (background_changed || (self.next_render_at_ms matches Some(t) && now_ms >= t)),
    {
        if background_changed {
            return true;
        }
        match self.next_render_at_ms {
            Some(t) => now_ms >= t,
            None => false,
        }
    }

    /// Records a render at `now_ms`: with an overlay, the next render is due
    /// one render interval later.
    pub fn rendered(&mut self, now_ms: u64, has_overlay: bool)
        ensures
            has_overlay ==> final(self).next_render_at_ms == Some(
                now_ms.saturating_add(old(self).render_interval_ms),
            ),
            !has_overlay ==> final(self).next_render_at_ms == old(self).next_render_at_ms,
            final(self).reload_interval_ms == old(self).reload_interval_ms,
            final(self).render_interval_ms == old(self).render_interval_ms,
            final(self).next_background_check_at_ms == old(self).next_background_check_at_ms,
    {
        if has_overlay {
            self.next_render_at_ms = Some(now_ms.saturating_add(self.render_interval_ms));
        }
    }

    /// What the refresh reports: a failed render leaves the last frame in
    /// place and reports `Unchanged`.
    pub fn report(background_changed: bool, rendered: bool) -> (k: RefreshKind)
        ensures
            k == refresh_report(background_changed, rendered),
    {
        if !rendered {
            RefreshKind::Unchanged
        } else if background_changed {
            RefreshKind::SourceReloaded
        } else {
            RefreshKind::ContentUpdated
        }
    }
}

/// GIF delays under this are "as fast as possible" markers.
pub const MIN_FRAME_DELAY_MS: u64 = 20;
/// The delay used in their place.
pub const FALLBACK_FRAME_DELAY_MS: u64 = 100;

/// The delay a GIF frame is shown for.
pub open spec fn frame_delay_spec(raw_ms: u64) -> u64 {
    if raw_ms < MIN_FRAME_DELAY_MS {
        FALLBACK_FRAME_DELAY_MS
    } else {
        raw_ms
    }
}

/// Replaces too-short GIF delays with the fallback delay.
pub fn frame_delay_ms(raw_ms: u64) -> (ms: u64)
    ensures
        ms == frame_delay_spec(raw_ms),
{
    if raw_ms < MIN_FRAME_DELAY_MS {
        FALLBACK_FRAME_DELAY_MS
    } else {
        raw_ms
    }
}

/// An animation whose frames are prepared once and handed out in turn, each
/// after its own delay.
pub struct AnimatedSource {
    frames: Vec<PreparedImage>,
    delays: Vec<u64>,
    index: usize,
    next_frame_at_ms: u64,
}

impl AnimatedSource {
    #[verifier::type_invariant]
    spec fn inv(self) -> bool {
        &&& self.frames@.len() > 0
        &&& self.frames@.len() == self.delays@.len()
        &&& self.index < self.frames@.len()
    }

    pub closed spec fn spec_frames(self) -> Seq<PreparedImage> {
        self.frames@
    }

    pub closed spec fn spec_delays(self) -> Seq<u64> {
        self.delays@
    }

    pub closed spec fn spec_index(self) -> int {
        self.index as int
    }

    pub closed spec fn spec_next_frame_at(self) -> u64 {
        self.next_frame_at_ms
    }

    /// An animation of `frames`, frame `i` shown for `delays_ms[i]`
    /// (GIF delays, see `frame_delay_ms`), starting on the first frame at
    /// `now_ms`.
    pub fn from_frames(frames: Vec<PreparedImage>, delays_ms: Vec<u64>, now_ms: u64) -> (r: Result<AnimatedSource, SourceError>)
        ensures
            (frames@.len() == 0 || frames@.len() != delays_ms@.len()) ==> r == Err::<
                AnimatedSource,
                SourceError,
            >(SourceError::NoFrames),
            (frames@.len() > 0 && frames@.len() == delays_ms@.len()) ==> r is Ok,
            r matches Ok(a) ==> a.spec_frames() == frames@ && a.spec_index() == 0 && a.spec_delays() == delays_ms@.map_values(
                |d: u64| frame_delay_spec(d),
            ) && a.spec_next_frame_at() == now_ms.saturating_add(frame_delay_spec(delays_ms@[0])),
    {
        if frames.len() == 0 || frames.len() != delays_ms.len() {
            return Err(SourceError::NoFrames);
        }
        let mut delays: Vec<u64> = Vec::new();
        let mut i: usize = 0;
        while i < delays_ms.len()
            invariant
                i <= delays_ms@.len(),
                delays@ == delays_ms@.subrange(0, i as int).map_values(|d: u64| frame_delay_spec(d)),
            decreases delays_ms@.len() - i,
        {
            delays.push(frame_delay_ms(delays_ms[i]));
            i = i + 1;
            assert(delays@ =~= delays_ms@.subrange(0, i as int).map_values(
                |d: u64| frame_delay_spec(d),
            ));
        }
        assert(delays_ms@.subrange(0, delays_ms@.len() as int) =~= delays_ms@);
        let first = delays[0];
        Ok(AnimatedSource { frames, delays, index: 0, next_frame_at_ms: now_ms.saturating_add(first) })
    }

    /// The number of frames.
    pub fn frame_count(&self) -> (n: usize)
        ensures
            n == self.spec_frames().len(),
    {
        self.frames.len()
    }

    /// The delays, in milliseconds.
    pub fn delays(&self) -> (d: &[u64])
        ensures
            d@ == self.spec_delays(),
    {
        self.delays.as_slice()
    }
}

/// A decoded GIF frame: width, height, RGBA bytes and delay in milliseconds.
pub type GifFrame = (u32, u32, Seq<u8>, u64);

/// The upload of one animation frame: the frame fitted to the canvas,
/// rotated, and encoded; or why it cannot be shown.
pub open spec fn animation_frame_result(f: GifFrame, rotation: Rotation) -> Result<(Seq<u8>, u16, u16), PrepareError> {
    encode_from(320, 320, rotated_pixels(rotation, 320, 320, fitted_pixels(f.0, f.1, f.2)), 0, None)
}

/// The first frame, from index `i` on, that cannot be shown, with the reason.
pub open spec fn first_bad_frame(frames: Seq<GifFrame>, rotation: Rotation, i: int) -> Option<(int, PrepareError)>
    decreases frames.len() - i,
{
    if i < 0 || i >= frames.len() {
        None
    } else {
        match animation_frame_result(frames[i], rotation) {
            Err(e) => Some((i, e)),
            Ok(_) => first_bad_frame(frames, rotation, i + 1),
        }
    }
}

/// Why the animation in `bytes` cannot be loaded, if it cannot.
pub open spec fn animation_error(bytes: Seq<u8>, rotation: Rotation) -> Option<SourceError> {
    match gif_frames(bytes) {
        None => Some(SourceError::Decode),
        Some(frames) => if frames.len() == 0 {
            Some(SourceError::NoFrames)
        } else {
            match first_bad_frame(frames, rotation, 0) {
                Some((i, e)) => Some(SourceError::Frame { index: i as usize, error: e }),
                None => None,
            }
        },
    }
}

impl AnimatedSource {
    /// Loads the GIF in `bytes` (read from `path`): every frame is fitted to
    /// the canvas and prepared for upload once, with the rotation of
    /// `options`; playback starts on the first frame at `now_ms`.
    pub fn new(path: String, bytes: &[u8], options: PrepareOptions, now_ms: u64) -> (r: Result<AnimatedSource, SourceError>)
        ensures
            animation_error(bytes@, options.spec_rotation()) matches Some(e) ==> r == Err::<
                AnimatedSource,
                SourceError,
            >(e),
            animation_error(bytes@, options.spec_rotation()) is None ==> (r matches Ok(a) && {
                let frames = gif_frames(bytes@)->0;
                &&& a.spec_frames().len() == frames.len()
                &&& a.spec_delays().len() == frames.len()
                &&& a.spec_index() == 0
                &&& forall|k: int|
                    0 <= k < frames.len() ==> is_prepared_result(
                        Ok(#[trigger] a.spec_frames()[k]),
                        path@,
                        animation_frame_result(frames[k], options.spec_rotation()),
                    ) && a.spec_delays()[k] == frame_delay_spec(frames[k].3)
                &&& a.spec_next_frame_at() == now_ms.saturating_add(a.spec_delays()[0])
            }),
    {
        let decoded = match decode_gif(bytes) {
            Some(d) => d,
            None => return Err(SourceError::Decode),
        };
        let ghost all = gif_frames(bytes@)->0;
        if decoded.len() == 0 {
            return Err(SourceError::NoFrames);
        }
        let rotation = options.rotation();
        assert(decoded@.len() == all.len());
        let mut rest = decoded;
        let mut frames: Vec<PreparedImage> = Vec::new();
        let mut delays: Vec<u64> = Vec::new();
        let mut i: usize = 0;
        while rest.len() > 0
            invariant
                i + rest@.len() == all.len(),
                all.len() > 0,
                all.len() <= usize::MAX,
                rotation == options.spec_rotation(),
                forall|k: int|
                    0 <= k < rest@.len() ==> {
                        &&& (#[trigger] rest@[k]).0.spec_width() == all[i + k].0
                        &&& rest@[k].0.spec_height() == all[i + k].1
                        &&& rest@[k].0.spec_rgba() == all[i + k].2
                        &&& rest@[k].0.well_formed()
                        &&& rest@[k].1 == all[i + k].3
                    },
                frames@.len() == i,
                delays@.len() == i,
                forall|k: int|
                    0 <= k < i ==> is_prepared_result(
                        Ok(#[trigger] frames@[k]),
                        path@,
                        animation_frame_result(all[k], rotation),
                    ) && delays@[k] == all[k].3,
                first_bad_frame(all, rotation, 0) == first_bad_frame(all, rotation, i as int),
                gif_frames(bytes@) == Some(all),
            decreases rest@.len(),
        {
            let ghost before = rest@;
            let (frame, delay) = rest.remove(0);
            assert(forall|k: int| 0 <= k < rest@.len() ==> rest@[k] == before[k + 1]);
            let canvas = fit_to_canvas(frame);
            match prepare_rendered_frame(path.clone(), canvas, rotation) {
                Ok(prepared) => {
                    frames.push(prepared);
                    delays.push(delay);
                },
                Err(e) => {
                    return Err(SourceError::Frame { index: i, error: e });
                },
            }
            i = i + 1;
        }
        let ghost frame_seq = frames@;
        let ghost delay_seq = delays@;
        match AnimatedSource::from_frames(frames, delays, now_ms) {
            Ok(a) => {
                assert(first_bad_frame(all, rotation, i as int) is None);
                assert forall|k: int| 0 <= k < all.len() implies is_prepared_result(
                    Ok(#[trigger] a.spec_frames()[k]),
                    path@,
                    animation_frame_result(all[k], options.spec_rotation()),
                ) && a.spec_delays()[k] == frame_delay_spec(all[k].3) by {
                    assert(a.spec_frames()[k] == frame_seq[k]);
                    assert(a.spec_delays()[k] == frame_delay_spec(delay_seq[k]));
                }
                Ok(a)
            },
            Err(e) => Err(e),
        }
    }
}

impl AnimatedSource {
    /// The frame to upload now.
    pub fn current_frame(&self) -> (img: &PreparedImage)
        ensures
            *img == self.spec_frames()[self.spec_index()],
    {
        proof {
            use_type_invariant(self);
        }
        &self.frames[self.index]
    }

    /// Moves to the next frame (after the last comes the first) once the
    /// current frame's delay has passed at `now_ms`.
    pub fn advance(&mut self, now_ms: u64) -> (k: RefreshKind)
        ensures
            now_ms < old(self).spec_next_frame_at() ==> k == RefreshKind::Unchanged && *final(self)
                == *old(self),
            now_ms >= old(self).spec_next_frame_at() ==> {
                &&& k == RefreshKind::ContentUpdated
                &&& final(self).spec_index() == (old(self).spec_index() + 1) % (old(
                    self,
                ).spec_frames().len() as int)
                &&& final(self).spec_next_frame_at() == now_ms.saturating_add(
                    old(self).spec_delays()[final(self).spec_index()],
                )
            },
            final(self).spec_frames() == old(self).spec_frames(),
            final(self).spec_delays() == old(self).spec_delays(),
    {
        proof {
            use_type_invariant(&*self);
        }
        if now_ms < self.next_frame_at_ms {
            return RefreshKind::Unchanged;
        }
        let count = self.frames.len();
        let next = if self.index + 1 == count {
            0
        } else {
            self.index + 1
        };
        proof {
            if self.index + 1 == count {
                vstd::arithmetic::div_mod::lemma_mod_self_0(count as int);
            } else {
                vstd::arithmetic::div_mod::lemma_small_mod((self.index + 1) as nat, count as nat);
            }
        }
        self.index = next;
        self.next_frame_at_ms = now_ms.saturating_add(self.delays[next]);
        RefreshKind::ContentUpdated
    }
}

impl FrameSource for AnimatedSource {
    open spec fn spec_current(&self) -> PreparedImage {
        self.spec_frames()[self.spec_index()]
    }

    fn current(&self) -> (img: &PreparedImage) {
        self.current_frame()
    }

    /// Plays the animation: once the current frame's delay has passed at
    /// `now_ms`, moves to the next frame (after the last comes the first) and
    /// schedules the one after it; before that, changes nothing.
    fn refresh_if_changed(&mut self, now_ms: u64) -> (r: Result<RefreshOutcome<'_>, SourceError>)
        ensures
            now_ms < old(self).spec_next_frame_at() ==> (r matches Ok(RefreshOutcome::Unchanged)),
            now_ms < old(self).spec_next_frame_at() ==> *final(self) == *old(self),
            now_ms >= old(self).spec_next_frame_at() ==> {
                &&& r matches Ok(RefreshOutcome::ContentUpdated)
                &&& final(self).spec_index() == (old(self).spec_index() + 1) % (old(
                    self,
                ).spec_frames().len() as int)
                &&& final(self).spec_next_frame_at() == now_ms.saturating_add(
                    old(self).spec_delays()[final(self).spec_index()],
                )
            },
            final(self).spec_frames() == old(self).spec_frames(),
            final(self).spec_delays() == old(self).spec_delays(),
    {
        match self.advance(now_ms) {
            RefreshKind::Unchanged => Ok(RefreshOutcome::Unchanged),
            _ => Ok(RefreshOutcome::ContentUpdated),
        }
    }
}

} // verus!
