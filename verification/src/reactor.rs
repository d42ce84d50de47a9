//! The detection reactor: what happens on every detection.
//!
//! Each detection is appended to the persistent log, resolved to an
//! indicator color (gray on a lookup miss), queued for overlay rendering,
//! and — when it arrives in an otherwise idle period — used to trigger
//! recording. Recording stops again after a configurable quiet period with
//! no further detections (the debounce window). Hardware failures are
//! retried up to a bound; a branch that keeps failing falls back to the
//! safe state: indicator off, actuator centered.

use vstd::prelude::*;
use crate::{BoundingBox, Detection};
use crate::colors::{RgbColor, spec_default_color, default_color};

verus! {

/// The color a lookup result resolves to: the stored color when the label
/// was found, the documented default gray when it was not.
pub open spec fn spec_color_or_default(found: Option<RgbColor>) -> RgbColor {
    match found {
        Option::Some(c) => c,
        Option::None => spec_default_color(),
    }
}

/// Resolve a lookup result to the color the indicator shows. A miss is
/// recovered locally with the default gray, never propagated as an error.
pub fn color_or_default(found: Option<RgbColor>) -> (c: RgbColor)
    ensures
        c == spec_color_or_default(found),
{
    match found {
        Option::Some(c) => c,
        Option::None => default_color(),
    }
}

/// Event-triggered recording control with a debounce window.
pub struct RecordingCtl {
    pub active: bool,
    pub last_detection_ms: u64,
    pub debounce_ms: u64,
}

impl RecordingCtl {
    /// Idle, with the given quiet period before a triggered recording
    /// stops.
    pub fn new(debounce_ms: u64) -> (c: RecordingCtl)
        ensures
            !c.active,
            c.debounce_ms == debounce_ms,
    {
        RecordingCtl { active: false, last_detection_ms: 0, debounce_ms }
    }

    /// A detection arrived: start recording if idle, and push the quiet
    /// period out. Returns whether this detection started a recording.
    pub fn on_detection(&mut self, now_ms: u64) -> (started: bool)
        ensures
            started == !old(self).active,
            final(self).active,
            final(self).last_detection_ms == now_ms,
            final(self).debounce_ms == old(self).debounce_ms,
    {
        let started = !self.active;
        self.active = true;
        self.last_detection_ms = now_ms;
        started
    }

    /// The periodic debounce check: stop recording once a full quiet
    /// period has passed since the last detection.
    pub fn tick(&mut self, now_ms: u64) -> (stopped: bool)
        ensures
            stopped == (old(self).active && now_ms >= old(self).last_detection_ms
                && now_ms - old(self).last_detection_ms >= old(self).debounce_ms),
            final(self).active == (old(self).active && !stopped),
            final(self).last_detection_ms == old(self).last_detection_ms,
            final(self).debounce_ms == old(self).debounce_ms,
    {
        if self.active && now_ms >= self.last_detection_ms
            && now_ms - self.last_detection_ms >= self.debounce_ms {
            self.active = false;
            true
        } else {
            false
        }
    }
}

/// The reactions one detection provokes.
pub struct ReactorStep {
    /// Color for the indicator, resolved from the detection's label.
    pub led_color: RgbColor,
    /// Bounding box queued for overlay rendering.
    pub overlay_box: BoundingBox,
    /// Whether this detection triggered a recording start.
    pub recording_started: bool,
}

/// React to one detection. The caller looks the label up in its color
/// store and passes the result; the log append happens beside this call
/// and must never block the inference loop. Every reaction of the step is
/// pinned: the indicator color (gray on a miss), the overlay box, and the
/// recording trigger.
pub fn react(det: &Detection, color_found: Option<RgbColor>, rec: &mut RecordingCtl) -> (step:
    ReactorStep)
    ensures
        step.led_color == spec_color_or_default(color_found),
        step.overlay_box == det.bbox,
        step.recording_started == !old(rec).active,
        final(rec).active,
        final(rec).last_detection_ms == det.timestamp_ms,
        final(rec).debounce_ms == old(rec).debounce_ms,
{
    let led_color = color_or_default(color_found);
    let started = rec.on_detection(det.timestamp_ms);
    ReactorStep { led_color, overlay_box: det.bbox, recording_started: started }
}

/// The general kernel of the steady detection scenario: for any detection
/// whose bounding box sits exactly on the frame center and whose label
/// resolves to a color, the reactor drives the indicator to that color
/// (not the fallback), and a tracking step moves neither angle — however
/// often the same detection repeats, the actuator stays where it is.
pub proof fn lemma_centered_detection_reaction(pan: int, tilt: int, b: BoundingBox, c: RgbColor)
    requires
        crate::servo::PAN_MIN_MDEG <= pan <= crate::servo::PAN_MAX_MDEG,
        crate::servo::TILT_MIN_MDEG <= tilt <= crate::servo::TILT_MAX_MDEG,
        crate::servo::spec_box_in_frame(b),
        crate::servo::spec_center2_x(b) == crate::geometry::DISPLAY_WIDTH,
        crate::servo::spec_center2_y(b) == crate::geometry::DISPLAY_HEIGHT,
    ensures
        spec_color_or_default(Some(c)) == c,
        crate::servo::spec_track_pan(pan, b) == pan,
        crate::servo::spec_track_tilt(tilt, b) == tilt,
{
    crate::servo::lemma_step_bounded(
        crate::servo::spec_center2_x(b),
        crate::geometry::DISPLAY_WIDTH as int,
        crate::servo::PAN_GAIN_MDEG as int,
    );
    crate::servo::lemma_step_bounded(
        crate::servo::spec_center2_y(b),
        crate::geometry::DISPLAY_HEIGHT as int,
        crate::servo::TILT_GAIN_MDEG as int,
    );
}

/// The safe indicator state on upstream failure: off.
pub fn degraded_indicator() -> (c: RgbColor)
    ensures
        c == (RgbColor { r: 0, g: 0, b: 0 }),
{
    RgbColor { r: 0, g: 0, b: 0 }
}

/// The safe actuator state on upstream failure: pan and tilt centered.
pub fn degraded_angles() -> (a: (i32, i32))
    ensures
        a.0 == 0,
        a.1 == 0,
{
    (0, 0)
}

/// What the owning task does after a hardware stage reports a status.
#[derive(Clone, Copy, Debug, PartialEq, Eq, Structural)]
pub enum StageAction {
    /// The operation succeeded: continue with the result.
    Proceed,
    /// The operation failed: retry it with the same buffer.
    Retry,
    /// The stage failed repeatedly: this pipeline branch enters the
    /// degraded state instead of crashing silently.
    Degrade,
}

/// Failure tracking for one hardware stage.
pub struct StageHealth {
    pub consecutive_failures: u32,
    pub retry_bound: u32,
    pub degraded: bool,
}

impl StageHealth {
    pub fn new(retry_bound: u32) -> (h: StageHealth)
        ensures
            h.consecutive_failures == 0,
            h.retry_bound == retry_bound,
            !h.degraded,
    {
        StageHealth { consecutive_failures: 0, retry_bound, degraded: false }
    }

    /// Digest one device status code: zero proceeds and clears the failure
    /// streak, a failure is retried until the bound is reached, and then
    /// the stage degrades for good.
    pub fn on_status(&mut self, status: i32) -> (a: StageAction)
        requires
            !old(self).degraded,
        ensures
            final(self).retry_bound == old(self).retry_bound,
            status == 0 ==> a is Proceed && final(self).consecutive_failures == 0
                && !final(self).degraded,
            status != 0 && old(self).consecutive_failures + 1 < old(self).retry_bound ==> a
                is Retry && final(self).consecutive_failures == old(self).consecutive_failures + 1
                && !final(self).degraded,
            status != 0 && old(self).consecutive_failures + 1 >= old(self).retry_bound ==> a
                is Degrade && final(self).degraded,
    {
        if status == 0 {
            self.consecutive_failures = 0;
            StageAction::Proceed
        } else if self.consecutive_failures < u32::MAX && self.consecutive_failures + 1
            < self.retry_bound {
            self.consecutive_failures = self.consecutive_failures + 1;
            StageAction::Retry
        } else {
            self.degraded = true;
            StageAction::Degrade
        }
    }
}

} // verus!
