//! Pan/tilt tracking: a single-step proportional controller converting
//! detection bounding boxes into servo angles.
//!
//! On each bounding box the controller computes the box center, the
//! normalized error of that center against the frame center, applies a
//! proportional gain (pan and tilt have separate gains because the tilt
//! range is narrower), adds the step to the current angle and clamps to the
//! mechanical range. Angles are kept in millidegrees so every step is exact
//! integer arithmetic.

use vstd::prelude::*;
use vstd::arithmetic::div_mod::{lemma_div_is_ordered, lemma_fundamental_div_mod, lemma_mod_bound};
use crate::BoundingBox;
use crate::geometry::{DISPLAY_WIDTH, DISPLAY_HEIGHT};

verus! {

/// Mechanical pan range in millidegrees.
pub const PAN_MIN_MDEG: i32 = -90000;

pub const PAN_MAX_MDEG: i32 = 90000;

/// Mechanical tilt range in millidegrees.
pub const TILT_MIN_MDEG: i32 = -45000;

pub const TILT_MAX_MDEG: i32 = 45000;

/// Proportional gains: a full-frame error moves the angle by this many
/// millidegrees in one step.
pub const PAN_GAIN_MDEG: u32 = 5000;

pub const TILT_GAIN_MDEG: u32 = 3000;

/// Servo pulse width range in microseconds.
pub const SERVO_MIN_US: u16 = 500;

pub const SERVO_MAX_US: u16 = 2500;

pub open spec fn spec_clamp(v: int, lo: int, hi: int) -> int {
    if v < lo {
        lo
    } else if v > hi {
        hi
    } else {
        v
    }
}

/// Twice the horizontal box center, in half-pixel units (doubling avoids
/// the half pixel lost when the width is odd).
pub open spec fn spec_center2_x(b: BoundingBox) -> int {
    2 * b.x + b.w
}

pub open spec fn spec_center2_y(b: BoundingBox) -> int {
    2 * b.y + b.h
}

/// The proportional step, in millidegrees, for an observed center `c2` (in
/// half-pixels) against a frame of width `width`.
pub open spec fn spec_step(c2: int, width: int, gain: int) -> int
    recommends
        width >= 1,
{
    if c2 >= width {
        ((c2 - width) * gain) / width
    } else {
        -(((width - c2) * gain) / width)
    }
}

pub open spec fn spec_track_pan(pan: int, b: BoundingBox) -> int {
    spec_clamp(
        pan + spec_step(spec_center2_x(b), DISPLAY_WIDTH as int, PAN_GAIN_MDEG as int),
        PAN_MIN_MDEG as int,
        PAN_MAX_MDEG as int,
    )
}

pub open spec fn spec_track_tilt(tilt: int, b: BoundingBox) -> int {
    spec_clamp(
        tilt + spec_step(spec_center2_y(b), DISPLAY_HEIGHT as int, TILT_GAIN_MDEG as int),
        TILT_MIN_MDEG as int,
        TILT_MAX_MDEG as int,
    )
}

/// A bounding box that lies inside the display frame.
pub open spec fn spec_box_in_frame(b: BoundingBox) -> bool {
    &&& b.x + b.w <= DISPLAY_WIDTH
    &&& b.y + b.h <= DISPLAY_HEIGHT
}

/// Pulse width for an angle within a mechanical range, linearly mapped
/// onto the servo's pulse range.
pub open spec fn spec_pulse(mdeg: int, lo: int, hi: int) -> int
    recommends
        lo < hi,
{
    SERVO_MIN_US as int + ((mdeg - lo) * (SERVO_MAX_US - SERVO_MIN_US) as int) / (hi - lo)
}

/// Pan/tilt servo controller. The angles persist across tracking updates;
/// they are mutated only here.
pub struct PanTiltServos {
    pan_channel: u8,
    tilt_channel: u8,
    current_pan_mdeg: i32,
    current_tilt_mdeg: i32,
}

impl PanTiltServos {
    pub closed spec fn spec_pan_channel(&self) -> u8 {
        self.pan_channel
    }

    pub closed spec fn spec_tilt_channel(&self) -> u8 {
        self.tilt_channel
    }

    pub closed spec fn pan(&self) -> int {
        self.current_pan_mdeg as int
    }

    pub closed spec fn tilt(&self) -> int {
        self.current_tilt_mdeg as int
    }

    pub open spec fn wf(&self) -> bool {
        &&& PAN_MIN_MDEG <= self.pan() <= PAN_MAX_MDEG
        &&& TILT_MIN_MDEG <= self.tilt() <= TILT_MAX_MDEG
    }

    /// Both servos centered, as configured at initialization.
    pub fn new(pan_channel: u8, tilt_channel: u8) -> (s: PanTiltServos)
        ensures
            s.wf(),
            s.pan() == 0,
            s.tilt() == 0,
            s.spec_pan_channel() == pan_channel,
            s.spec_tilt_channel() == tilt_channel,
    {
        PanTiltServos { pan_channel, tilt_channel, current_pan_mdeg: 0, current_tilt_mdeg: 0 }
    }

    pub fn current_pan_mdeg(&self) -> (p: i32)
        ensures
            p == self.pan(),
    {
        self.current_pan_mdeg
    }

    pub fn current_tilt_mdeg(&self) -> (t: i32)
        ensures
            t == self.tilt(),
    {
        self.current_tilt_mdeg
    }

    /// Set the pan angle and compute the PCA9685 pulse width for it.
    pub fn set_pan(&mut self, mdeg: i32) -> (pulse: u16)
        requires
            PAN_MIN_MDEG <= mdeg <= PAN_MAX_MDEG,
        ensures
            final(self).pan() == mdeg,
            final(self).tilt() == old(self).tilt(),
            final(self).spec_pan_channel() == old(self).spec_pan_channel(),
            final(self).spec_tilt_channel() == old(self).spec_tilt_channel(),
            pulse == spec_pulse(mdeg as int, PAN_MIN_MDEG as int, PAN_MAX_MDEG as int),
            SERVO_MIN_US <= pulse <= SERVO_MAX_US,
    {
        self.current_pan_mdeg = mdeg;
        mdeg_to_pulse(mdeg, PAN_MIN_MDEG, PAN_MAX_MDEG)
    }

    /// Set the tilt angle and compute the pulse width for it.
    pub fn set_tilt(&mut self, mdeg: i32) -> (pulse: u16)
        requires
            TILT_MIN_MDEG <= mdeg <= TILT_MAX_MDEG,
        ensures
            final(self).tilt() == mdeg,
            final(self).pan() == old(self).pan(),
            final(self).spec_pan_channel() == old(self).spec_pan_channel(),
            final(self).spec_tilt_channel() == old(self).spec_tilt_channel(),
            pulse == spec_pulse(mdeg as int, TILT_MIN_MDEG as int, TILT_MAX_MDEG as int),
            SERVO_MIN_US <= pulse <= SERVO_MAX_US,
    {
        self.current_tilt_mdeg = mdeg;
        mdeg_to_pulse(mdeg, TILT_MIN_MDEG, TILT_MAX_MDEG)
    }

    /// One proportional tracking step toward the given bounding box: add
    /// the gain-scaled center error to each angle and clamp to the
    /// mechanical range. Returns the pan and tilt pulse widths to write.
    pub fn track(&mut self, b: &BoundingBox) -> (pulses: (u16, u16))
        requires
            old(self).wf(),
            spec_box_in_frame(*b),
        ensures
            final(self).wf(),
            final(self).pan() == spec_track_pan(old(self).pan(), *b),
            final(self).tilt() == spec_track_tilt(old(self).tilt(), *b),
            final(self).spec_pan_channel() == old(self).spec_pan_channel(),
            final(self).spec_tilt_channel() == old(self).spec_tilt_channel(),
            pulses.0 == spec_pulse(final(self).pan(), PAN_MIN_MDEG as int, PAN_MAX_MDEG as int),
            pulses.1 == spec_pulse(final(self).tilt(), TILT_MIN_MDEG as int, TILT_MAX_MDEG as int),
    {
        let pan_step = step_toward(
            2 * (b.x as u32) + (b.w as u32),
            DISPLAY_WIDTH,
            PAN_GAIN_MDEG,
        );
        let tilt_step = step_toward(
            2 * (b.y as u32) + (b.h as u32),
            DISPLAY_HEIGHT,
            TILT_GAIN_MDEG,
        );
        let new_pan = clamp_i32(self.current_pan_mdeg + pan_step, PAN_MIN_MDEG, PAN_MAX_MDEG);
        let new_tilt = clamp_i32(self.current_tilt_mdeg + tilt_step, TILT_MIN_MDEG, TILT_MAX_MDEG);
        let pan_pulse = self.set_pan(new_pan);
        let tilt_pulse = self.set_tilt(new_tilt);
        (pan_pulse, tilt_pulse)
    }
}

/// Clamp a value into a closed range.
pub fn clamp_i32(v: i32, lo: i32, hi: i32) -> (r: i32)
    requires
        lo <= hi,
    ensures
        r == spec_clamp(v as int, lo as int, hi as int),
{
    if v < lo {
        lo
    } else if v > hi {
        hi
    } else {
        v
    }
}

/// The proportional step for one axis: gain-scaled, direction-signed
/// normalized center error.
fn step_toward(c2: u32, width: u32, gain: u32) -> (s: i32)
    requires
        1 <= width <= 4000,
        c2 <= 2 * width,
        gain <= 10000,
    ensures
        s == spec_step(c2 as int, width as int, gain as int),
        -(gain as int) <= s <= gain,
{
    proof {
        lemma_step_bounded(c2 as int, width as int, gain as int);
    }
    if c2 >= width {
        proof {
            assert((c2 as int - width as int) * (gain as int) <= 40000000int) by (nonlinear_arith)
                requires
                    0 <= c2 as int - width as int <= 4000,
                    0 <= gain as int <= 10000,
            ;
        }
        (((c2 - width) * gain) / width) as i32
    } else {
        proof {
            assert((width as int - c2 as int) * (gain as int) <= 40000000int) by (nonlinear_arith)
                requires
                    0 <= width as int - c2 as int <= 4000,
                    0 <= gain as int <= 10000,
            ;
        }
        -((((width - c2) * gain) / width) as i32)
    }
}

/// The proportional step never exceeds the gain while the observed center
/// stays inside the frame.
pub proof fn lemma_step_bounded(c2: int, width: int, gain: int)
    requires
        1 <= width,
        0 <= gain,
        0 <= c2 <= 2 * width,
    ensures
        -gain <= spec_step(c2, width, gain) <= gain,
        c2 == width ==> spec_step(c2, width, gain) == 0,
        c2 >= width ==> spec_step(c2, width, gain) >= 0,
        c2 <= width ==> spec_step(c2, width, gain) <= 0,
{
    if c2 >= width {
        let d = (c2 - width) * gain;
        assert(0 <= d <= width * gain) by (nonlinear_arith)
            requires
                0 <= c2 - width <= width,
                0 <= gain,
                d == (c2 - width) * gain,
        ;
        lemma_div_is_ordered(d, width * gain, width);
        lemma_fundamental_div_mod(d, width);
        lemma_mod_bound(d, width);
        assert((width * gain) / width == gain) by (nonlinear_arith)
            requires width >= 1;
        assert(d / width >= 0) by (nonlinear_arith)
            requires
                d == width * (d / width) + d % width,
                0 <= d % width < width,
                0 <= d,
                width >= 1,
        ;
    } else {
        let d = (width - c2) * gain;
        assert(0 <= d <= width * gain) by (nonlinear_arith)
            requires
                0 < width - c2 <= width,
                0 <= gain,
                d == (width - c2) * gain,
        ;
        lemma_div_is_ordered(d, width * gain, width);
        lemma_fundamental_div_mod(d, width);
        lemma_mod_bound(d, width);
        assert((width * gain) / width == gain) by (nonlinear_arith)
            requires width >= 1;
        assert(d / width >= 0) by (nonlinear_arith)
            requires
                d == width * (d / width) + d % width,
                0 <= d % width < width,
                0 <= d,
                width >= 1,
        ;
    }
}

/// Angle-to-pulse conversion shared by both servo channels.
fn mdeg_to_pulse(mdeg: i32, lo: i32, hi: i32) -> (pulse: u16)
    requires
        -1000000 <= lo < hi <= 1000000,
        lo <= mdeg <= hi,
    ensures
        pulse == spec_pulse(mdeg as int, lo as int, hi as int),
        SERVO_MIN_US <= pulse <= SERVO_MAX_US,
{
    let d: u64 = (mdeg as i64 - lo as i64) as u64;
    let range: u64 = (hi as i64 - lo as i64) as u64;
    proof {
        let rg = range as int;
        let dd = (mdeg - lo) * 2000int;
        assert(0 <= dd <= rg * 2000) by (nonlinear_arith)
            requires
                0 <= mdeg - lo <= rg,
                dd == (mdeg - lo) * 2000int,
        ;
        lemma_div_is_ordered(dd, rg * 2000, rg);
        lemma_fundamental_div_mod(dd, rg);
        lemma_mod_bound(dd, rg);
        assert((rg * 2000) / rg == 2000) by (nonlinear_arith)
            requires rg >= 1;
        assert(dd / rg >= 0) by (nonlinear_arith)
            requires
                dd == rg * (dd / rg) + dd % rg,
                0 <= dd % rg < rg,
                0 <= dd,
                rg >= 1,
        ;
    }
    (500 + (d * 2000) / range) as u16
}

/// Tracking clamps and converges. For a fixed bounding box, the
/// proportional step has a fixed sign, so repeated tracking moves the angle
/// monotonically toward its steady state — the centered angle when the box
/// sits on the frame center, the range limit otherwise — without ever
/// leaving the mechanical range or oscillating: the distance to the steady
/// state never increases, and strictly decreases while the box center is
/// off-center by at least one pixel and the limit is not yet reached.
pub proof fn lemma_track_converges(pan: int, b: BoundingBox)
    requires
        PAN_MIN_MDEG <= pan <= PAN_MAX_MDEG,
        spec_box_in_frame(b),
    ensures
        PAN_MIN_MDEG <= spec_track_pan(pan, b) <= PAN_MAX_MDEG,
        spec_center2_x(b) == DISPLAY_WIDTH ==> spec_track_pan(pan, b) == pan,
        spec_center2_x(b) >= DISPLAY_WIDTH ==> pan <= spec_track_pan(pan, b)
            <= spec_track_pan(spec_track_pan(pan, b), b),
        spec_center2_x(b) <= DISPLAY_WIDTH ==> pan >= spec_track_pan(pan, b)
            >= spec_track_pan(spec_track_pan(pan, b), b),
        spec_center2_x(b) > DISPLAY_WIDTH && pan < PAN_MAX_MDEG ==> spec_track_pan(pan, b) > pan,
        spec_center2_x(b) < DISPLAY_WIDTH && pan > PAN_MIN_MDEG ==> spec_track_pan(pan, b) < pan,
{
    let c2 = spec_center2_x(b);
    let w = DISPLAY_WIDTH as int;
    let g = PAN_GAIN_MDEG as int;
    lemma_step_bounded(c2, w, g);
    let s = spec_step(c2, w, g);
    // Even one half-pixel of center error already moves the angle: the
    // smallest nonzero step is gain/width millidegrees, which floors to 2.
    if c2 > w {
        lemma_div_is_ordered(g, (c2 - w) * g, w);
        assert(g <= (c2 - w) * g) by (nonlinear_arith)
            requires c2 - w >= 1 && g >= 0;
        assert(g / w == 2);
    } else if c2 < w {
        lemma_div_is_ordered(g, (w - c2) * g, w);
        assert(g <= (w - c2) * g) by (nonlinear_arith)
            requires w - c2 >= 1 && g >= 0;
        assert(g / w == 2);
    }
    lemma_step_bounded(c2, w, g);
}

/// The same convergence statement for the tilt axis.
pub proof fn lemma_track_converges_tilt(tilt: int, b: BoundingBox)
    requires
        TILT_MIN_MDEG <= tilt <= TILT_MAX_MDEG,
        spec_box_in_frame(b),
    ensures
        TILT_MIN_MDEG <= spec_track_tilt(tilt, b) <= TILT_MAX_MDEG,
        spec_center2_y(b) == DISPLAY_HEIGHT ==> spec_track_tilt(tilt, b) == tilt,
        spec_center2_y(b) >= DISPLAY_HEIGHT ==> tilt <= spec_track_tilt(tilt, b)
            <= spec_track_tilt(spec_track_tilt(tilt, b), b),
        spec_center2_y(b) <= DISPLAY_HEIGHT ==> tilt >= spec_track_tilt(tilt, b)
            >= spec_track_tilt(spec_track_tilt(tilt, b), b),
        spec_center2_y(b) > DISPLAY_HEIGHT && tilt < TILT_MAX_MDEG ==> spec_track_tilt(tilt, b)
            > tilt,
        spec_center2_y(b) < DISPLAY_HEIGHT && tilt > TILT_MIN_MDEG ==> spec_track_tilt(tilt, b)
            < tilt,
{
    let c2 = spec_center2_y(b);
    let h = DISPLAY_HEIGHT as int;
    let g = TILT_GAIN_MDEG as int;
    lemma_step_bounded(c2, h, g);
    // As for pan: the smallest nonzero step, gain/height, floors to 2.
    if c2 > h {
        lemma_div_is_ordered(g, (c2 - h) * g, h);
        assert(g <= (c2 - h) * g) by (nonlinear_arith)
            requires c2 - h >= 1 && g >= 0;
        assert(g / h == 2);
    } else if c2 < h {
        lemma_div_is_ordered(g, (h - c2) * g, h);
        assert(g <= (h - c2) * g) by (nonlinear_arith)
            requires h - c2 >= 1 && g >= 0;
        assert(g / h == 2);
    }
}

} // verus!
