//! RGB LED indicator: species/class color feedback on every detection.
//!
//! The indicator holds the last color it was driven to; the PWM duty for
//! each channel is the channel value scaled onto the controller's duty
//! range. Off is black (0, 0, 0).

use vstd::prelude::*;
use crate::colors::RgbColor;

verus! {

/// RGB LED driver state: one PWM channel per color and the color
/// currently shown.
pub struct RgbLed {
    r_channel: u8,
    g_channel: u8,
    b_channel: u8,
    current_color: RgbColor,
}

/// Configure the indicator on three PWM channels, initially off.
pub fn init(r_channel: u8, g_channel: u8, b_channel: u8) -> (led: RgbLed)
    ensures
        led.color() == (RgbColor { r: 0, g: 0, b: 0 }),
        led.channels() == (r_channel, g_channel, b_channel),
{
    RgbLed { r_channel, g_channel, b_channel, current_color: RgbColor { r: 0, g: 0, b: 0 } }
}

impl RgbLed {
    /// The color the LED currently shows.
    pub closed spec fn color(&self) -> RgbColor {
        self.current_color
    }

    /// The PWM channels the LED is wired to, in (red, green, blue) order.
    pub closed spec fn channels(&self) -> (u8, u8, u8) {
        (self.r_channel, self.g_channel, self.b_channel)
    }

    /// Drive the LED to a specific color.
    pub fn set_color(&mut self, color: RgbColor)
        ensures
            final(self).color() == color,
            final(self).channels() == old(self).channels(),
    {
        self.current_color = color;
    }

    /// Turn the LED off (no detection active).
    pub fn off(&mut self)
        ensures
            final(self).color() == (RgbColor { r: 0, g: 0, b: 0 }),
            final(self).channels() == old(self).channels(),
    {
        self.set_color(RgbColor { r: 0, g: 0, b: 0 });
    }

    pub fn current_color(&self) -> (c: RgbColor)
        ensures
            c == self.color(),
    {
        self.current_color
    }
}

/// The PWM duty for one color channel: the 0..=255 channel value scaled
/// linearly onto the controller's duty range.
pub fn duty_for(value: u8, max_duty: u32) -> (d: u32)
    ensures
        d == (value * max_duty) as int / 255,
        d <= max_duty,
{
    proof {
        let v = value as int;
        let m = max_duty as int;
        assert(0 <= v * m <= 255 * m) by (nonlinear_arith)
            requires 0 <= v <= 255 && 0 <= m;
        vstd::arithmetic::div_mod::lemma_div_is_ordered(v * m, 255 * m, 255);
        vstd::arithmetic::div_mod::lemma_fundamental_div_mod(v * m, 255);
        vstd::arithmetic::div_mod::lemma_mod_bound(v * m, 255);
        assert((255 * m) / 255 == m) by (nonlinear_arith);
        assert((v * m) / 255 >= 0) by (nonlinear_arith)
            requires
                v * m == 255 * ((v * m) / 255) + (v * m) % 255,
                0 <= (v * m) % 255 < 255,
                0 <= v * m,
        ;
    }
    (((value as u64) * (max_duty as u64)) / 255) as u32
}

} // verus!
