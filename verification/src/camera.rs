//! MIPI-CSI camera: configuration and capture-side bookkeeping.
//!
//! The camera controller driver programs lanes, clocks and DMA descriptor
//! chains in the device layer; frames land in pool buffers owned by the
//! capture stage. This module holds the typed configuration the driver is
//! programmed with.

use vstd::prelude::*;

verus! {

/// CSI lane configuration for the connected camera sensor.
pub struct CsiConfig {
    /// 1, 2 or 4 MIPI lanes.
    pub lanes: u8,
    pub clock_freq_hz: u32,
    pub frame_width: u32,
    pub frame_height: u32,
}

impl Default for CsiConfig {
    /// Two lanes at 80 MHz, full-HD frames.
    fn default() -> (c: Self)
        ensures
            c.lanes == 2,
            c.clock_freq_hz == 80000000,
            c.frame_width == 1920,
            c.frame_height == 1080,
    {
        CsiConfig { lanes: 2, clock_freq_hz: 80000000, frame_width: 1920, frame_height: 1080 }
    }
}

/// The register-level configuration handed to the camera controller
/// driver.
pub struct CameraConfig {
    pub width: u32,
    pub height: u32,
    pub lanes: u8,
    pub clock_freq: u32,
}

/// What the driver reports for one completed frame (the frame data itself
/// lands in the pool buffer the capture stage owns).
pub struct FrameInfo {
    pub len: usize,
    pub timestamp: u64,
}

/// The register-level configuration for a capture at the given geometry:
/// two lanes at the fixed CSI clock.
pub fn camera_init_config(width: u32, height: u32) -> (c: CameraConfig)
    ensures
        c.width == width,
        c.height == height,
        c.lanes == 2,
        c.clock_freq == 80000000,
{
    CameraConfig { width, height, lanes: 2, clock_freq: 80000000 }
}

/// Handle to the camera: its configuration and how many frames it has
/// delivered.
pub struct CsiCamera {
    pub config: CsiConfig,
    pub frames_captured: u64,
}

/// Bind a camera handle to a lane configuration.
pub fn init(config: CsiConfig) -> (cam: CsiCamera)
    ensures
        cam.config == config,
        cam.frames_captured == 0,
{
    CsiCamera { config, frames_captured: 0 }
}

impl CsiCamera {
    /// Account one completed capture.
    pub fn note_frame(&mut self)
        requires
            old(self).frames_captured < u64::MAX,
        ensures
            final(self).frames_captured == old(self).frames_captured + 1,
            final(self).config == old(self).config,
    {
        self.frames_captured = self.frames_captured + 1;
    }
}

} // verus!
