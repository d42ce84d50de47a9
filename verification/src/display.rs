//! MIPI-DSI display: live preview output.
//!
//! Frames arrive from the processing stage as owned buffers; pushing a
//! frame hands its buffer to the display DMA and, once the transfer is
//! accounted, back to the pool.

use vstd::prelude::*;
use crate::pool::{FramePool, BufferHandle, SlotState};

verus! {

pub struct DisplayConfig {
    pub width: u16,
    pub height: u16,
    pub refresh_hz: u8,
    pub dsi_lanes: u8,
}

impl Default for DisplayConfig {
    /// The fitted 1024 by 600 panel at 60 Hz over two DSI lanes.
    fn default() -> (c: Self)
        ensures
            c.width == 1024,
            c.height == 600,
            c.refresh_hz == 60,
            c.dsi_lanes == 2,
    {
        DisplayConfig { width: 1024, height: 600, refresh_hz: 60, dsi_lanes: 2 }
    }
}

/// Handle to the display: its timing configuration and how many frames it
/// has shown.
pub struct DsiDisplay {
    pub config: DisplayConfig,
    pub frames_pushed: u64,
}

/// Bind a display handle to a panel configuration.
pub fn init(config: DisplayConfig) -> (d: DsiDisplay)
    ensures
        d.config == config,
        d.frames_pushed == 0,
{
    DsiDisplay { config, frames_pushed: 0 }
}

impl DsiDisplay {
    /// Show a processed frame: the display consumes the handle, and the
    /// buffer returns to the pool once the transfer is accounted.
    pub fn push_frame(&mut self, pool: &mut FramePool, frame: BufferHandle)
        requires
            old(self).frames_pushed < u64::MAX,
            old(pool).wf(),
            old(pool).handle_live(&frame),
            old(pool).states()[frame.spec_slot()] is Displaying,
        ensures
            final(self).frames_pushed == old(self).frames_pushed + 1,
            final(self).config == old(self).config,
            final(pool).wf(),
            final(pool).states() == old(pool).states().update(
                frame.spec_slot(),
                SlotState::Free,
            ),
            final(pool).buffers() == old(pool).buffers(),
    {
        pool.release(frame);
        self.frames_pushed = self.frames_pushed + 1;
    }
}

} // verus!
