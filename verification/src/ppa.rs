//! Pixel processing accelerator: downscale for inference input, alpha
//! blending for the preview overlay.
//!
//! The scaling engine itself runs in the device layer; the geometry of a
//! downscale and the rescale of detection coordinates live in the
//! geometry module. This module wires the overlay queue between the
//! inference task and the display path.

use vstd::prelude::*;
use crate::BoundingBox;
use crate::queue::BoundedQueue;

verus! {

/// Depth of the overlay queue from inference to the display path.
pub const OVERLAY_QUEUE_CAPACITY: usize = 4;

/// Handle to the accelerator: how many downscales it has performed.
pub struct PpaContext {
    pub downscales: u64,
}

/// Register a client of the accelerator.
pub fn init() -> (p: PpaContext)
    ensures
        p.downscales == 0,
{
    PpaContext { downscales: 0 }
}

impl PpaContext {
    /// Account one completed downscale.
    pub fn note_downscale(&mut self)
        requires
            old(self).downscales < u64::MAX,
        ensures
            final(self).downscales == old(self).downscales + 1,
    {
        self.downscales = self.downscales + 1;
    }
}

/// The bounding-box overlay queue from the inference task toward the
/// display path, constructed at wiring time and owned by the tasks that
/// use it.
pub fn overlay_queue() -> (q: BoundedQueue<BoundingBox>)
    ensures
        q.wf(),
        q@ == Seq::<BoundingBox>::empty(),
        q.spec_capacity() == OVERLAY_QUEUE_CAPACITY,
{
    BoundedQueue::new(OVERLAY_QUEUE_CAPACITY)
}

} // verus!
