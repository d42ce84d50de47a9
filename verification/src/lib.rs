//! Real-time machine-perception pipeline: a camera feeds frames through
//! hardware processing stages into a quantized detector; detections drive
//! logging, an RGB indicator, a pan/tilt actuator, and an event-triggered
//! recording path. All stages share one address space under a cooperative
//! scheduler, so correctness rests on exclusive buffer ownership, bounded
//! queues with explicit backpressure, and small verified decision functions.

use vstd::prelude::*;

pub mod camera;
pub mod colors;
pub mod companion;
pub mod detect_db;
pub mod display;
pub mod encoder;
pub mod geometry;
pub mod hal;
pub mod inference;
pub mod isp;
pub mod labels;
pub mod led;
pub mod network;
pub mod pipeline;
pub mod pool;
pub mod ppa;
pub mod queue;
pub mod reactor;
pub mod servo;

verus! {

/// A fixed-capacity block of pixel memory plus its geometry. Exactly one
/// pipeline stage owns a buffer at any instant; hand-offs are total.
pub struct FrameBuffer {
    pub data: Vec<u8>,
    pub width: u32,
    pub height: u32,
    pub stride: u32,
}

impl FrameBuffer {
    /// Geometry is consistent: rows fit in the stride and the data block
    /// covers every row.
    pub open spec fn wf(&self) -> bool {
        &&& self.width >= 1
        &&& self.height >= 1
        &&& self.stride >= self.width
        &&& self.data@.len() == self.stride * self.height
    }
}

/// Bounding box in full-resolution display pixel coordinates.
#[derive(Clone, Copy, Debug, PartialEq, Eq, Structural)]
pub struct BoundingBox {
    pub x: u16,
    pub y: u16,
    pub w: u16,
    pub h: u16,
}

/// Longest species / class label the pipeline carries.
pub const MAX_LABEL_LEN: usize = 32;

/// One classifier output for one processed frame. Immutable after
/// creation; fanned out read-only to the log, indicator, actuator and
/// overlay reactors. The confidence score lies in [0, 1] and is carried in
/// hundredths, so 94 stands for 0.94.
pub struct Detection {
    pub species: String,
    pub confidence_centi: u8,
    pub bbox: BoundingBox,
    pub timestamp_ms: u64,
}

impl Detection {
    pub open spec fn wf(&self) -> bool {
        &&& self.species@.len() <= MAX_LABEL_LEN
        &&& self.confidence_centi <= 100
    }
}

} // verus!
