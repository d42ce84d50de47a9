//! The capture-side pipeline step: acquire, capture, process, fork.
//!
//! One step covers one frame period of the capture loop: acquire a buffer,
//! run it through capture and processing, then fork — the full-resolution
//! buffer goes to the display stage, and a second buffer is acquired for
//! the downscaled copy pushed onto the inference queue. The capture/display
//! path never waits on inference: when the inference queue is full (or no
//! buffer is left for the copy), the copy is dropped and the frame is
//! simply skipped for inference. A step stalls only when the pool itself
//! is exhausted, which downstream releases resolve within a bounded time.

use vstd::prelude::*;
use crate::pool::{FramePool, BufferHandle, SlotState, spec_first_free};
use crate::queue::BoundedQueue;

verus! {

/// Depth of the frame queue from the capture fork to the inference task.
/// Two slots bound the end-to-end latency to about two frame periods
/// while still absorbing brief inference stalls.
pub const FRAME_QUEUE_CAPACITY: usize = 2;

/// The downscaled-frame queue toward the inference task, constructed at
/// wiring time and owned by the tasks that use it.
pub fn inference_frame_queue() -> (q: BoundedQueue<BufferHandle>)
    ensures
        q.wf(),
        q@ == Seq::<BufferHandle>::empty(),
        q.spec_capacity() == FRAME_QUEUE_CAPACITY,
{
    BoundedQueue::new(FRAME_QUEUE_CAPACITY)
}

/// Counters kept by the capture loop.
pub struct CaptureStats {
    pub captured: u64,
    pub displayed: u64,
    pub inference_sent: u64,
    pub inference_dropped: u64,
    pub stalls: u64,
}

impl CaptureStats {
    pub fn new() -> (s: CaptureStats)
        ensures
            s.captured == 0,
            s.displayed == 0,
            s.inference_sent == 0,
            s.inference_dropped == 0,
            s.stalls == 0,
    {
        CaptureStats { captured: 0, displayed: 0, inference_sent: 0, inference_dropped: 0, stalls: 0 }
    }

    pub open spec fn small(&self) -> bool {
        &&& self.captured < 0xffff_ffff_ffff_0000u64
        &&& self.displayed < 0xffff_ffff_ffff_0000u64
        &&& self.inference_sent < 0xffff_ffff_ffff_0000u64
        &&& self.inference_dropped < 0xffff_ffff_ffff_0000u64
        &&& self.stalls < 0xffff_ffff_ffff_0000u64
    }
}

/// What one capture step did.
pub enum CaptureOutcome {
    /// The pool was exhausted: the capture task must wait for a release.
    Stalled,
    /// The frame advanced to the display stage; `inference_sent` tells
    /// whether a downscaled copy reached the inference queue or the frame
    /// was skipped for inference.
    Advanced { display: BufferHandle, inference_sent: bool },
}

/// The spec-level outcome of one capture step.
pub enum SpecCaptureResult {
    Stalled,
    /// Frame displayed, inference copy dropped (no free buffer for the
    /// copy, or inference queue full).
    Dropped { display_slot: int },
    /// Frame displayed and downscaled copy queued for inference.
    Sent { display_slot: int, inference_slot: int },
}

/// The spec-level effect of one capture step on the pool states and on the
/// inference queue (queue items are the slots of the queued handles).
pub struct SpecCaptureStep {
    pub result: SpecCaptureResult,
    pub states: Seq<SlotState>,
    pub queue: Seq<int>,
}

pub open spec fn spec_capture_step(
    states: Seq<SlotState>,
    queue: Seq<int>,
    capacity: nat,
) -> SpecCaptureStep {
    match spec_first_free(states) {
        Option::None => SpecCaptureStep { result: SpecCaptureResult::Stalled, states, queue },
        Option::Some(a) => {
            let after_a = states.update(a, SlotState::Capturing);
            match spec_first_free(after_a) {
                Option::None => SpecCaptureStep {
                    result: SpecCaptureResult::Dropped { display_slot: a },
                    states: states.update(a, SlotState::Displaying),
                    queue,
                },
                Option::Some(b) => {
                    if queue.len() >= capacity {
                        SpecCaptureStep {
                            result: SpecCaptureResult::Dropped { display_slot: a },
                            states: states.update(a, SlotState::Displaying),
                            queue,
                        }
                    } else {
                        SpecCaptureStep {
                            result: SpecCaptureResult::Sent { display_slot: a, inference_slot: b },
                            states: states.update(a, SlotState::Displaying).update(
                                b,
                                SlotState::Scaling,
                            ),
                            queue: queue.push(b),
                        }
                    }
                },
            }
        },
    }
}

/// One capture step followed by the display stage completing and handing
/// its buffer back to the pool — the display finishes within the frame
/// period, so the release lands before the next step.
pub open spec fn spec_capture_cycle(
    states: Seq<SlotState>,
    queue: Seq<int>,
    capacity: nat,
) -> SpecCaptureStep {
    let step = spec_capture_step(states, queue, capacity);
    match step.result {
        SpecCaptureResult::Stalled => step,
        SpecCaptureResult::Dropped { display_slot } => SpecCaptureStep {
            result: step.result,
            states: step.states.update(display_slot, SlotState::Free),
            queue: step.queue,
        },
        SpecCaptureResult::Sent { display_slot, inference_slot } => SpecCaptureStep {
            result: step.result,
            states: step.states.update(display_slot, SlotState::Free),
            queue: step.queue,
        },
    }
}

/// The tally of `k` consecutive capture cycles.
pub struct SpecCycleTally {
    pub dropped: int,
    pub displayed: int,
    pub stalls: int,
    pub states: Seq<SlotState>,
    pub queue: Seq<int>,
}

pub open spec fn spec_cycles(
    states: Seq<SlotState>,
    queue: Seq<int>,
    capacity: nat,
    k: nat,
) -> SpecCycleTally
    decreases k,
{
    if k == 0 {
        SpecCycleTally { dropped: 0, displayed: 0, stalls: 0, states, queue }
    } else {
        let prev = spec_cycles(states, queue, capacity, (k - 1) as nat);
        let cycle = spec_capture_cycle(prev.states, prev.queue, capacity);
        SpecCycleTally {
            dropped: prev.dropped + if cycle.result is Dropped {
                1int
            } else {
                0int
            },
            displayed: prev.displayed + if cycle.result is Stalled {
                0int
            } else {
                1int
            },
            stalls: prev.stalls + if cycle.result is Stalled {
                1int
            } else {
                0int
            },
            states: cycle.states,
            queue: cycle.queue,
        }
    }
}

/// Backpressure does not deadlock the capture path: with the inference
/// queue full throughout and at least one pool buffer free, `k`
/// consecutive capture cycles drop exactly `k` inference copies, display
/// all `k` frames, and never stall — and they leave pool and queue exactly
/// as they found them.
pub proof fn lemma_backpressure_drops_not_stalls(
    states: Seq<SlotState>,
    queue: Seq<int>,
    capacity: nat,
    k: nat,
)
    requires
        queue.len() >= capacity,
        spec_first_free(states) is Some,
    ensures
        ({
            let t = spec_cycles(states, queue, capacity, k);
            &&& t.dropped == k
            &&& t.displayed == k
            &&& t.stalls == 0
            &&& t.states == states
            &&& t.queue == queue
        }),
    decreases k,
{
    if k > 0 {
        lemma_backpressure_drops_not_stalls(states, queue, capacity, (k - 1) as nat);
        let a = spec_first_free(states)->Some_0;
        crate::pool::lemma_first_free_correct(states);
        assert(states.update(a, SlotState::Displaying).update(a, SlotState::Free) =~= states);
    }
}

/// One frame period of the capture loop. The hardware capture, processing
/// and downscale transforms act on the buffers the handles own and are
/// performed by the device layer; this step decides and performs every
/// ownership movement and the drop-on-backpressure policy.
pub fn capture_step(
    pool: &mut FramePool,
    inf_q: &mut BoundedQueue<BufferHandle>,
    stats: &mut CaptureStats,
) -> (r: CaptureOutcome)
    requires
        old(pool).wf(),
        old(inf_q).wf(),
        old(stats).small(),
    ensures
        final(pool).wf(),
        final(inf_q).wf(),
        final(inf_q).spec_capacity() == old(inf_q).spec_capacity(),
        final(pool).buffers() == old(pool).buffers(),
        ({
            let step = spec_capture_step(
                old(pool).states(),
                old(inf_q)@.map_values(|h: BufferHandle| h.spec_slot()),
                old(inf_q).spec_capacity(),
            );
            &&& final(pool).states() == step.states
            &&& final(inf_q)@.map_values(|h: BufferHandle| h.spec_slot()) == step.queue
            &&& match r {
                CaptureOutcome::Stalled => {
                    &&& step.result is Stalled
                    &&& final(stats).captured == old(stats).captured
                    &&& final(stats).displayed == old(stats).displayed
                    &&& final(stats).inference_sent == old(stats).inference_sent
                    &&& final(stats).inference_dropped == old(stats).inference_dropped
                    &&& final(stats).stalls == old(stats).stalls + 1
                },
                CaptureOutcome::Advanced { display, inference_sent } => {
                    &&& (match step.result {
                        SpecCaptureResult::Stalled => false,
                        SpecCaptureResult::Dropped { display_slot } => {
                            &&& !inference_sent
                            &&& display.spec_slot() == display_slot
                            &&& final(stats).inference_dropped == old(stats).inference_dropped + 1
                            &&& final(stats).inference_sent == old(stats).inference_sent
                        },
                        SpecCaptureResult::Sent { display_slot, inference_slot } => {
                            &&& inference_sent
                            &&& display.spec_slot() == display_slot
                            &&& final(stats).inference_sent == old(stats).inference_sent + 1
                            &&& final(stats).inference_dropped == old(stats).inference_dropped
                        },
                    })
                    &&& final(pool).handle_live(&display)
                    &&& final(stats).captured == old(stats).captured + 1
                    &&& final(stats).displayed == old(stats).displayed + 1
                    &&& final(stats).stalls == old(stats).stalls
                },
            }
        }),
{
    let first = pool.acquire();
    let frame = match first {
        Option::None => {
            stats.stalls = stats.stalls + 1;
            return CaptureOutcome::Stalled;
        },
        Option::Some(h) => h,
    };
    stats.captured = stats.captured + 1;
    // The capture engine fills the buffer the handle owns, then the
    // processing stage corrects it in place.
    let copy = pool.acquire();
    let frame = pool.to_processing(frame);
    let mut sent = false;
    match copy {
        Option::None => {
            stats.inference_dropped = stats.inference_dropped + 1;
        },
        Option::Some(c) => {
            // The scaling engine fills the copy from the processed frame.
            let c = pool.to_scaling(c);
            match inf_q.try_send(c) {
                Ok(()) => {
                    stats.inference_sent = stats.inference_sent + 1;
                    sent = true;
                },
                Err(c) => {
                    // Inference queue full: skip this frame for inference
                    // rather than stalling the capture/display path.
                    stats.inference_dropped = stats.inference_dropped + 1;
                    pool.release(c);
                },
            }
        },
    }
    let display = pool.to_displaying(frame);
    stats.displayed = stats.displayed + 1;
    proof {
        let step = spec_capture_step(
            old(pool).states(),
            old(inf_q)@.map_values(|h: BufferHandle| h.spec_slot()),
            old(inf_q).spec_capacity(),
        );
        assert(pool.states() =~= step.states);
        assert(inf_q@.map_values(|h: BufferHandle| h.spec_slot()) =~= step.queue);
    }
    CaptureOutcome::Advanced { display, inference_sent: sent }
}

} // verus!
