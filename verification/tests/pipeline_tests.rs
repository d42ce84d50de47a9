//! Buffer pool, bounded queue and capture-path behavior.

use bird_detection::pool::FramePool;
use bird_detection::queue::BoundedQueue;
use bird_detection::pipeline::{capture_step, CaptureOutcome, CaptureStats};

#[test]
fn pool_hands_out_distinct_buffers() {
    let mut pool = FramePool::new(3, 4, 4, 4);
    let a = pool.acquire().expect("first acquire");
    let b = pool.acquire().expect("second acquire");
    let c = pool.acquire().expect("third acquire");
    assert_ne!(a.slot(), b.slot());
    assert_ne!(a.slot(), c.slot());
    assert_ne!(b.slot(), c.slot());
    assert!(pool.acquire().is_none());
    pool.release(a);
    pool.release(b);
    pool.release(c);
}

#[test]
fn pool_exhaustion_recovers_after_release() {
    let mut pool = FramePool::new(1, 2, 2, 2);
    let h = pool.acquire().expect("acquire");
    assert!(pool.acquire().is_none());
    let slot = h.slot();
    pool.release(h);
    let again = pool.acquire().expect("reacquire after release");
    assert_eq!(again.slot(), slot);
}

#[test]
fn pool_handoff_keeps_the_slot() {
    let mut pool = FramePool::new(2, 2, 2, 2);
    let h = pool.acquire().expect("acquire");
    let slot = h.slot();
    let h = pool.to_processing(h);
    assert_eq!(h.slot(), slot);
    let h = pool.to_displaying(h);
    assert_eq!(h.slot(), slot);
    // While the frame is downstream, only the other buffer is available.
    let other = pool.acquire().expect("second buffer");
    assert_ne!(other.slot(), slot);
    pool.release(other);
    pool.release(h);
}

#[test]
fn queue_refuses_when_full_and_keeps_order() {
    let mut q: BoundedQueue<u32> = BoundedQueue::new(3);
    assert_eq!(q.capacity(), 3);
    assert!(q.try_send(10).is_ok());
    assert!(q.try_send(11).is_ok());
    assert!(q.try_send(12).is_ok());
    // The fourth send is refused and hands the item back unchanged.
    assert_eq!(q.try_send(13), Err(13));
    assert_eq!(q.len(), 3);
    // Receives come back in send order.
    assert_eq!(q.try_recv(), Some(10));
    assert_eq!(q.try_recv(), Some(11));
    assert!(q.try_send(14).is_ok());
    assert_eq!(q.try_recv(), Some(12));
    assert_eq!(q.try_recv(), Some(14));
    assert_eq!(q.try_recv(), None);
}

#[test]
fn full_inference_queue_drops_frames_without_stalling() {
    let mut pool = FramePool::new(4, 4, 4, 4);
    let mut q = BoundedQueue::new(2);
    let mut stats = CaptureStats::new();
    // Fill the inference queue; nothing consumes it.
    for _ in 0..2 {
        match capture_step(&mut pool, &mut q, &mut stats) {
            CaptureOutcome::Advanced { display, inference_sent } => {
                assert!(inference_sent);
                pool.release(display);
            },
            CaptureOutcome::Stalled => panic!("unexpected stall"),
        }
    }
    assert_eq!(stats.inference_sent, 2);
    // Three more frame periods against the full queue: three drops, three
    // displayed frames, zero stalls.
    for _ in 0..3 {
        match capture_step(&mut pool, &mut q, &mut stats) {
            CaptureOutcome::Advanced { display, inference_sent } => {
                assert!(!inference_sent);
                pool.release(display);
            },
            CaptureOutcome::Stalled => panic!("capture path stalled on inference backpressure"),
        }
    }
    assert_eq!(stats.inference_dropped, 3);
    assert_eq!(stats.displayed, 5);
    assert_eq!(stats.stalls, 0);
    assert_eq!(stats.captured, 5);
}

#[test]
fn capture_stalls_only_when_the_pool_is_exhausted() {
    let mut pool = FramePool::new(1, 4, 4, 4);
    let mut q = BoundedQueue::new(2);
    let mut stats = CaptureStats::new();
    let held = pool.acquire().expect("hold the only buffer");
    match capture_step(&mut pool, &mut q, &mut stats) {
        CaptureOutcome::Stalled => {},
        CaptureOutcome::Advanced { .. } => panic!("expected a stall"),
    }
    assert_eq!(stats.stalls, 1);
    pool.release(held);
    // After the release the path advances again (with the single buffer,
    // the inference copy has no buffer and is dropped).
    match capture_step(&mut pool, &mut q, &mut stats) {
        CaptureOutcome::Advanced { display, inference_sent } => {
            assert!(!inference_sent);
            pool.release(display);
        },
        CaptureOutcome::Stalled => panic!("unexpected stall"),
    }
    assert_eq!(stats.inference_dropped, 1);
}

#[test]
fn pool_slot_states_follow_the_documented_path() {
    let mut pool = FramePool::new(2, 2, 2, 2);
    let h = pool.acquire().expect("acquire");
    let c = pool.acquire().expect("acquire copy");
    let h = pool.to_processing(h);
    let c = pool.to_scaling(c);
    let h = pool.to_displaying(h);
    pool.release(h);
    pool.release(c);
}
