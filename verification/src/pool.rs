//! Fixed-size frame buffer pool with exclusive-ownership hand-off.
//!
//! The pool is an arena of buffer slots indexed by handles. `acquire` hands
//! out a handle to a free slot and marks it owned by the capture stage;
//! hand-off methods consume the handle (so a handle can never be used twice)
//! and return a fresh one for the next stage; `release` consumes the handle
//! and returns the slot to the pool. A slot's state only ever moves along
//! the documented path: free, capturing, processing, then displaying,
//! scaling or encoding, then free again.
//!
//! An exhausted pool is the system's primary backpressure mechanism: when
//! every buffer is owned downstream, `acquire` signals exhaustion and the
//! capture task must wait for a release instead of allocating more memory.

use vstd::prelude::*;
use crate::FrameBuffer;

verus! {

/// Ownership state of one buffer slot.
#[derive(Clone, Copy, Debug, PartialEq, Eq, Structural)]
pub enum SlotState {
    Free,
    Capturing,
    Processing,
    Displaying,
    Scaling,
    Encoding,
}

/// Exclusive token for one buffer slot. It has no `Clone` and no `Copy`:
/// every hand-off consumes it, so a stage that handed a buffer on retains
/// no way to touch it again.
pub struct BufferHandle {
    slot: usize,
}

impl BufferHandle {
    pub closed spec fn spec_slot(&self) -> int {
        self.slot as int
    }

    pub fn slot(&self) -> (i: usize)
        ensures
            i == self.spec_slot(),
    {
        self.slot
    }
}

/// Index of the first free slot, if any.
pub open spec fn spec_first_free(states: Seq<SlotState>) -> Option<int>
    decreases states.len(),
{
    if states.len() == 0 {
        None
    } else if states[0] is Free {
        Some(0)
    } else {
        match spec_first_free(states.drop_first()) {
            Some(i) => Some(i + 1),
            None => None,
        }
    }
}

/// The first free slot is a free slot, nothing before it is free, and when
/// none is reported, no slot is free.
pub proof fn lemma_first_free_correct(states: Seq<SlotState>)
    ensures
        match spec_first_free(states) {
            Some(i) => 0 <= i < states.len() && states[i] is Free && forall|j: int|
                0 <= j < i ==> !(states[j] is Free),
            None => forall|j: int| 0 <= j < states.len() ==> !(states[j] is Free),
        },
    decreases states.len(),
{
    if states.len() > 0 {
        lemma_first_free_correct(states.drop_first());
        if !(states[0] is Free) {
            match spec_first_free(states.drop_first()) {
                Some(i) => {
                    assert forall|j: int| 0 <= j < i + 1 implies !(states[j] is Free) by {
                        if j > 0 {
                            assert(states.drop_first()[j - 1] == states[j]);
                        }
                    }
                },
                None => {
                    assert forall|j: int| 0 <= j < states.len() implies !(states[j] is Free) by {
                        if j > 0 {
                            assert(states.drop_first()[j - 1] == states[j]);
                        }
                    }
                },
            }
        }
    }
}

/// Arena of frame buffers plus the ownership state of each slot.
pub struct FramePool {
    states: Vec<SlotState>,
    buffers: Vec<FrameBuffer>,
}

impl FramePool {
    /// Ownership states of all slots, in slot order.
    pub closed spec fn states(&self) -> Seq<SlotState> {
        self.states@
    }

    /// The buffers of all slots, in slot order.
    pub closed spec fn buffers(&self) -> Seq<FrameBuffer> {
        self.buffers@
    }

    pub open spec fn len(&self) -> nat {
        self.states().len()
    }

    pub open spec fn wf(&self) -> bool {
        &&& self.buffers().len() == self.len()
        &&& forall|i: int| 0 <= i < self.len() ==> #[trigger] self.buffers()[i].wf()
    }

    /// A handle is live exactly when its slot is currently owned by a stage.
    pub open spec fn handle_live(&self, h: &BufferHandle) -> bool {
        &&& 0 <= h.spec_slot() < self.len()
        &&& !(self.states()[h.spec_slot()] is Free)
    }

    /// Build a pool of `count` copies of the given geometry, all free.
    pub fn new(count: usize, width: u32, height: u32, stride: u32) -> (p: FramePool)
        requires
            width >= 1,
            height >= 1,
            stride >= width,
            stride * height <= usize::MAX,
        ensures
            p.wf(),
            p.len() == count,
            forall|i: int| 0 <= i < count ==> p.states()[i] is Free,
    {
        let mut states: Vec<SlotState> = Vec::new();
        let mut buffers: Vec<FrameBuffer> = Vec::new();
        let mut n: usize = 0;
        while n < count
            invariant
                n <= count,
                states@.len() == n,
                buffers@.len() == n,
                width >= 1,
                height >= 1,
                stride >= width,
                stride * height <= usize::MAX,
                forall|i: int| 0 <= i < n ==> states@[i] is Free,
                forall|i: int| 0 <= i < n ==> #[trigger] buffers@[i].wf(),
            decreases count - n,
        {
            let len: usize = (stride as usize) * (height as usize);
            let mut data: Vec<u8> = Vec::new();
            let mut k: usize = 0;
            while k < len
                invariant
                    k <= len,
                    data@.len() == k,
                decreases len - k,
            {
                data.push(0);
                k = k + 1;
            }
            let fb = FrameBuffer { data, width, height, stride };
            states.push(SlotState::Free);
            buffers.push(fb);
            n = n + 1;
        }
        FramePool { states, buffers }
    }

    /// Acquire a free buffer for the capture stage. Returns `None` when the
    /// whole pool is owned downstream: the caller must wait (backpressure),
    /// never allocate.
    pub fn acquire(&mut self) -> (r: Option<BufferHandle>)
        requires
            old(self).wf(),
        ensures
            final(self).wf(),
            final(self).len() == old(self).len(),
            final(self).buffers() == old(self).buffers(),
            match r {
                Some(h) => {
                    &&& spec_first_free(old(self).states()) == Some(h.spec_slot())
                    &&& old(self).states()[h.spec_slot()] is Free
                    &&& final(self).states() == old(self).states().update(
                        h.spec_slot(),
                        SlotState::Capturing,
                    )
                    &&& final(self).handle_live(&h)
                },
                None => {
                    &&& spec_first_free(old(self).states()) is None
                    &&& final(self).states() == old(self).states()
                },
            },
    {
        let n = self.states.len();
        let mut i: usize = 0;
        while i < n
            invariant
                *self == *old(self),
                old(self).wf(),
                n == self.states@.len(),
                i <= n,
                forall|j: int| 0 <= j < i ==> !(self.states@[j] is Free),
            decreases n - i,
        {
            if matches!(self.states[i], SlotState::Free) {
                proof {
                    lemma_first_free_correct(self.states@);
                }
                self.states.set(i, SlotState::Capturing);
                return Some(BufferHandle { slot: i });
            }
            i = i + 1;
        }
        proof {
            lemma_first_free_correct(self.states@);
        }
        None
    }

    /// Hand the buffer from the capture stage to the processing stage. The
    /// old handle is consumed; the returned handle names the same slot.
    pub fn to_processing(&mut self, h: BufferHandle) -> (r: BufferHandle)
        requires
            old(self).wf(),
            0 <= h.spec_slot() < old(self).len(),
            old(self).states()[h.spec_slot()] is Capturing,
        ensures
            final(self).wf(),
            r.spec_slot() == h.spec_slot(),
            final(self).states() == old(self).states().update(
                h.spec_slot(),
                SlotState::Processing,
            ),
            final(self).buffers() == old(self).buffers(),
            final(self).handle_live(&r),
    {
        self.states.set(h.slot, SlotState::Processing);
        h
    }

    /// Hand the processed buffer to the display stage.
    pub fn to_displaying(&mut self, h: BufferHandle) -> (r: BufferHandle)
        requires
            old(self).wf(),
            0 <= h.spec_slot() < old(self).len(),
            old(self).states()[h.spec_slot()] is Processing,
        ensures
            final(self).wf(),
            r.spec_slot() == h.spec_slot(),
            final(self).states() == old(self).states().update(
                h.spec_slot(),
                SlotState::Displaying,
            ),
            final(self).buffers() == old(self).buffers(),
            final(self).handle_live(&r),
    {
        self.states.set(h.slot, SlotState::Displaying);
        h
    }

    /// Hand the buffer to the scaling stage, which fills it with the
    /// downscaled copy destined for inference.
    pub fn to_scaling(&mut self, h: BufferHandle) -> (r: BufferHandle)
        requires
            old(self).wf(),
            0 <= h.spec_slot() < old(self).len(),
            old(self).states()[h.spec_slot()] is Capturing || old(self).states()[h.spec_slot()] is Processing,
        ensures
            final(self).wf(),
            r.spec_slot() == h.spec_slot(),
            final(self).states() == old(self).states().update(
                h.spec_slot(),
                SlotState::Scaling,
            ),
            final(self).buffers() == old(self).buffers(),
            final(self).handle_live(&r),
    {
        self.states.set(h.slot, SlotState::Scaling);
        h
    }

    /// Hand the buffer to the encoder stage of the recording path.
    pub fn to_encoding(&mut self, h: BufferHandle) -> (r: BufferHandle)
        requires
            old(self).wf(),
            0 <= h.spec_slot() < old(self).len(),
            old(self).states()[h.spec_slot()] is Processing,
        ensures
            final(self).wf(),
            r.spec_slot() == h.spec_slot(),
            final(self).states() == old(self).states().update(
                h.spec_slot(),
                SlotState::Encoding,
            ),
            final(self).buffers() == old(self).buffers(),
            final(self).handle_live(&r),
    {
        self.states.set(h.slot, SlotState::Encoding);
        h
    }

    /// Return a buffer to the pool. Consumes the handle: the releasing
    /// stage keeps no access, and the slot becomes acquirable again.
    pub fn release(&mut self, h: BufferHandle)
        requires
            old(self).wf(),
            old(self).handle_live(&h),
        ensures
            final(self).wf(),
            final(self).states() == old(self).states().update(h.spec_slot(), SlotState::Free),
            final(self).buffers() == old(self).buffers(),
    {
        self.states.set(h.slot, SlotState::Free);
    }

    /// Read-only borrowed view of the buffer a live handle owns.
    pub fn buffer(&self, h: &BufferHandle) -> (b: &FrameBuffer)
        requires
            self.wf(),
            self.handle_live(h),
        ensures
            b == self.buffers()[h.spec_slot()],
            b.wf(),
    {
        &self.buffers[h.slot]
    }

    /// Replace the content of the buffer a live handle owns (the model of
    /// an in-place hardware transform).
    pub fn store(&mut self, h: &BufferHandle, fb: FrameBuffer)
        requires
            old(self).wf(),
            old(self).handle_live(h),
            fb.wf(),
        ensures
            final(self).wf(),
            final(self).states() == old(self).states(),
            final(self).buffers() == old(self).buffers().update(h.spec_slot(), fb),
            final(self).handle_live(h),
    {
        self.buffers.set(h.slot, fb);
    }
}

/// Pool exclusivity: a newly acquired slot is disjoint from every slot that
/// a live handle already owns, for every reachable pool state. No two
/// concurrently-live handles can therefore name the same buffer: a handle
/// is only created by `acquire` (which takes a free slot and marks it
/// owned), and only destroyed by the hand-off and release calls that
/// consume it.
pub proof fn lemma_pool_exclusivity(states: Seq<SlotState>, live_slot: int)
    requires
        0 <= live_slot < states.len(),
        !(states[live_slot] is Free),
    ensures
        match spec_first_free(states) {
            Some(i) => i != live_slot,
            None => true,
        },
{
    lemma_first_free_correct(states);
}

/// A released buffer is acquirable again: right after `release`, the pool
/// has a free slot, so the next `acquire` succeeds.
pub proof fn lemma_release_reacquirable(states: Seq<SlotState>, slot: int)
    requires
        0 <= slot < states.len(),
    ensures
        spec_first_free(states.update(slot, SlotState::Free)) is Some,
{
    let updated = states.update(slot, SlotState::Free);
    lemma_first_free_correct(updated);
    assert(updated[slot] is Free);
}

} // verus!
