//! Hardware abstraction helpers: DMA channel ownership and device status
//! decisions.
//!
//! A DMA channel is either idle or running one transfer; the transfer
//! handle must be consumed before the channel can start another — exactly
//! one pending operation per device at a time. Device calls report status
//! codes; zero is success.

use vstd::prelude::*;
use crate::pool::BufferHandle;

verus! {

/// One submitted, not yet completed operation of a hardware stage. It
/// carries the buffer handle through the device: the submitting task gives
/// the buffer up and gets it back only by awaiting completion.
pub struct PendingOp {
    handle: BufferHandle,
    device_id: u8,
}

impl PendingOp {
    pub closed spec fn spec_slot(&self) -> int {
        self.handle.spec_slot()
    }

    pub closed spec fn device(&self) -> u8 {
        self.device_id
    }
}

/// The uniform contract over the capture, processing, scaling and encoding
/// engines: submit a buffer, await the completion event. At most one
/// operation is outstanding per device — a second submit before the first
/// completes is refused by contract, and the one handle that can complete
/// the device travels inside the pending operation.
pub struct HardwareStage {
    device_id: u8,
    busy: bool,
}

impl HardwareStage {
    pub closed spec fn device(&self) -> u8 {
        self.device_id
    }

    pub closed spec fn is_busy(&self) -> bool {
        self.busy
    }

    /// An idle device.
    pub fn new(device_id: u8) -> (s: HardwareStage)
        ensures
            s.device() == device_id,
            !s.is_busy(),
    {
        HardwareStage { device_id, busy: false }
    }

    /// Submit the buffer a handle owns to the device. Non-blocking; the
    /// caller suspends on `await_completion` instead.
    pub fn submit(&mut self, handle: BufferHandle) -> (op: PendingOp)
        requires
            !old(self).is_busy(),
        ensures
            final(self).is_busy(),
            final(self).device() == old(self).device(),
            op.device() == old(self).device(),
            op.spec_slot() == handle.spec_slot(),
    {
        self.busy = true;
        PendingOp { handle, device_id: self.device_id }
    }

    /// The completion event arrived: the buffer comes back to the caller
    /// and the device can accept the next operation.
    pub fn await_completion(&mut self, op: PendingOp) -> (handle: BufferHandle)
        requires
            old(self).is_busy(),
            op.device() == old(self).device(),
        ensures
            !final(self).is_busy(),
            final(self).device() == old(self).device(),
            handle.spec_slot() == op.spec_slot(),
    {
        self.busy = false;
        op.handle
    }
}

/// A DMA channel with at most one transfer in flight.
pub struct DmaChannel {
    channel_id: u8,
    busy: bool,
}

/// An active DMA transfer; it holds the only right to complete its
/// channel.
pub struct DmaTransfer {
    channel_id: u8,
    len: usize,
}

impl DmaChannel {
    pub closed spec fn id(&self) -> u8 {
        self.channel_id
    }

    pub closed spec fn is_busy(&self) -> bool {
        self.busy
    }

    /// An idle channel.
    pub fn new(channel_id: u8) -> (c: DmaChannel)
        ensures
            c.id() == channel_id,
            !c.is_busy(),
    {
        DmaChannel { channel_id, busy: false }
    }

    /// Start a transfer of the given buffer. The channel is busy until
    /// the returned handle is waited on — a second transfer cannot be
    /// started before that.
    pub fn start_transfer(&mut self, buffer: &[u8]) -> (t: DmaTransfer)
        requires
            !old(self).is_busy(),
        ensures
            final(self).is_busy(),
            final(self).id() == old(self).id(),
            t.id() == old(self).id(),
            t.spec_len() == buffer@.len(),
    {
        self.busy = true;
        DmaTransfer { channel_id: self.channel_id, len: buffer.len() }
    }
}

impl DmaTransfer {
    pub closed spec fn id(&self) -> u8 {
        self.channel_id
    }

    pub closed spec fn spec_len(&self) -> int {
        self.len as int
    }

    pub fn len(&self) -> (n: usize)
        ensures
            n == self.spec_len(),
    {
        self.len
    }

    /// Complete the transfer: consumes the handle and frees its channel.
    pub fn wait(self, channel: &mut DmaChannel)
        requires
            old(channel).is_busy(),
            old(channel).id() == self.id(),
        ensures
            !final(channel).is_busy(),
            final(channel).id() == old(channel).id(),
    {
        channel.busy = false;
    }
}

/// The DMA channels the pipeline owns, one per device, each held by
/// exactly one component.
pub struct Peripherals {
    pub camera_dma: DmaChannel,
    pub display_dma: DmaChannel,
    pub encoder_dma: DmaChannel,
}

/// The GPIO pins the pipeline drives, by pin number, configured once at
/// initialization.
pub struct GpioPins {
    pub led_r: u8,
    pub led_g: u8,
    pub led_b: u8,
    pub servo_sda: u8,
    pub servo_scl: u8,
}

/// Map a device status code onto a result: zero is success, anything else
/// carries the code to the caller for its retry decision.
pub fn status_to_result(status: i32) -> (r: Result<(), i32>)
    ensures
        status == 0 <==> r is Ok,
        status != 0 ==> r == Err::<(), i32>(status),
{
    if status == 0 {
        Ok(())
    } else {
        Err(status)
    }
}

} // verus!
