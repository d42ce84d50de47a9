//! The wireless companion link.
//!
//! The compute node has no radio of its own; a companion chip carries the
//! network traffic over an SDIO link. The link-layer handshake and the
//! actual sends live in the device layer; this module tracks the link
//! state and what has been handed to the transport.

use vstd::prelude::*;

verus! {

/// Companion link configuration.
pub struct CompanionConfig {
    pub sdio_clock_hz: u32,
    pub wifi_ssid: String,
    pub wifi_password: String,
}

impl CompanionConfig {
    pub open spec fn wf(&self) -> bool {
        &&& self.wifi_ssid@.len() <= 32
        &&& self.wifi_password@.len() <= 64
    }
}

/// Handle to the companion link.
pub struct C6Companion {
    connected: bool,
    chunks_streamed: u64,
    alerts_sent: u64,
}

/// A companion handle before the handshake has finished.
pub fn init() -> (c: C6Companion)
    ensures
        !c.spec_connected(),
        c.spec_chunks_streamed() == 0,
        c.spec_alerts_sent() == 0,
{
    C6Companion { connected: false, chunks_streamed: 0, alerts_sent: 0 }
}

impl C6Companion {
    pub closed spec fn spec_connected(&self) -> bool {
        self.connected
    }

    pub closed spec fn spec_chunks_streamed(&self) -> int {
        self.chunks_streamed as int
    }

    pub closed spec fn spec_alerts_sent(&self) -> int {
        self.alerts_sent as int
    }

    /// The link-layer handshake finished: the transport is reachable.
    pub fn link_established(&mut self)
        ensures
            final(self).spec_connected(),
            final(self).spec_chunks_streamed() == old(self).spec_chunks_streamed(),
            final(self).spec_alerts_sent() == old(self).spec_alerts_sent(),
    {
        self.connected = true;
    }

    /// The link dropped: sends must stop until the next handshake.
    pub fn link_lost(&mut self)
        ensures
            !final(self).spec_connected(),
            final(self).spec_chunks_streamed() == old(self).spec_chunks_streamed(),
            final(self).spec_alerts_sent() == old(self).spec_alerts_sent(),
    {
        self.connected = false;
    }

    pub fn is_connected(&self) -> (c: bool)
        ensures
            c == self.spec_connected(),
    {
        self.connected
    }

    /// Account one encoded chunk handed to the transport.
    pub fn note_chunk_streamed(&mut self)
        requires
            old(self).spec_connected(),
            old(self).spec_chunks_streamed() < u64::MAX,
        ensures
            final(self).spec_chunks_streamed() == old(self).spec_chunks_streamed() + 1,
            final(self).spec_alerts_sent() == old(self).spec_alerts_sent(),
            final(self).spec_connected(),
    {
        self.chunks_streamed = self.chunks_streamed + 1;
    }

    /// Account one detection alert handed to the transport.
    pub fn note_alert_sent(&mut self)
        requires
            old(self).spec_connected(),
            old(self).spec_alerts_sent() < u64::MAX,
        ensures
            final(self).spec_alerts_sent() == old(self).spec_alerts_sent() + 1,
            final(self).spec_chunks_streamed() == old(self).spec_chunks_streamed(),
            final(self).spec_connected(),
    {
        self.alerts_sent = self.alerts_sent + 1;
    }
}

} // verus!
