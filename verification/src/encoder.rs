//! Event-triggered H.264 recording and the bounded chunk buffer in front
//! of the transport.
//!
//! Recording starts on a detection trigger and stops after the debounce
//! window. Encoded chunks are handed to the transport in order; when the
//! transport falls behind, at most a small bounded number of chunks is
//! buffered, and then the oldest non-keyframe chunk makes room — a
//! buffered keyframe is never evicted, since downstream decoders need
//! keyframes to resynchronize. When the buffer holds nothing but
//! keyframes, the incoming chunk is the one refused.

use vstd::prelude::*;

verus! {

/// Static encoder configuration.
pub struct EncoderConfig {
    pub width: u32,
    pub height: u32,
    pub fps: u8,
    pub bitrate_kbps: u32,
    pub gop_size: u8,
}

impl Default for EncoderConfig {
    /// 1080p at 30 fps, 4000 kbps, an I-frame every 30 frames.
    fn default() -> (c: Self)
        ensures
            c.width == 1920,
            c.height == 1080,
            c.fps == 30,
            c.bitrate_kbps == 4000,
            c.gop_size == 30,
    {
        EncoderConfig { width: 1920, height: 1080, fps: 30, bitrate_kbps: 4000, gop_size: 30 }
    }
}

/// The register-level encoder configuration handed to the device layer.
pub struct H264Config {
    pub width: u32,
    pub height: u32,
    pub fps: u8,
    pub bitrate: u32,
    pub gop: u8,
}

/// The register-level configuration for an encode session at the given
/// geometry and rate: the fixed 4000 kbps bitrate and a 30-frame GOP.
pub fn h264_init_config(width: u32, height: u32, fps: u8) -> (c: H264Config)
    ensures
        c.width == width,
        c.height == height,
        c.fps == fps,
        c.bitrate == 4000,
        c.gop == 30,
{
    H264Config { width, height, fps, bitrate: 4000, gop: 30 }
}

/// Largest encoded chunk the transport path carries.
pub const CHUNK_DATA_MAX: usize = 65536;

/// One encoded NAL unit ready for streaming or storage. Immutable;
/// consumed exactly once by the transport.
pub struct EncodedChunk {
    pub data: Vec<u8>,
    pub is_keyframe: bool,
    pub timestamp_ms: u64,
}

impl EncodedChunk {
    pub open spec fn wf(&self) -> bool {
        self.data@.len() <= CHUNK_DATA_MAX
    }
}

/// The hardware H.264 encoder: its configuration and whether a recording
/// session is active.
pub struct H264Encoder {
    pub config: EncoderConfig,
    pub recording: bool,
}

impl H264Encoder {
    pub fn new(config: EncoderConfig) -> (e: H264Encoder)
        ensures
            e.config == config,
            !e.recording,
    {
        H264Encoder { config, recording: false }
    }

    /// Start recording (triggered by a detection event).
    pub fn start_recording(&mut self)
        ensures
            final(self).recording,
            final(self).config == old(self).config,
    {
        self.recording = true;
    }

    /// Stop recording (after the debounce window).
    pub fn stop_recording(&mut self)
        ensures
            !final(self).recording,
            final(self).config == old(self).config,
    {
        self.recording = false;
    }

    pub fn is_recording(&self) -> (r: bool)
        ensures
            r == self.recording,
    {
        self.recording
    }
}

/// Number of buffered keyframes.
pub open spec fn spec_key_count(s: Seq<EncodedChunk>) -> int
    decreases s.len(),
{
    if s.len() == 0 {
        0
    } else {
        spec_key_count(s.drop_last()) + if s.last().is_keyframe {
            1int
        } else {
            0int
        }
    }
}

proof fn lemma_key_count_push(s: Seq<EncodedChunk>, x: EncodedChunk)
    ensures
        spec_key_count(s.push(x)) == spec_key_count(s) + if x.is_keyframe {
            1int
        } else {
            0int
        },
{
    assert(s.push(x).drop_last() =~= s);
}

proof fn lemma_key_count_remove(s: Seq<EncodedChunk>, i: int)
    requires
        0 <= i < s.len(),
    ensures
        spec_key_count(s.remove(i)) == spec_key_count(s) - if s[i].is_keyframe {
            1int
        } else {
            0int
        },
    decreases s.len(),
{
    if i == s.len() - 1 {
        assert(s.remove(i) =~= s.drop_last());
    } else {
        assert(s.remove(i).drop_last() =~= s.drop_last().remove(i));
        assert(s.remove(i).last() == s.last());
        lemma_key_count_remove(s.drop_last(), i);
    }
}

/// Index of the oldest buffered non-keyframe, if any.
pub open spec fn spec_first_nonkey(s: Seq<EncodedChunk>) -> Option<int>
    decreases s.len(),
{
    if s.len() == 0 {
        None
    } else if !s[0].is_keyframe {
        Some(0)
    } else {
        match spec_first_nonkey(s.drop_first()) {
            Some(i) => Some(i + 1),
            None => None,
        }
    }
}

/// The oldest non-keyframe really is one, nothing older is, and when none
/// is reported every buffered chunk is a keyframe.
pub proof fn lemma_first_nonkey_correct(s: Seq<EncodedChunk>)
    ensures
        match spec_first_nonkey(s) {
            Some(i) => 0 <= i < s.len() && !s[i].is_keyframe && forall|j: int|
                0 <= j < i ==> #[trigger] s[j].is_keyframe,
            None => forall|j: int| 0 <= j < s.len() ==> #[trigger] s[j].is_keyframe,
        },
    decreases s.len(),
{
    if s.len() > 0 {
        lemma_first_nonkey_correct(s.drop_first());
        if s[0].is_keyframe {
            match spec_first_nonkey(s.drop_first()) {
                Some(i) => {
                    assert forall|j: int| 0 <= j < i + 1 implies #[trigger] s[j].is_keyframe by {
                        if j > 0 {
                            assert(s.drop_first()[j - 1] == s[j]);
                        }
                    }
                },
                None => {
                    assert forall|j: int| 0 <= j < s.len() implies #[trigger] s[j].is_keyframe by {
                        if j > 0 {
                            assert(s.drop_first()[j - 1] == s[j]);
                        }
                    }
                },
            }
        }
    }
}

/// What admitting a chunk does to the buffer contents: append while there
/// is room; otherwise evict the oldest non-keyframe to make room; if only
/// keyframes are buffered, refuse the incoming chunk.
pub open spec fn spec_chunk_push(s: Seq<EncodedChunk>, capacity: nat, x: EncodedChunk) -> Seq<
    EncodedChunk,
> {
    if s.len() < capacity {
        s.push(x)
    } else {
        match spec_first_nonkey(s) {
            Some(i) => s.remove(i).push(x),
            None => s,
        }
    }
}

/// A buffered keyframe is never evicted: pushing can only grow the number
/// of buffered keyframes; it grows exactly by the incoming chunk when that
/// chunk is a keyframe and is admitted.
pub proof fn lemma_keyframes_never_evicted(s: Seq<EncodedChunk>, capacity: nat, x: EncodedChunk)
    ensures
        spec_key_count(spec_chunk_push(s, capacity, x)) >= spec_key_count(s),
        spec_key_count(spec_chunk_push(s, capacity, x)) == spec_key_count(s) + if (s.len()
            < capacity || spec_first_nonkey(s) is Some) && x.is_keyframe {
            1int
        } else {
            0int
        },
{
    if s.len() < capacity {
        lemma_key_count_push(s, x);
    } else {
        match spec_first_nonkey(s) {
            Some(i) => {
                lemma_first_nonkey_correct(s);
                lemma_key_count_remove(s, i);
                lemma_key_count_push(s.remove(i), x);
            },
            None => {},
        }
    }
}

/// How a push was absorbed.
#[derive(Clone, Copy, Debug, PartialEq, Eq, Structural)]
pub enum ChunkPushOutcome {
    /// There was room: the chunk was appended.
    Stored,
    /// The buffer was full: the oldest non-keyframe was evicted to make
    /// room.
    EvictedOldest,
    /// The buffer was full of keyframes: the incoming chunk was refused.
    Refused,
}

/// Bounded buffer of encoded chunks between the encoder and the
/// transport.
pub struct ChunkBuffer {
    chunks: Vec<EncodedChunk>,
    capacity: usize,
}

impl ChunkBuffer {
    /// Buffered chunks, oldest first.
    pub closed spec fn view(&self) -> Seq<EncodedChunk> {
        self.chunks@
    }

    pub closed spec fn spec_capacity(&self) -> nat {
        self.capacity as nat
    }

    pub open spec fn wf(&self) -> bool {
        &&& self.spec_capacity() >= 1
        &&& self.view().len() <= self.spec_capacity()
        &&& forall|i: int| 0 <= i < self.view().len() ==> #[trigger] self.view()[i].wf()
    }

    pub fn new(capacity: usize) -> (b: ChunkBuffer)
        requires
            capacity >= 1,
        ensures
            b.wf(),
            b.view() == Seq::<EncodedChunk>::empty(),
            b.spec_capacity() == capacity,
    {
        ChunkBuffer { chunks: Vec::new(), capacity }
    }

    pub fn len(&self) -> (n: usize)
        ensures
            n == self.view().len(),
    {
        self.chunks.len()
    }

    /// Admit a chunk under the documented drop policy. Only well-formed
    /// chunks travel the transport path: the buffer keeps every chunk it
    /// holds within the transport's size bound.
    pub fn push(&mut self, chunk: EncodedChunk) -> (r: ChunkPushOutcome)
        requires
            old(self).wf(),
            chunk.wf(),
        ensures
            final(self).wf(),
            final(self).spec_capacity() == old(self).spec_capacity(),
            final(self).view() == spec_chunk_push(
                old(self).view(),
                old(self).spec_capacity(),
                chunk,
            ),
            r is Stored <==> old(self).view().len() < old(self).spec_capacity(),
            r is EvictedOldest <==> (old(self).view().len() >= old(self).spec_capacity()
                && spec_first_nonkey(old(self).view()) is Some),
            r is Refused <==> (old(self).view().len() >= old(self).spec_capacity()
                && spec_first_nonkey(old(self).view()) is None),
    {
        if self.chunks.len() < self.capacity {
            self.chunks.push(chunk);
            proof {
                assert forall|k: int| 0 <= k < self.chunks@.len() implies (#[trigger] self
                    .chunks@[k]).wf() by {
                    if k < self.chunks@.len() - 1 {
                        assert(self.chunks@[k] == old(self).view()[k]);
                        assert(old(self).view()[k].wf());
                    } else {
                        assert(self.chunks@[k] == chunk);
                    }
                }
            }
            return ChunkPushOutcome::Stored;
        }
        let n = self.chunks.len();
        let mut i: usize = 0;
        while i < n
            invariant
                *self == *old(self),
                old(self).wf(),
                chunk.wf(),
                old(self).view().len() >= old(self).spec_capacity(),
                n == self.chunks@.len(),
                i <= n,
                forall|j: int| 0 <= j < i ==> #[trigger] self.chunks@[j].is_keyframe,
            decreases n - i,
        {
            if !self.chunks[i].is_keyframe {
                proof {
                    lemma_first_nonkey_correct(self.chunks@);
                    assert(spec_first_nonkey(self.chunks@) == Some(i as int));
                }
                self.chunks.remove(i);
                self.chunks.push(chunk);
                proof {
                    assert(self.chunks@ =~= spec_chunk_push(
                        old(self).view(),
                        old(self).spec_capacity(),
                        chunk,
                    ));
                    old(self).view().remove_ensures(i as int);
                    assert forall|k: int| 0 <= k < self.chunks@.len() implies (#[trigger] self
                        .chunks@[k]).wf() by {
                        if k < self.chunks@.len() - 1 {
                            assert(self.chunks@[k] == old(self).view().remove(i as int)[k]);
                            if k < i {
                                assert(old(self).view().remove(i as int)[k] == old(
                                    self,
                                ).view()[k]);
                                assert(old(self).view()[k].wf());
                            } else {
                                assert(old(self).view().remove(i as int)[k] == old(
                                    self,
                                ).view()[k + 1]);
                                assert(old(self).view()[k + 1].wf());
                            }
                        } else {
                            assert(self.chunks@[k] == chunk);
                        }
                    }
                }
                return ChunkPushOutcome::EvictedOldest;
            }
            i = i + 1;
        }
        proof {
            lemma_first_nonkey_correct(self.chunks@);
        }
        ChunkPushOutcome::Refused
    }

    /// Hand the oldest chunk to the transport, in order.
    pub fn pop(&mut self) -> (r: Option<EncodedChunk>)
        requires
            old(self).wf(),
        ensures
            final(self).wf(),
            final(self).spec_capacity() == old(self).spec_capacity(),
            match r {
                Some(c) => {
                    &&& old(self).view().len() > 0
                    &&& c == old(self).view()[0]
                    &&& c.wf()
                    &&& final(self).view() == old(self).view().drop_first()
                },
                None => {
                    &&& old(self).view().len() == 0
                    &&& final(self).view() == old(self).view()
                },
            },
    {
        if self.chunks.len() == 0 {
            None
        } else {
            let c = self.chunks.remove(0);
            assert(self.chunks@ =~= old(self).view().drop_first());
            Some(c)
        }
    }
}

} // verus!
