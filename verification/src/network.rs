//! Network payloads: the detection event published over MQTT.
//!
//! The event payload carries the label, the confidence as a fraction in
//! [0, 1] with two decimals, the bounding box, the timestamp and the
//! resolved indicator color — all fields required. Serialization writes
//! compact JSON by hand into a caller-supplied fixed-size byte buffer, so
//! the embedded build needs no serialization framework.

use vstd::prelude::*;
use vstd::string::StringSliceAdditionalSpecFns;
use vstd::string::StrSliceExecFns;
use crate::BoundingBox;
use crate::colors::RgbColor;

verus! {

/// MQTT topic for publishing bird detection events.
pub const MQTT_TOPIC_DETECTIONS: &'static str = "riscvml/bird-detection/detections";

/// MQTT topic for system status (heartbeat, battery, temperature).
pub const MQTT_TOPIC_STATUS: &'static str = "riscvml/bird-detection/status";

/// RTSP server port for live H.264 streaming.
pub const RTSP_PORT: u16 = 8554;

/// MQTT detection event payload, published each time the inference engine
/// identifies a subject.
pub struct MqttDetectionEvent {
    pub species: String,
    pub confidence_centi: u8,
    pub bbox: BoundingBox,
    pub timestamp_ms: u64,
    pub led_color: RgbColor,
}

impl MqttDetectionEvent {
    pub open spec fn wf(&self) -> bool {
        self.confidence_centi <= 100
    }
}

/// Decimal digits of a non-negative number, as ASCII bytes.
pub open spec fn spec_dec(n: int) -> Seq<u8>
    recommends
        n >= 0,
    decreases n,
{
    if n < 10 {
        seq![(48 + n) as u8]
    } else {
        spec_dec(n / 10).push((48 + n % 10) as u8)
    }
}

/// A confidence in hundredths rendered as a fraction with two decimals:
/// 94 becomes "0.94", 100 becomes "1.00".
pub open spec fn spec_frac(c: int) -> Seq<u8>
    recommends
        0 <= c <= 100,
{
    if c >= 100 {
        seq![49u8, 46u8, 48u8, 48u8]
    } else {
        seq![48u8, 46u8, (48 + c / 10) as u8, (48 + c % 10) as u8]
    }
}

/// The UTF-8 bytes of a string view (labels are plain text; the payload
/// carries them verbatim).
pub open spec fn spec_str_bytes(s: Seq<char>) -> Seq<u8> {
    vstd::utf8::encode_utf8(s)
}

/// The exact JSON serialization of a detection event.
pub open spec fn spec_event_json(e: MqttDetectionEvent) -> Seq<u8> {
    ("{\"species\":\"").spec_bytes() + spec_str_bytes(e.species@)
        + ("\",\"confidence\":").spec_bytes() + spec_frac(e.confidence_centi as int)
        + (",\"bbox\":{\"x\":").spec_bytes() + spec_dec(e.bbox.x as int)
        + (",\"y\":").spec_bytes() + spec_dec(e.bbox.y as int)
        + (",\"w\":").spec_bytes() + spec_dec(e.bbox.w as int)
        + (",\"h\":").spec_bytes() + spec_dec(e.bbox.h as int)
        + ("},\"timestamp\":").spec_bytes() + spec_dec(e.timestamp_ms as int)
        + (",\"led_color\":{\"r\":").spec_bytes() + spec_dec(e.led_color.r as int)
        + (",\"g\":").spec_bytes() + spec_dec(e.led_color.g as int)
        + (",\"b\":").spec_bytes() + spec_dec(e.led_color.b as int)
        + ("}}").spec_bytes()
}

/// Append the decimal digits of `n`.
fn push_dec(out: &mut Vec<u8>, n: u64)
    ensures
        final(out)@ == old(out)@ + spec_dec(n as int),
    decreases n,
{
    if n < 10 {
        out.push(48 + n as u8);
        assert(out@ =~= old(out)@ + spec_dec(n as int));
    } else {
        push_dec(out, n / 10);
        out.push(48 + (n % 10) as u8);
        assert(out@ =~= old(out)@ + spec_dec(n as int));
    }
}

/// Append the two-decimal fraction for a confidence in hundredths.
fn push_frac(out: &mut Vec<u8>, c: u8)
    requires
        c <= 100,
    ensures
        final(out)@ == old(out)@ + spec_frac(c as int),
{
    if c >= 100 {
        out.push(49);
        out.push(46);
        out.push(48);
        out.push(48);
    } else {
        out.push(48);
        out.push(46);
        out.push(48 + c / 10);
        out.push(48 + c % 10);
    }
    assert(out@ =~= old(out)@ + spec_frac(c as int));
}

/// Append the UTF-8 bytes of a string.
fn push_str_bytes(out: &mut Vec<u8>, s: &str)
    ensures
        final(out)@ == old(out)@ + spec_str_bytes(s@),
{
    let mut bytes = s.as_bytes_vec();
    out.append(&mut bytes);
}

/// The JSON bytes of a detection event, built left to right.
pub fn event_json(e: &MqttDetectionEvent) -> (v: Vec<u8>)
    requires
        e.wf(),
    ensures
        v@ == spec_event_json(*e),
{
    let mut out: Vec<u8> = Vec::new();
    push_str_bytes(&mut out, "{\"species\":\"");
    push_str_bytes(&mut out, e.species.as_str());
    push_str_bytes(&mut out, "\",\"confidence\":");
    push_frac(&mut out, e.confidence_centi);
    push_str_bytes(&mut out, ",\"bbox\":{\"x\":");
    push_dec(&mut out, e.bbox.x as u64);
    push_str_bytes(&mut out, ",\"y\":");
    push_dec(&mut out, e.bbox.y as u64);
    push_str_bytes(&mut out, ",\"w\":");
    push_dec(&mut out, e.bbox.w as u64);
    push_str_bytes(&mut out, ",\"h\":");
    push_dec(&mut out, e.bbox.h as u64);
    push_str_bytes(&mut out, "},\"timestamp\":");
    push_dec(&mut out, e.timestamp_ms);
    push_str_bytes(&mut out, ",\"led_color\":{\"r\":");
    push_dec(&mut out, e.led_color.r as u64);
    push_str_bytes(&mut out, ",\"g\":");
    push_dec(&mut out, e.led_color.g as u64);
    push_str_bytes(&mut out, ",\"b\":");
    push_dec(&mut out, e.led_color.b as u64);
    push_str_bytes(&mut out, "}}");
    proof {
        assert(out@ =~= spec_event_json(*e));
    }
    out
}

/// Writer that fills a fixed-size byte buffer front to back, refusing any
/// write that would overrun it. The buffer's length never changes.
pub struct SliceWriter {
    buf: Vec<u8>,
    pos: usize,
}

impl SliceWriter {
    pub closed spec fn buf_view(&self) -> Seq<u8> {
        self.buf@
    }

    pub closed spec fn spec_pos(&self) -> int {
        self.pos as int
    }

    pub open spec fn wf(&self) -> bool {
        self.spec_pos() <= self.buf_view().len()
    }

    /// Wrap a buffer; writing starts at its front.
    pub fn new(buf: Vec<u8>) -> (w: SliceWriter)
        ensures
            w.wf(),
            w.buf_view() == buf@,
            w.spec_pos() == 0,
    {
        SliceWriter { buf, pos: 0 }
    }

    pub fn pos(&self) -> (p: usize)
        ensures
            p == self.spec_pos(),
    {
        self.pos
    }

    /// Give the buffer back (for handing the filled prefix to a
    /// transport).
    pub fn into_buf(self) -> (b: Vec<u8>)
        ensures
            b@ == self.buf_view(),
    {
        self.buf
    }

    /// Write the bytes at the cursor if they fit; refuse and leave
    /// everything unchanged otherwise.
    pub fn write_bytes(&mut self, bytes: &Vec<u8>) -> (ok: bool)
        requires
            old(self).wf(),
        ensures
            final(self).wf(),
            final(self).buf_view().len() == old(self).buf_view().len(),
            if old(self).spec_pos() + bytes@.len() <= old(self).buf_view().len() {
                &&& ok
                &&& final(self).spec_pos() == old(self).spec_pos() + bytes@.len()
                &&& final(self).buf_view() == old(self).buf_view().subrange(
                    0,
                    old(self).spec_pos(),
                ) + bytes@ + old(self).buf_view().subrange(
                    old(self).spec_pos() + bytes@.len(),
                    old(self).buf_view().len() as int,
                )
            } else {
                &&& !ok
                &&& *final(self) == *old(self)
            },
    {
        let n = bytes.len();
        if n > self.buf.len() - self.pos {
            return false;
        }
        let start = self.pos;
        let mut i: usize = 0;
        while i < n
            invariant
                n == bytes@.len(),
                i <= n,
                start == old(self).spec_pos(),
                start + n <= self.buf@.len(),
                start + n <= usize::MAX,
                self.pos == start,
                self.buf@.len() == old(self).buf_view().len(),
                forall|j: int| 0 <= j < start ==> self.buf@[j] == old(self).buf_view()[j],
                forall|j: int| 0 <= j < i ==> self.buf@[start + j] == bytes@[j],
                forall|j: int| start + n <= j < self.buf@.len() ==> self.buf@[j] == old(
                    self,
                ).buf_view()[j],
            decreases n - i,
        {
            let b = bytes[i];
            self.buf.set(start + i, b);
            i = i + 1;
        }
        self.pos = start + n;
        proof {
            assert(self.buf_view() =~= old(self).buf_view().subrange(
                0,
                start as int,
            ) + bytes@ + old(self).buf_view().subrange(
                start + n,
                old(self).buf_view().len() as int,
            ));
        }
        true
    }

    /// Write a string's UTF-8 bytes, refusing on overrun.
    pub fn write_str(&mut self, s: &str) -> (ok: bool)
        requires
            old(self).wf(),
        ensures
            final(self).wf(),
            final(self).buf_view().len() == old(self).buf_view().len(),
            if old(self).spec_pos() + s.spec_bytes().len() <= old(self).buf_view().len() {
                &&& ok
                &&& final(self).spec_pos() == old(self).spec_pos() + s.spec_bytes().len()
                &&& final(self).buf_view() == old(self).buf_view().subrange(
                    0,
                    old(self).spec_pos(),
                ) + s.spec_bytes() + old(self).buf_view().subrange(
                    old(self).spec_pos() + s.spec_bytes().len(),
                    old(self).buf_view().len() as int,
                )
            } else {
                &&& !ok
                &&& *final(self) == *old(self)
            },
    {
        let bytes = s.as_bytes_vec();
        self.write_bytes(&bytes)
    }
}

/// Serialize a detection event as compact JSON into the front of a
/// fixed-size buffer. Returns how many bytes were written, or 0 when the
/// serialized event does not fit; a refused write leaves the buffer
/// untouched.
pub fn serialize_detection_event(event: &MqttDetectionEvent, buf: &mut Vec<u8>) -> (n: usize)
    requires
        event.wf(),
    ensures
        final(buf)@.len() == old(buf)@.len(),
        if spec_event_json(*event).len() <= old(buf)@.len() {
            &&& n == spec_event_json(*event).len()
            &&& final(buf)@.subrange(0, n as int) == spec_event_json(*event)
            &&& final(buf)@.subrange(n as int, final(buf)@.len() as int) == old(buf)@.subrange(
                n as int,
                old(buf)@.len() as int,
            )
        } else {
            &&& n == 0
            &&& final(buf)@ == old(buf)@
        },
{
    let json = event_json(event);
    let mut tmp: Vec<u8> = Vec::new();
    core::mem::swap(buf, &mut tmp);
    let mut writer = SliceWriter::new(tmp);
    let ok = writer.write_bytes(&json);
    let mut filled = writer.into_buf();
    core::mem::swap(buf, &mut filled);
    if ok {
        proof {
            assert(buf@.subrange(0, json@.len() as int) =~= json@);
            assert(buf@.subrange(json@.len() as int, buf@.len() as int)
                =~= old(buf)@.subrange(json@.len() as int, old(buf)@.len() as int));
        }
        json.len()
    } else {
        0
    }
}

} // verus!
