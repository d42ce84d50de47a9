//! Serialization, chunk buffering, detection post-processing and device
//! configuration defaults.

use bird_detection::{BoundingBox, Detection};
use bird_detection::camera::{camera_init_config, CsiConfig};
use bird_detection::colors::RgbColor;
use bird_detection::display::DisplayConfig;
use bird_detection::encoder::{ChunkBuffer, ChunkPushOutcome, EncodedChunk, EncoderConfig,
    H264Encoder};
use bird_detection::geometry::scale_coord;
use bird_detection::hal::{status_to_result, DmaChannel, HardwareStage};
use bird_detection::pool::FramePool;
use bird_detection::inference::{Model, RawDetection};
use bird_detection::isp::{isp_init_outcome, IspConfig};
use bird_detection::led::duty_for;
use bird_detection::network::{event_json, serialize_detection_event, MqttDetectionEvent,
    SliceWriter, RTSP_PORT};

#[test]
fn detection_event_serializes_to_exact_json() {
    let event = MqttDetectionEvent {
        species: String::from("European Robin"),
        confidence_centi: 94,
        bbox: BoundingBox { x: 320, y: 180, w: 120, h: 95 },
        timestamp_ms: 1735689600000,
        led_color: RgbColor { r: 255, g: 69, b: 0 },
    };
    let json = event_json(&event);
    let expected = r#"{"species":"European Robin","confidence":0.94,"bbox":{"x":320,"y":180,"w":120,"h":95},"timestamp":1735689600000,"led_color":{"r":255,"g":69,"b":0}}"#;
    assert_eq!(json.as_slice(), expected.as_bytes());
}

#[test]
fn full_confidence_serializes_as_one() {
    let event = MqttDetectionEvent {
        species: String::from("Jay"),
        confidence_centi: 100,
        bbox: BoundingBox { x: 0, y: 0, w: 1, h: 1 },
        timestamp_ms: 7,
        led_color: RgbColor { r: 180, g: 130, b: 200 },
    };
    let json = event_json(&event);
    let expected =
        r#"{"species":"Jay","confidence":1.00,"bbox":{"x":0,"y":0,"w":1,"h":1},"timestamp":7,"led_color":{"r":180,"g":130,"b":200}}"#;
    assert_eq!(json.as_slice(), expected.as_bytes());
}

#[test]
fn serialize_fills_the_buffer_or_refuses() {
    let event = MqttDetectionEvent {
        species: String::from("Blue Tit"),
        confidence_centi: 75,
        bbox: BoundingBox { x: 5, y: 6, w: 7, h: 8 },
        timestamp_ms: 42,
        led_color: RgbColor { r: 0, g: 120, b: 255 },
    };
    let json = event_json(&event);
    let mut buf = vec![0u8; 256];
    let n = serialize_detection_event(&event, &mut buf);
    assert_eq!(n, json.len());
    assert_eq!(&buf[..n], json.as_slice());
    assert!(buf[n..].iter().all(|b| *b == 0));
    // A buffer that cannot hold the payload is left untouched.
    let mut small = vec![9u8; 10];
    assert_eq!(serialize_detection_event(&event, &mut small), 0);
    assert!(small.iter().all(|b| *b == 9));
}

#[test]
fn slice_writer_refuses_overruns() {
    let mut w = SliceWriter::new(vec![0u8; 5]);
    assert!(w.write_str("abc"));
    assert_eq!(w.pos(), 3);
    // Would overrun: refused, position unchanged.
    assert!(!w.write_str("defg"));
    assert_eq!(w.pos(), 3);
    assert!(w.write_str("de"));
    assert_eq!(w.into_buf(), b"abcde");
}

#[test]
fn chunk_buffer_evicts_oldest_non_keyframe_only() {
    let chunk = |tag: u8, key: bool| EncodedChunk {
        data: vec![tag],
        is_keyframe: key,
        timestamp_ms: tag as u64,
    };
    let mut buf = ChunkBuffer::new(3);
    assert_eq!(buf.push(chunk(1, true)), ChunkPushOutcome::Stored);
    assert_eq!(buf.push(chunk(2, false)), ChunkPushOutcome::Stored);
    assert_eq!(buf.push(chunk(3, false)), ChunkPushOutcome::Stored);
    // Full: the oldest non-keyframe (tag 2) makes room; the keyframe stays.
    assert_eq!(buf.push(chunk(4, false)), ChunkPushOutcome::EvictedOldest);
    let first = buf.pop().expect("first chunk");
    assert!(first.is_keyframe);
    assert_eq!(first.data, vec![1]);
    assert_eq!(buf.pop().expect("second").data, vec![3]);
    assert_eq!(buf.pop().expect("third").data, vec![4]);
    assert!(buf.pop().is_none());
}

#[test]
fn chunk_buffer_full_of_keyframes_refuses_newcomers() {
    let chunk = |tag: u8, key: bool| EncodedChunk {
        data: vec![tag],
        is_keyframe: key,
        timestamp_ms: tag as u64,
    };
    let mut buf = ChunkBuffer::new(2);
    assert_eq!(buf.push(chunk(1, true)), ChunkPushOutcome::Stored);
    assert_eq!(buf.push(chunk(2, true)), ChunkPushOutcome::Stored);
    assert_eq!(buf.push(chunk(3, false)), ChunkPushOutcome::Refused);
    assert_eq!(buf.push(chunk(4, true)), ChunkPushOutcome::Refused);
    assert_eq!(buf.pop().expect("first").data, vec![1]);
    assert_eq!(buf.pop().expect("second").data, vec![2]);
}

#[test]
fn postprocess_filters_rescales_and_labels() {
    let labels = vec![String::from("European Robin"), String::from("Blue Tit")];
    let model = Model::new(labels, 60);
    let raws = vec![
        // Kept: class 0, confident, centered quarter-size box.
        RawDetection {
            class_index: 0,
            confidence_centi: 90,
            bbox: BoundingBox { x: 80, y: 80, w: 160, h: 160 },
        },
        // Filtered out: below the 0.60 threshold.
        RawDetection {
            class_index: 1,
            confidence_centi: 59,
            bbox: BoundingBox { x: 0, y: 0, w: 10, h: 10 },
        },
        // Kept: unknown class index maps to the "Unknown" label.
        RawDetection {
            class_index: 7,
            confidence_centi: 61,
            bbox: BoundingBox { x: 0, y: 0, w: 320, h: 320 },
        },
    ];
    let dets = model.detect(&raws, 5000);
    assert_eq!(dets.len(), 2);
    assert_eq!(dets[0].species, "European Robin");
    assert_eq!(dets[0].confidence_centi, 90);
    // 80 of 320 maps to 480 of 1920 and 270 of 1080; 160 maps to 960/540.
    assert_eq!(dets[0].bbox, BoundingBox { x: 480, y: 270, w: 960, h: 540 });
    assert_eq!(dets[0].timestamp_ms, 5000);
    assert_eq!(dets[1].species, "Unknown");
    assert_eq!(dets[1].bbox, BoundingBox { x: 0, y: 0, w: 1920, h: 1080 });
}

#[test]
fn published_boxes_stay_inside_the_display_frame() {
    let model = Model::new(vec![String::from("European Robin")], 60);
    let raws = vec![
        // A box whose far edge touches the model frame's bottom: the
        // published far edge must not cross the display frame's bottom.
        RawDetection {
            class_index: 0,
            confidence_centi: 90,
            bbox: BoundingBox { x: 100, y: 4, w: 60, h: 316 },
        },
        // A candidate lying outside the model frame as a box is not a
        // detection at all.
        RawDetection {
            class_index: 0,
            confidence_centi: 99,
            bbox: BoundingBox { x: 320, y: 0, w: 320, h: 10 },
        },
    ];
    let dets = model.detect(&raws, 1);
    assert_eq!(dets.len(), 1);
    let b = dets[0].bbox;
    // Near edges round to nearest; the far edge is mapped, not the width.
    assert_eq!((b.y, b.h), (14, 1066));
    assert!(u32::from(b.x) + u32::from(b.w) <= 1920);
    assert!(u32::from(b.y) + u32::from(b.h) <= 1080);
}

#[test]
fn one_frame_yields_at_most_eight_detections() {
    let model = Model::new(vec![String::from("European Robin")], 60);
    let raw = RawDetection {
        class_index: 0,
        confidence_centi: 95,
        bbox: BoundingBox { x: 10, y: 10, w: 50, h: 50 },
    };
    let raws = vec![raw; 12];
    let dets = model.detect(&raws, 1);
    assert_eq!(dets.len(), 8);
    assert!(dets.iter().all(|d| d.species == "European Robin"));
}

#[test]
fn coordinate_rescale_round_trips_within_one_pixel() {
    // Model input axis (320) up to the display axis (1920) and back.
    for v in [0u32, 1, 7, 100, 159, 160, 319, 320] {
        let up = scale_coord(v, 320, 1920);
        let back = scale_coord(up as u32, 1920, 320);
        let diff = (back as i64 - v as i64).abs();
        assert!(diff <= 1, "round trip moved {v} to {back}");
    }
    // And across a non-integer ratio.
    for v in 0u32..=240 {
        let up = scale_coord(v, 240, 1024);
        let back = scale_coord(up as u32, 1024, 240);
        assert!((back as i64 - v as i64).abs() <= 1);
    }
    assert_eq!(scale_coord(100, 320, 1920), 600);
    assert_eq!(scale_coord(160, 320, 1080), 540);
}

#[test]
fn device_defaults_match_the_fitted_hardware() {
    let cam = CsiConfig::default();
    assert_eq!(
        (cam.lanes, cam.clock_freq_hz, cam.frame_width, cam.frame_height),
        (2, 80_000_000, 1920, 1080)
    );
    let disp = DisplayConfig::default();
    assert_eq!((disp.width, disp.height, disp.refresh_hz, disp.dsi_lanes), (1024, 600, 60, 2));
    let enc = EncoderConfig::default();
    assert_eq!(
        (enc.width, enc.height, enc.fps, enc.bitrate_kbps, enc.gop_size),
        (1920, 1080, 30, 4000, 30)
    );
    let isp = IspConfig::default();
    assert!(isp.awb_enabled && isp.ae_enabled);
    assert_eq!(isp.ae_target_brightness, 128);
    assert_eq!(
        isp.color_correction_matrix,
        [[1000, 0, 0], [0, 1000, 0], [0, 0, 1000]]
    );
    let h264 = bird_detection::encoder::h264_init_config(1920, 1080, 30);
    assert_eq!((h264.width, h264.height, h264.fps, h264.bitrate, h264.gop), (1920, 1080, 30, 4000, 30));
    let reg = camera_init_config(1920, 1080);
    assert_eq!((reg.width, reg.height, reg.lanes, reg.clock_freq), (1920, 1080, 2, 80_000_000));
    assert_eq!(RTSP_PORT, 8554);
}

#[test]
fn encoder_recording_toggles() {
    let mut enc = H264Encoder::new(EncoderConfig::default());
    assert!(!enc.is_recording());
    enc.start_recording();
    assert!(enc.is_recording());
    enc.stop_recording();
    assert!(!enc.is_recording());
}

#[test]
fn status_codes_map_to_results() {
    assert_eq!(status_to_result(0), Ok(()));
    assert_eq!(status_to_result(-261), Err(-261));
    assert_eq!(isp_init_outcome(0, 0), Ok(()));
    assert_eq!(isp_init_outcome(-1, 0), Err(-1));
    assert_eq!(isp_init_outcome(0, -2), Err(-2));
}

#[test]
fn hardware_stage_round_trips_the_buffer() {
    let mut pool = FramePool::new(2, 4, 4, 4);
    let mut stage = HardwareStage::new(7);
    let handle = pool.acquire().expect("acquire");
    let slot = handle.slot();
    let op = stage.submit(handle);
    // The buffer comes back from the same device with the same identity.
    let handle = stage.await_completion(op);
    assert_eq!(handle.slot(), slot);
    pool.release(handle);
    // The device is idle again and accepts the next operation.
    let next = pool.acquire().expect("reacquire");
    let op = stage.submit(next);
    let next = stage.await_completion(op);
    pool.release(next);
}

#[test]
fn dma_channel_runs_one_transfer_at_a_time() {
    let mut chan = DmaChannel::new(0);
    let data = [0u8; 16];
    let transfer = chan.start_transfer(&data);
    assert_eq!(transfer.len(), 16);
    transfer.wait(&mut chan);
    let again = chan.start_transfer(&data);
    again.wait(&mut chan);
}

#[test]
fn pwm_duty_scales_channel_values() {
    assert_eq!(duty_for(255, 8191), 8191);
    assert_eq!(duty_for(0, 8191), 0);
    assert_eq!(duty_for(128, 255), 128);
    assert_eq!(duty_for(69, 8191), 69 * 8191 / 255);
}
