//! Color lookup, detection store, reactor, actuator and the end-to-end
//! detection scenario.

use bird_detection::{BoundingBox, Detection};
use bird_detection::colors::{bird_colors, health_colors, object_colors, sound_colors, RgbColor};
use bird_detection::detect_db::{detection_params, insert_sql, open_or_create, ColorDomain,
    SqlValue};
use bird_detection::labels::HealthStatus;
use bird_detection::led;
use bird_detection::network::{MQTT_TOPIC_DETECTIONS, MQTT_TOPIC_STATUS};
use bird_detection::reactor::{color_or_default, degraded_angles, degraded_indicator, react,
    RecordingCtl, StageAction, StageHealth};
use bird_detection::servo::PanTiltServos;
use bird_detection::companion;

fn gray() -> RgbColor {
    RgbColor { r: 128, g: 128, b: 128 }
}

#[test]
fn lookup_color_defaults_to_gray() {
    let health = health_colors();
    assert_eq!(health.lookup_color("Unknown"), gray());
    assert_eq!(health.lookup_color("NoSuchStatus"), gray());
    assert_eq!(health.lookup_color("Healthy"), RgbColor { r: 0, g: 230, b: 118 });
    let birds = bird_colors();
    assert_eq!(birds.lookup_color("European Robin"), RgbColor { r: 255, g: 69, b: 0 });
    assert_eq!(birds.lookup_color("Dodo"), gray());
    let objects = object_colors();
    assert_eq!(objects.lookup_color("Person"), RgbColor { r: 255, g: 234, b: 0 });
    let sounds = sound_colors();
    assert_eq!(sounds.lookup_color("GlassBreak"), RgbColor { r: 255, g: 23, b: 68 });
}

#[test]
fn label_enums_key_their_tables() {
    let health = health_colors();
    assert_eq!(
        health.lookup_color(HealthStatus::Diseased.label()),
        RgbColor { r: 255, g: 23, b: 68 }
    );
    assert_eq!(health.lookup_color(HealthStatus::Unknown.label()), gray());
}

#[test]
fn store_lookup_returns_seeded_colors_and_gray_on_miss() {
    let db = open_or_create(":memory:", ColorDomain::HealthStatuses).expect("open store");
    assert_eq!(db.get_led_color("Healthy").expect("lookup"), RgbColor { r: 0, g: 230, b: 118 });
    assert_eq!(db.get_led_color("Unknown").expect("lookup"), gray());
    assert_eq!(db.get_led_color("NoSuchStatus").expect("lookup"), gray());
}

#[test]
fn seed_tables_match_the_reactor_color_maps() {
    let birds = ColorDomain::BirdSpecies.seed_table();
    assert_eq!(birds.len(), 11);
    assert_eq!(birds.lookup_color("European Robin"), RgbColor { r: 255, g: 69, b: 0 });
    assert_eq!(birds.lookup_color("Unknown"), gray());
    let health = ColorDomain::HealthStatuses.seed_table();
    assert_eq!(health.len(), 5);
    assert_eq!(health.lookup_color("Healthy"), RgbColor { r: 0, g: 230, b: 118 });
    assert_eq!(
        ColorDomain::BirdSpecies.select_sql(),
        "SELECT r, g, b FROM bird_led_colors WHERE species = ?1"
    );
    assert_eq!(
        insert_sql(),
        "INSERT INTO detections (species, confidence, bbox_x, bbox_y, bbox_w, bbox_h, timestamp) VALUES (?1, ?2, ?3, ?4, ?5, ?6, ?7)"
    );
}

#[test]
fn detection_rows_carry_every_field() {
    let det = Detection {
        species: String::from("Goldfinch"),
        confidence_centi: 77,
        bbox: BoundingBox { x: 1, y: 2, w: 3, h: 4 },
        timestamp_ms: 99,
    };
    let p = detection_params(&det);
    assert_eq!(p.len(), 7);
    assert!(matches!(&p[0], SqlValue::Text(s) if s == "Goldfinch"));
    assert!(matches!(p[1], SqlValue::Int(77)));
    assert!(matches!(p[2], SqlValue::Int(1)));
    assert!(matches!(p[3], SqlValue::Int(2)));
    assert!(matches!(p[4], SqlValue::Int(3)));
    assert!(matches!(p[5], SqlValue::Int(4)));
    assert!(matches!(p[6], SqlValue::Int(99)));
}

#[test]
fn store_insert_accepts_detections() {
    let db = open_or_create(":memory:", ColorDomain::BirdSpecies).expect("open store");
    let det = Detection {
        species: String::from("Blue Tit"),
        confidence_centi: 88,
        bbox: BoundingBox { x: 10, y: 20, w: 30, h: 40 },
        timestamp_ms: 123456,
    };
    assert!(db.insert_detection(&det).is_ok());
}

#[test]
fn color_or_default_resolves_misses() {
    assert_eq!(color_or_default(None), gray());
    let c = RgbColor { r: 1, g: 2, b: 3 };
    assert_eq!(color_or_default(Some(c)), c);
}

#[test]
fn recording_debounce_starts_and_stops() {
    let mut rec = RecordingCtl::new(500);
    assert!(!rec.active);
    assert!(rec.on_detection(1000));
    assert!(rec.active);
    // A second detection keeps recording without restarting it.
    assert!(!rec.on_detection(1200));
    // Still inside the quiet window: no stop.
    assert!(!rec.tick(1600));
    assert!(rec.active);
    // The quiet window has passed: recording stops.
    assert!(rec.tick(1700));
    assert!(!rec.active);
    // A later detection triggers a new recording.
    assert!(rec.on_detection(3000));
}

#[test]
fn stage_failures_retry_then_degrade() {
    let mut health = StageHealth::new(3);
    assert_eq!(health.on_status(0), StageAction::Proceed);
    assert_eq!(health.on_status(-1), StageAction::Retry);
    assert_eq!(health.on_status(-1), StageAction::Retry);
    assert_eq!(health.on_status(-1), StageAction::Degrade);
    assert!(health.degraded);
}

#[test]
fn actuator_clamps_at_the_frame_corners() {
    // Extreme corners of the display frame, repeatedly tracked.
    let corners = [
        BoundingBox { x: 0, y: 0, w: 1, h: 1 },
        BoundingBox { x: 1919, y: 0, w: 1, h: 1 },
        BoundingBox { x: 0, y: 1079, w: 1, h: 1 },
        BoundingBox { x: 1919, y: 1079, w: 1, h: 1 },
    ];
    for corner in corners.iter() {
        let mut servos = PanTiltServos::new(0, 1);
        for _ in 0..100 {
            let (pan_pulse, tilt_pulse) = servos.track(corner);
            assert!(servos.current_pan_mdeg() >= -90_000);
            assert!(servos.current_pan_mdeg() <= 90_000);
            assert!(servos.current_tilt_mdeg() >= -45_000);
            assert!(servos.current_tilt_mdeg() <= 45_000);
            assert!((500..=2500).contains(&pan_pulse));
            assert!((500..=2500).contains(&tilt_pulse));
        }
    }
}

#[test]
fn repeated_detections_move_the_angle_monotonically() {
    // A box right of center: pan grows monotonically, never oscillates.
    let b = BoundingBox { x: 1400, y: 500, w: 100, h: 80 };
    let mut servos = PanTiltServos::new(0, 1);
    let mut last_pan = servos.current_pan_mdeg();
    for _ in 0..50 {
        servos.track(&b);
        let pan = servos.current_pan_mdeg();
        assert!(pan >= last_pan);
        assert!(pan <= 90_000);
        last_pan = pan;
    }
}

#[test]
fn centered_detection_leaves_the_actuator_still() {
    // Center exactly on the frame center: no movement at all.
    let b = BoundingBox { x: 900, y: 495, w: 120, h: 90 };
    let mut servos = PanTiltServos::new(0, 1);
    servos.track(&b);
    assert_eq!(servos.current_pan_mdeg(), 0);
    assert_eq!(servos.current_tilt_mdeg(), 0);
}

#[test]
fn servo_pulses_match_the_angle_range() {
    let mut servos = PanTiltServos::new(0, 1);
    assert_eq!(servos.set_pan(0), 1500);
    assert_eq!(servos.set_pan(-90_000), 500);
    assert_eq!(servos.set_pan(90_000), 2500);
    assert_eq!(servos.set_tilt(0), 1500);
    assert_eq!(servos.set_tilt(-45_000), 500);
    assert_eq!(servos.set_tilt(45_000), 2500);
}

#[test]
fn degraded_state_is_dark_and_centered() {
    assert_eq!(degraded_indicator(), RgbColor { r: 0, g: 0, b: 0 });
    assert_eq!(degraded_angles(), (0, 0));
}

#[test]
fn companion_link_gates_the_transport() {
    let mut link = companion::init();
    assert!(!link.is_connected());
    link.link_established();
    assert!(link.is_connected());
    link.note_alert_sent();
    link.note_chunk_streamed();
    link.link_lost();
    assert!(!link.is_connected());
}

#[test]
fn mqtt_topics_are_stable() {
    assert_eq!(MQTT_TOPIC_DETECTIONS, "riscvml/bird-detection/detections");
    assert_eq!(MQTT_TOPIC_STATUS, "riscvml/bird-detection/status");
}

#[test]
fn three_robins_light_the_indicator_and_leave_the_actuator_centered() {
    // A synthetic stream of three "European Robin" detections at
    // confidence 0.90, 0.92, 0.94, each centered on the frame.
    let db = open_or_create(":memory:", ColorDomain::BirdSpecies).expect("open store");
    let mut led = led::init(0, 1, 2);
    let mut servos = PanTiltServos::new(0, 1);
    let mut rec = RecordingCtl::new(1000);
    let robin = RgbColor { r: 255, g: 69, b: 0 };
    let mut logged = 0u32;
    for (i, conf) in [90u8, 92, 94].iter().enumerate() {
        let det = Detection {
            species: String::from("European Robin"),
            confidence_centi: *conf,
            bbox: BoundingBox { x: 900, y: 495, w: 120, h: 90 },
            timestamp_ms: 1000 + 33 * i as u64,
        };
        if db.insert_detection(&det).is_ok() {
            logged += 1;
        }
        let color = db.get_led_color(det.species.as_str()).expect("lookup");
        let step = react(&det, Some(color), &mut rec);
        led.set_color(step.led_color);
        assert_eq!(led.current_color(), robin);
        assert_eq!(step.overlay_box, det.bbox);
        assert_eq!(step.recording_started, i == 0);
        servos.track(&step.overlay_box);
    }
    assert_eq!(logged, 3);
    // Centered detections leave only a negligible residual error.
    assert_eq!(servos.current_pan_mdeg(), 0);
    assert_eq!(servos.current_tilt_mdeg(), 0);
}
