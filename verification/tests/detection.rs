use beat_hard_combat::detection::decode_frame;
use beat_hard_combat::detection::determine_limb_type_by_pattern;
use beat_hard_combat::detection::parse_imu_data;
use beat_hard_combat::detection::SimpleEventDetector;
use beat_hard_combat::errors::BleError;
use beat_hard_combat::types::CompetitorInfo;
use beat_hard_combat::types::EventKind;
use beat_hard_combat::types::ImuData;
use beat_hard_combat::types::LimbType;
use beat_hard_combat::types::SimpleDetectionConfig;

fn frame_bytes(
    limb_id: u8,
    battery: u8,
    acc: (i16, i16, i16),
    gyro: (i16, i16, i16),
) -> Vec<u8> {
    let mut bytes = vec![limb_id, battery];
    for v in [acc.0, acc.1, acc.2, gyro.0, gyro.1, gyro.2] {
        let le = v.to_le_bytes();
        bytes.push(le[0]);
        bytes.push(le[1]);
    }
    bytes
}

fn competitor(id: u8, name: &str, weight_g: u64) -> CompetitorInfo {
    CompetitorInfo { id, name: name.to_string(), weight_g }
}

#[test]
fn decode_rejects_short_frames() {
    for len in 0..14usize {
        let bytes = vec![0u8; len];
        assert_eq!(decode_frame(&bytes, 42), Err(BleError::IncompleteFrame));
        assert_eq!(parse_imu_data(&bytes), Err(BleError::IncompleteFrame));
    }
}

#[test]
fn decode_reads_little_endian_fields() {
    let bytes = frame_bytes(3, 87, (1500, -2, 100), (-32768, 32767, 0));
    let d = decode_frame(&bytes, 777).unwrap();
    assert_eq!(d.limb_id, 3);
    assert_eq!(d.battery_level, 87);
    assert_eq!(d.acc_x, 1500);
    assert_eq!(d.acc_y, -2);
    assert_eq!(d.acc_z, 100);
    assert_eq!(d.gyro_x, -32768);
    assert_eq!(d.gyro_y, 32767);
    assert_eq!(d.gyro_z, 0);
    assert_eq!(d.timestamp, 777);
}

#[test]
fn decode_is_deterministic_and_ignores_trailing_bytes() {
    let mut bytes = frame_bytes(1, 50, (10, 20, 30), (40, 50, 60));
    bytes.extend_from_slice(&[9, 9, 9]);
    let a = decode_frame(&bytes, 5).unwrap();
    let b = decode_frame(&bytes, 5).unwrap();
    assert_eq!(a.acc_x, b.acc_x);
    assert_eq!(a.gyro_z, b.gyro_z);
    assert_eq!(a.limb_id, b.limb_id);
}

#[test]
fn limb_patterns_resolve_device_names() {
    assert_eq!(
        determine_limb_type_by_pattern("BH-ManoDerecha_54c2e6cf"),
        LimbType::RightHand
    );
    assert_eq!(determine_limb_type_by_pattern("BH-ManoIzquierda"), LimbType::LeftHand);
    assert_eq!(determine_limb_type_by_pattern("BH-PiernaIzquierda_1"), LimbType::LeftFoot);
    assert_eq!(determine_limb_type_by_pattern("BH-PiernaDerecha_2"), LimbType::RightFoot);
    // Unrecognized names fall back to the left hand.
    assert_eq!(determine_limb_type_by_pattern("BH-Unknown"), LimbType::LeftHand);
}

#[test]
fn limb_ids_and_names() {
    assert_eq!(LimbType::from_id(1), Some(LimbType::RightHand));
    assert_eq!(LimbType::from_id(2), Some(LimbType::LeftHand));
    assert_eq!(LimbType::from_id(3), Some(LimbType::RightFoot));
    assert_eq!(LimbType::from_id(4), Some(LimbType::LeftFoot));
    assert_eq!(LimbType::from_id(0), None);
    assert_eq!(LimbType::from_id(5), None);
    assert_eq!(LimbType::LeftHand.name(), "Mano Izquierda");
    assert_eq!(LimbType::RightFoot.name(), "Pierna Derecha");
    assert_eq!(LimbType::RightHand.ble_name_pattern(), "ManoDerecha");
}

#[test]
fn event_kind_labels() {
    assert_eq!(EventKind::Slap.label(), "slap");
    assert_eq!(EventKind::LowKick.label(), "low_kick");
}

#[test]
fn detector_without_competitor_stays_silent() {
    let mut detector = SimpleEventDetector::new(LimbType::RightHand);
    let sample = ImuData {
        limb_id: 1,
        battery_level: 90,
        acc_x: 1500,
        acc_y: 0,
        acc_z: 0,
        gyro_x: 10000,
        gyro_y: 0,
        gyro_z: 0,
        timestamp: 1000,
    };
    assert!(detector.detect_event(&sample).is_none());
}

// A hand sample of acceleration magnitude 1.5 g and angular rate 40 dps:
// with the default scales the raw axes (1500, 0, 0) are 1500 milli-g, and
// (10000, 0, 0) raw gyro counts are 40000 milli-dps.
#[test]
fn hand_slap_with_saturated_confidence() {
    let mut detector = SimpleEventDetector::new(LimbType::RightHand);
    detector.set_competitor_info(competitor(1, "Ana", 70_000));
    let sample = ImuData {
        limb_id: 1,
        battery_level: 90,
        acc_x: 1500,
        acc_y: 0,
        acc_z: 0,
        gyro_x: 10000,
        gyro_y: 0,
        gyro_z: 0,
        timestamp: 1000,
    };
    let event = detector.detect_event(&sample).expect("a slap");
    assert_eq!(event.event_type, EventKind::Slap);
    // min(1, (1.5 - 0.8) / 2 + (40 - 3) / 50) = min(1, 0.35 + 0.74) = 1.
    assert_eq!(event.confidence_micro, 1_000_000);
    assert_eq!(event.limb_name, "Mano Derecha");
    assert_eq!(event.competitor_id, 1);
    assert_eq!(event.competitor_name, "Ana");
    assert_eq!(event.timestamp, 1000);
    // intensity = min(2.0, 1.5 / 2) = 0.75; velocity = 10 m/s * 0.75.
    assert_eq!(event.velocity_mm_s, 7_500);
    // 1.5 g in millimetres per second squared.
    assert_eq!(event.acceleration_mm_s2, 14_715);
    // limb mass 70 kg * 2.7% = 1.89 kg; force = 1.89 * 14.715 * 1.8 kN-ish,
    // in millinewtons with the fixed-point roundings: 50060.
    assert_eq!(event.force_mn, 50_060);
}

// A foot sample of magnitude 0.9 g with z at 0.1 g and 5 dps of rotation:
// raw acc (895, 0, 100) has scaled magnitude isqrt(895^2 + 100^2) = 900.
#[test]
fn foot_low_kick_confidence() {
    let mut detector = SimpleEventDetector::new(LimbType::LeftFoot);
    detector.set_competitor_info(competitor(2, "Benat", 70_000));
    let sample = ImuData {
        limb_id: 4,
        battery_level: 80,
        acc_x: 895,
        acc_y: 0,
        acc_z: 100,
        gyro_x: 1250,
        gyro_y: 0,
        gyro_z: 0,
        timestamp: 1000,
    };
    let event = detector.detect_event(&sample).expect("a low kick");
    assert_eq!(event.event_type, EventKind::LowKick);
    // min(1, (0.9 - 0.8) / 3) = 0.033333 -> 33333 millionths.
    assert_eq!(event.confidence_micro, 33_333);
    assert_eq!(event.limb_name, "Pierna Izquierda");
    // intensity = min(2.0, 0.9 / 2) = 0.45; velocity = 15 m/s * 0.45.
    assert_eq!(event.velocity_mm_s, 6_750);
    assert_eq!(event.acceleration_mm_s2, 8_829);
    // limb mass 70 kg * 6.2% = 4.34 kg.
    assert_eq!(event.force_mn, 68_972);
}

// The same detector immediately afterwards: 100 ms < the 500 ms cooldown,
// so an equally qualifying sample produces nothing.
#[test]
fn cooldown_suppresses_back_to_back_events() {
    let mut detector = SimpleEventDetector::new(LimbType::LeftFoot);
    detector.set_competitor_info(competitor(2, "Benat", 70_000));
    let sample = ImuData {
        limb_id: 4,
        battery_level: 80,
        acc_x: 895,
        acc_y: 0,
        acc_z: 100,
        gyro_x: 1250,
        gyro_y: 0,
        gyro_z: 0,
        timestamp: 1000,
    };
    assert!(detector.detect_event(&sample).is_some());
    let again = ImuData { timestamp: 1100, ..sample };
    assert!(detector.detect_event(&again).is_none());
    // Once the cooldown has passed, events flow again.
    let later = ImuData { timestamp: 1500, ..sample };
    assert!(detector.detect_event(&later).is_some());
}

#[test]
fn confidence_is_clamped_for_extreme_magnitudes() {
    let mut detector = SimpleEventDetector::new(LimbType::RightHand);
    detector.set_competitor_info(competitor(1, "Ana", 70_000));
    let sample = ImuData {
        limb_id: 1,
        battery_level: 90,
        acc_x: 32767,
        acc_y: 32767,
        acc_z: -32768,
        gyro_x: 32767,
        gyro_y: -32768,
        gyro_z: 32767,
        timestamp: 1000,
    };
    let event = detector.detect_event(&sample).expect("a slap");
    assert!(event.confidence_micro <= 1_000_000);
    assert_eq!(event.confidence_micro, 1_000_000);
}

#[test]
fn foot_rejects_high_gyro_and_high_z() {
    let mut detector = SimpleEventDetector::new(LimbType::RightFoot);
    detector.set_competitor_info(competitor(2, "Benat", 70_000));
    // Angular rate above the ceiling (11 dps > 10 dps): not a low kick.
    let spinning = ImuData {
        limb_id: 3,
        battery_level: 80,
        acc_x: 900,
        acc_y: 0,
        acc_z: 0,
        gyro_x: 2750,
        gyro_y: 0,
        gyro_z: 0,
        timestamp: 1000,
    };
    assert!(detector.detect_event(&spinning).is_none());
    // z-axis above the ceiling (0.3 g > 0.2 g): a rising kick, excluded.
    let rising = ImuData {
        limb_id: 3,
        battery_level: 80,
        acc_x: 850,
        acc_y: 0,
        acc_z: 300,
        gyro_x: 0,
        gyro_y: 0,
        gyro_z: 0,
        timestamp: 1000,
    };
    assert!(detector.detect_event(&rising).is_none());
}

#[test]
fn hand_rejects_below_thresholds() {
    let mut detector = SimpleEventDetector::new(LimbType::LeftHand);
    detector.set_competitor_info(competitor(1, "Ana", 70_000));
    // Strong acceleration but almost no rotation: not a slap.
    let push = ImuData {
        limb_id: 2,
        battery_level: 90,
        acc_x: 1500,
        acc_y: 0,
        acc_z: 0,
        gyro_x: 100,
        gyro_y: 0,
        gyro_z: 0,
        timestamp: 1000,
    };
    assert!(detector.detect_event(&push).is_none());
}

#[test]
fn custom_config_changes_thresholds() {
    let config = SimpleDetectionConfig {
        slap_min_acc_mg: 2000,
        ..SimpleDetectionConfig::default()
    };
    let mut detector = SimpleEventDetector::with_config(LimbType::RightHand, config);
    detector.set_competitor_info(competitor(1, "Ana", 70_000));
    let sample = ImuData {
        limb_id: 1,
        battery_level: 90,
        acc_x: 1500,
        acc_y: 0,
        acc_z: 0,
        gyro_x: 10000,
        gyro_y: 0,
        gyro_z: 0,
        timestamp: 1000,
    };
    // 1.5 g no longer clears the raised 2 g floor.
    assert!(detector.detect_event(&sample).is_none());
}

#[test]
fn default_config_matches_the_tuned_values() {
    let c = SimpleDetectionConfig::default();
    assert_eq!(c.acc_scale, 1000);
    assert_eq!(c.gyro_scale, 250);
    assert_eq!(c.slap_min_acc_mg, 800);
    assert_eq!(c.slap_min_gyro_mdps, 3000);
    assert_eq!(c.kick_min_acc_mg, 800);
    assert_eq!(c.kick_max_gyro_mdps, 10_000);
    assert_eq!(c.kick_max_acc_z_mg, 200);
    assert_eq!(c.hand_base_velocity_mm_s, 10_000);
    assert_eq!(c.foot_base_velocity_mm_s, 15_000);
    assert_eq!(c.hand_mass_permille, 27);
    assert_eq!(c.foot_mass_permille, 62);
    assert_eq!(c.joint_stiffness_milli, 1800);
    assert_eq!(c.cooldown_ms, 500);
}

#[test]
fn parse_imu_data_stamps_a_host_timestamp() {
    let bytes = frame_bytes(1, 50, (10, 20, 30), (40, 50, 60));
    let d = parse_imu_data(&bytes).unwrap();
    assert_eq!(d.acc_y, 20);
    // The host clock stands well past the epoch.
    assert!(d.timestamp > 0);
}
