//! Frame decoding and combat-event detection.
//!
//! A sensor frame is at least 14 bytes, little-endian:
//! `[limb_id:u8][battery:u8][acc_x:i16][acc_y:i16][acc_z:i16]`
//! `[gyro_x:i16][gyro_y:i16][gyro_z:i16]`.
//! The arrival timestamp is stamped by the host clock at decode time; the
//! sensor does not transmit one.

use std::time::SystemTime;
use std::time::UNIX_EPOCH;
use vstd::prelude::*;
use vstd::slice::slice_index_get;
use crate::errors::BleError;
use crate::errors::BleResult;
use crate::math::isqrt;
use crate::math::isqrt64;
use crate::math::min_i;
use crate::strutil::str_contains;
use crate::strutil::str_contains_spec;
use crate::types::default_config;
use crate::types::limb_display_name;
use crate::types::CompetitorInfo;
use crate::types::EventKind;
use crate::types::ImuData;
use crate::types::LimbType;
use crate::types::SimpleCombatEvent;
use crate::types::SimpleDetectionConfig;

verus! {

/// The signed 16-bit value that two little-endian bytes encode.
pub open spec fn le_i16_spec(b0: u8, b1: u8) -> int {
    let n = b0 + 256 * b1;
    if n < 32768 {
        n as int
    } else {
        n - 65536
    }
}

/// Reads a little-endian signed 16-bit value from two bytes.
fn le_i16(b0: u8, b1: u8) -> (r: i16)
    ensures
        r as int == le_i16_spec(b0, b1),
{
    let n: u32 = b0 as u32 + 256 * (b1 as u32);
    if n < 32768 {
        n as i16
    } else {
        ((n as i32) - 65536) as i16
    }
}

/// The frame that a complete byte sequence decodes to, stamped with the
/// given arrival time.
pub open spec fn decoded_frame(bytes: Seq<u8>, timestamp: u64) -> ImuData
    recommends
        bytes.len() >= 14,
{
    ImuData {
        limb_id: bytes[0],
        battery_level: bytes[1],
        acc_x: le_i16_spec(bytes[2], bytes[3]) as i16,
        acc_y: le_i16_spec(bytes[4], bytes[5]) as i16,
        acc_z: le_i16_spec(bytes[6], bytes[7]) as i16,
        gyro_x: le_i16_spec(bytes[8], bytes[9]) as i16,
        gyro_y: le_i16_spec(bytes[10], bytes[11]) as i16,
        gyro_z: le_i16_spec(bytes[12], bytes[13]) as i16,
        timestamp,
    }
}

/// Decodes one sensor frame, stamping it with the given arrival time.
/// Total and deterministic: every sequence of at least 14 bytes decodes
/// to exactly `decoded_frame` of the input, and every shorter one is
/// rejected as incomplete.
pub fn decode_frame(data: &[u8], timestamp: u64) -> (r: BleResult<ImuData>)
    ensures
        r is Err <==> data@.len() < 14,
        r is Err ==> r == BleResult::<ImuData>::Err(BleError::IncompleteFrame),
        r matches Ok(d) ==> d == decoded_frame(data@, timestamp),
{
    if data.len() < 14 {
        return Err(BleError::IncompleteFrame);
    }
    Ok(
        ImuData {
            limb_id: *slice_index_get(data, 0),
            battery_level: *slice_index_get(data, 1),
            acc_x: le_i16(*slice_index_get(data, 2), *slice_index_get(data, 3)),
            acc_y: le_i16(*slice_index_get(data, 4), *slice_index_get(data, 5)),
            acc_z: le_i16(*slice_index_get(data, 6), *slice_index_get(data, 7)),
            gyro_x: le_i16(*slice_index_get(data, 8), *slice_index_get(data, 9)),
            gyro_y: le_i16(*slice_index_get(data, 10), *slice_index_get(data, 11)),
            gyro_z: le_i16(*slice_index_get(data, 12), *slice_index_get(data, 13)),
            timestamp,
        },
    )
}

/// Relies on std::time::SystemTime::now, read as milliseconds since the
/// Unix epoch (zero if the clock stands before the epoch).  Nothing can
/// be promised of a clock reading.
#[verifier::external_body]
fn now_millis() -> u64 {
    SystemTime::now()
        .duration_since(UNIX_EPOCH)
        .map(|d| d.as_millis() as u64)
        .unwrap_or(0)
}

/// Decodes one sensor frame, stamping it with the current host time.
pub fn parse_imu_data(data: &[u8]) -> (r: BleResult<ImuData>)
    ensures
        r is Err <==> data@.len() < 14,
        r is Err ==> r == BleResult::<ImuData>::Err(BleError::IncompleteFrame),
        r matches Ok(d) ==> d == decoded_frame(data@, d.timestamp),
{
    let timestamp = now_millis();
    decode_frame(data, timestamp)
}

/// The limb role that an advertised device name denotes: the first of
/// the four limb patterns that occurs in the name, left hand by default.
pub open spec fn limb_for_device_name(name: Seq<char>) -> LimbType {
    if str_contains_spec(name, "ManoIzquierda"@) {
        LimbType::LeftHand
    } else if str_contains_spec(name, "ManoDerecha"@) {
        LimbType::RightHand
    } else if str_contains_spec(name, "PiernaIzquierda"@) {
        LimbType::LeftFoot
    } else if str_contains_spec(name, "PiernaDerecha"@) {
        LimbType::RightFoot
    } else {
        LimbType::LeftHand
    }
}

/// Determines the limb role from an advertised device name.
pub fn determine_limb_type_by_pattern(device_name: &str) -> (r: LimbType)
    ensures
        r == limb_for_device_name(device_name@),
{
    if str_contains(device_name, "ManoIzquierda") {
        LimbType::LeftHand
    } else if str_contains(device_name, "ManoDerecha") {
        LimbType::RightHand
    } else if str_contains(device_name, "PiernaIzquierda") {
        LimbType::LeftFoot
    } else if str_contains(device_name, "PiernaDerecha") {
        LimbType::RightFoot
    } else {
        LimbType::LeftHand
    }
}

// ---------------------------------------------------------------------
// Fixed-point conversion and magnitudes
// ---------------------------------------------------------------------

/// A raw axis reading scaled to milli-units (raw counts divided by the
/// per-unit scale), truncating toward zero.
pub open spec fn scaled_milli(raw: int, scale: int) -> int
    recommends
        scale >= 1,
{
    if raw >= 0 {
        raw * 1000 / scale
    } else {
        -((-raw) * 1000 / scale)
    }
}

/// Euclidean magnitude of a three-axis vector, rounded down.
pub open spec fn vector_magnitude_milli(x: int, y: int, z: int) -> int {
    isqrt(x * x + y * y + z * z)
}

/// Acceleration magnitude of a sample in milli-g.
pub open spec fn acc_magnitude_mg(d: ImuData, cfg: SimpleDetectionConfig) -> int {
    vector_magnitude_milli(
        scaled_milli(d.acc_x as int, cfg.acc_scale as int),
        scaled_milli(d.acc_y as int, cfg.acc_scale as int),
        scaled_milli(d.acc_z as int, cfg.acc_scale as int),
    )
}

/// Angular-rate magnitude of a sample in milli-degrees per second.
pub open spec fn gyro_magnitude_mdps(d: ImuData, cfg: SimpleDetectionConfig) -> int {
    vector_magnitude_milli(
        scaled_milli(d.gyro_x as int, cfg.gyro_scale as int),
        scaled_milli(d.gyro_y as int, cfg.gyro_scale as int),
        scaled_milli(d.gyro_z as int, cfg.gyro_scale as int),
    )
}

/// The signed z-axis acceleration of a sample in milli-g.
pub open spec fn acc_z_mg(d: ImuData, cfg: SimpleDetectionConfig) -> int {
    scaled_milli(d.acc_z as int, cfg.acc_scale as int)
}

/// Scales one raw axis reading to milli-units.
fn scale_axis(raw: i16, scale: u64) -> (v: i64)
    requires
        scale >= 1,
    ensures
        v as int == scaled_milli(raw as int, scale as int),
        -32_768_000 <= v as int <= 32_768_000,
{
    if raw >= 0 {
        let m: u64 = (raw as u64) * 1000 / scale;
        proof {
            assert((raw as int) * 1000 / (scale as int) <= (raw as int) * 1000)
                by (nonlinear_arith)
                requires raw >= 0, scale >= 1;
        }
        m as i64
    } else {
        let a: u64 = (-(raw as i32)) as u64;
        let m: u64 = a * 1000 / scale;
        proof {
            assert((a as int) * 1000 / (scale as int) <= (a as int) * 1000)
                by (nonlinear_arith)
                requires a >= 0, scale >= 1;
        }
        -(m as i64)
    }
}

/// Euclidean magnitude of a scaled three-axis vector, in milli-units.
fn vector_magnitude(x: i64, y: i64, z: i64) -> (m: u64)
    requires
        -32_768_000 <= x <= 32_768_000,
        -32_768_000 <= y <= 32_768_000,
        -32_768_000 <= z <= 32_768_000,
    ensures
        m as int == vector_magnitude_milli(x as int, y as int, z as int),
        m <= 60_000_000,
{
    proof {
        assert((x as int) * (x as int) <= 32_768_000int * 32_768_000int
            && (x as int) * (x as int) >= 0) by (nonlinear_arith)
            requires -32_768_000 <= x as int <= 32_768_000;
        assert((y as int) * (y as int) <= 32_768_000int * 32_768_000int
            && (y as int) * (y as int) >= 0) by (nonlinear_arith)
            requires -32_768_000 <= y as int <= 32_768_000;
        assert((z as int) * (z as int) <= 32_768_000int * 32_768_000int
            && (z as int) * (z as int) >= 0) by (nonlinear_arith)
            requires -32_768_000 <= z as int <= 32_768_000;
    }
    let s: u64 = ((x * x) as u64) + ((y * y) as u64) + ((z * z) as u64);
    let m = isqrt64(s);
    proof {
        assert(m as int <= 60_000_000) by (nonlinear_arith)
            requires
                (m as int) * (m as int) <= 3_300_000_000_000_000int,
                m as int >= 0;
    }
    m
}

// ---------------------------------------------------------------------
// Classification
// ---------------------------------------------------------------------

/// Slap confidence in millionths: how far the magnitudes clear their
/// thresholds, capped at one.
pub open spec fn hand_confidence_micro(
    acc_mag: int,
    gyro_mag: int,
    cfg: SimpleDetectionConfig,
) -> int {
    min_i(
        1_000_000,
        (acc_mag - cfg.slap_min_acc_mg) * 500 + (gyro_mag - cfg.slap_min_gyro_mdps) * 20,
    )
}

/// Low-kick confidence in millionths, capped at one.
pub open spec fn foot_confidence_micro(acc_mag: int, cfg: SimpleDetectionConfig) -> int {
    min_i(1_000_000, (acc_mag - cfg.kick_min_acc_mg) * 1000 / 3)
}

/// The classification of one sample's magnitudes by limb role.
///
/// Hands accept a slap when both magnitude floors are cleared.  Feet
/// accept a low kick when the acceleration floor is cleared while the
/// z-axis and angular-rate readings stay under their ceilings; the two
/// ceilings deliberately exclude medium and high kicks.
pub open spec fn classification(
    limb: LimbType,
    acc_mag: int,
    acc_z: int,
    gyro_mag: int,
    cfg: SimpleDetectionConfig,
) -> Option<(EventKind, int)> {
    if limb.spec_is_hand() {
        if acc_mag >= cfg.slap_min_acc_mg && gyro_mag >= cfg.slap_min_gyro_mdps {
            Some((EventKind::Slap, hand_confidence_micro(acc_mag, gyro_mag, cfg)))
        } else {
            None
        }
    } else {
        if acc_mag >= cfg.kick_min_acc_mg && acc_z <= cfg.kick_max_acc_z_mg
            && gyro_mag <= cfg.kick_max_gyro_mdps {
            Some((EventKind::LowKick, foot_confidence_micro(acc_mag, cfg)))
        } else {
            None
        }
    }
}

/// Classifies one sample's magnitudes.
fn classify_sample(
    limb: LimbType,
    acc_mag: u64,
    acc_z_milli: i64,
    gyro_mag: u64,
    cfg: &SimpleDetectionConfig,
) -> (r: Option<(EventKind, u64)>)
    requires
        acc_mag <= 60_000_000,
        gyro_mag <= 60_000_000,
    ensures
        r is Some <==> classification(
            limb,
            acc_mag as int,
            acc_z_milli as int,
            gyro_mag as int,
            *cfg,
        ) is Some,
        r matches Some((k, c)) ==> (classification(
            limb,
            acc_mag as int,
            acc_z_milli as int,
            gyro_mag as int,
            *cfg,
        ) matches Some((k2, c2)) && k == k2 && c as int == c2),
{
    if limb.is_hand() {
        if acc_mag >= cfg.slap_min_acc_mg && gyro_mag >= cfg.slap_min_gyro_mdps {
            let raw: u64 = (acc_mag - cfg.slap_min_acc_mg) * 500
                + (gyro_mag - cfg.slap_min_gyro_mdps) * 20;
            let conf: u64 = if raw > 1_000_000 {
                1_000_000
            } else {
                raw
            };
            Some((EventKind::Slap, conf))
        } else {
            None
        }
    } else {
        if acc_mag >= cfg.kick_min_acc_mg && acc_z_milli <= cfg.kick_max_acc_z_mg
            && gyro_mag <= cfg.kick_max_gyro_mdps {
            let raw: u64 = (acc_mag - cfg.kick_min_acc_mg) * 1000 / 3;
            let conf: u64 = if raw > 1_000_000 {
                1_000_000
            } else {
                raw
            };
            Some((EventKind::LowKick, conf))
        } else {
            None
        }
    }
}

// ---------------------------------------------------------------------
// Physics model
// ---------------------------------------------------------------------

/// Limb mass in grams: body weight times the per-limb mass fraction.
pub open spec fn limb_mass_g(limb: LimbType, weight_g: int, cfg: SimpleDetectionConfig) -> int {
    if limb.spec_is_hand() {
        weight_g * cfg.hand_mass_permille / 1000
    } else {
        weight_g * cfg.foot_mass_permille / 1000
    }
}

/// Intensity factor in thousandths: half the acceleration magnitude in g,
/// capped at two.
pub open spec fn intensity_milli(acc_mag: int) -> int {
    min_i(2000, acc_mag / 2)
}

/// Estimated limb velocity in millimetres per second.
pub open spec fn velocity_mm_s_of(limb: LimbType, acc_mag: int, cfg: SimpleDetectionConfig) -> int {
    (if limb.spec_is_hand() {
        cfg.hand_base_velocity_mm_s as int
    } else {
        cfg.foot_base_velocity_mm_s as int
    }) * intensity_milli(acc_mag) / 1000
}

/// Acceleration in millimetres per second squared: the magnitude in
/// milli-g times standard gravity.
pub open spec fn acceleration_mm_s2_of(acc_mag: int) -> int {
    acc_mag * 9810 / 1000
}

/// Estimated impact force in millinewtons: limb mass times acceleration
/// times the joint-stiffness factor.
pub open spec fn force_mn_of(
    limb: LimbType,
    acc_mag: int,
    weight_g: int,
    cfg: SimpleDetectionConfig,
) -> int {
    limb_mass_g(limb, weight_g, cfg) * acceleration_mm_s2_of(acc_mag)
        * cfg.joint_stiffness_milli / 1_000_000
}

// ---------------------------------------------------------------------
// The per-limb detector
// ---------------------------------------------------------------------

/// Stateful per-limb classifier: cooldown gate, threshold
/// classification, physics estimation.  Bound to at most one competitor
/// for its session.
pub struct SimpleEventDetector {
    pub config: SimpleDetectionConfig,
    pub competitor_info: Option<CompetitorInfo>,
    pub limb_type: LimbType,
    /// Timestamp of the last accepted event, epoch milliseconds.
    pub last_event_time: u64,
}

/// The sample clears the detector's cooldown gate.
pub open spec fn cooldown_passed(d: SimpleEventDetector, t: int) -> bool {
    t >= d.last_event_time + d.config.cooldown_ms
}

/// What one sample makes the detector produce: nothing without a bound
/// competitor, nothing inside the cooldown window, otherwise the
/// classification of the sample's magnitudes.
pub open spec fn detection_of(d: SimpleEventDetector, s: ImuData) -> Option<(EventKind, int)> {
    if d.competitor_info is None {
        None
    } else if !cooldown_passed(d, s.timestamp as int) {
        None
    } else {
        classification(
            d.limb_type,
            acc_magnitude_mg(s, d.config),
            acc_z_mg(s, d.config),
            gyro_magnitude_mdps(s, d.config),
            d.config,
        )
    }
}

/// Every field of an emitted event, as the fixed-point model gives it
/// for this detector state and sample.
pub open spec fn event_of_sample(
    d: SimpleEventDetector,
    s: ImuData,
    ev: SimpleCombatEvent,
) -> bool {
    detection_of(d, s) matches Some((kind, conf)) && {
        let acc_mag = acc_magnitude_mg(s, d.config);
        let c = d.competitor_info->Some_0;
        &&& ev.event_type == kind
        &&& ev.confidence_micro as int == conf
        &&& 0 <= conf <= 1_000_000
        &&& ev.limb_name@ == limb_display_name(d.limb_type)
        &&& ev.competitor_id == c.id
        &&& ev.competitor_name@ == c.name@
        &&& ev.velocity_mm_s as int == velocity_mm_s_of(d.limb_type, acc_mag, d.config)
        &&& ev.acceleration_mm_s2 as int == acceleration_mm_s2_of(acc_mag)
        &&& ev.force_mn as int == force_mn_of(d.limb_type, acc_mag, c.weight_g as int, d.config)
        &&& ev.timestamp == s.timestamp
    }
}

/// The detector state after consuming one sample: the cooldown clock
/// advances exactly when an event was produced.
pub open spec fn detector_after(d: SimpleEventDetector, s: ImuData) -> SimpleEventDetector {
    if detection_of(d, s) is Some {
        SimpleEventDetector { last_event_time: s.timestamp, ..d }
    } else {
        d
    }
}

impl SimpleEventDetector {
    /// The configuration and any bound competitor are within the bounds
    /// that keep the whole pipeline overflow-free.
    pub open spec fn wf(self) -> bool {
        &&& self.config.wf()
        &&& match self.competitor_info {
            Some(c) => c.wf(),
            None => true,
        }
    }

    /// A detector for the given limb with the default configuration and
    /// no bound competitor.
    pub fn new(limb_type: LimbType) -> (d: Self)
        ensures
            d.limb_type == limb_type,
            d.config == default_config(),
            d.competitor_info is None,
            d.last_event_time == 0,
            d.wf(),
    {
        SimpleEventDetector {
            config: SimpleDetectionConfig::default(),
            competitor_info: None,
            limb_type,
            last_event_time: 0,
        }
    }

    /// A detector with an explicit configuration.
    pub fn with_config(limb_type: LimbType, config: SimpleDetectionConfig) -> (d: Self)
        requires
            config.wf(),
        ensures
            d.limb_type == limb_type,
            d.config == config,
            d.competitor_info is None,
            d.last_event_time == 0,
            d.wf(),
    {
        SimpleEventDetector { config, competitor_info: None, limb_type, last_event_time: 0 }
    }

    /// Binds the detector to a competitor for this session.
    pub fn set_competitor_info(&mut self, info: CompetitorInfo)
        requires
            info.wf(),
        ensures
            final(self).competitor_info == Some(info),
            final(self).config == old(self).config,
            final(self).limb_type == old(self).limb_type,
            final(self).last_event_time == old(self).last_event_time,
    {
        self.competitor_info = Some(info);
    }

    /// Runs one sample through the cooldown gate, the classifier and the
    /// physics model.  Produces an event exactly when `detection_of`
    /// says so, with every field given by the fixed-point model, and
    /// advances the cooldown clock exactly on acceptance.
    pub fn detect_event(&mut self, data: &ImuData) -> (r: Option<SimpleCombatEvent>)
        requires
            old(self).wf(),
        ensures
            *final(self) == detector_after(*old(self), *data),
            r is Some <==> detection_of(*old(self), *data) is Some,
            r matches Some(ev) ==> event_of_sample(*old(self), *data, ev),
    {
        let (cid, cname, weight_g): (u8, String, u64) = match &self.competitor_info {
            Some(c) => (c.id, c.name.clone(), c.weight_g),
            None => {
                return None;
            },
        };

        let t = data.timestamp;
        if t < self.last_event_time || t - self.last_event_time < self.config.cooldown_ms {
            return None;
        }

        let ax = scale_axis(data.acc_x, self.config.acc_scale);
        let ay = scale_axis(data.acc_y, self.config.acc_scale);
        let az = scale_axis(data.acc_z, self.config.acc_scale);
        let gx = scale_axis(data.gyro_x, self.config.gyro_scale);
        let gy = scale_axis(data.gyro_y, self.config.gyro_scale);
        let gz = scale_axis(data.gyro_z, self.config.gyro_scale);
        let acc_mag = vector_magnitude(ax, ay, az);
        let gyro_mag = vector_magnitude(gx, gy, gz);

        let (kind, confidence) = match classify_sample(
            self.limb_type,
            acc_mag,
            az,
            gyro_mag,
            &self.config,
        ) {
            Some(kc) => kc,
            None => {
                return None;
            },
        };

        let (velocity, acceleration, force) = self.calculate_physics_metrics(
            acc_mag,
            self.limb_type,
            weight_g,
        );

        self.last_event_time = t;

        let limb_name: String = self.limb_type.name().to_owned();
        Some(
            SimpleCombatEvent {
                event_type: kind,
                limb_name,
                competitor_id: cid,
                competitor_name: cname,
                velocity_mm_s: velocity,
                acceleration_mm_s2: acceleration,
                force_mn: force,
                timestamp: t,
                confidence_micro: confidence,
            },
        )
    }

    /// Estimates velocity, acceleration and force of an accepted event
    /// from anthropometric constants and the sample's magnitude.
    pub fn calculate_physics_metrics(
        &self,
        acc_magnitude_mg: u64,
        limb_type: LimbType,
        body_weight_g: u64,
    ) -> (r: (u64, u64, u64))
        requires
            self.config.wf(),
            acc_magnitude_mg <= 60_000_000,
            body_weight_g <= 2_000_000,
        ensures
            r.0 as int == velocity_mm_s_of(limb_type, acc_magnitude_mg as int, self.config),
            r.1 as int == acceleration_mm_s2_of(acc_magnitude_mg as int),
            r.2 as int == force_mn_of(
                limb_type,
                acc_magnitude_mg as int,
                body_weight_g as int,
                self.config,
            ),
    {
        let (base_velocity, mass_permille): (u64, u64) = if limb_type.is_hand() {
            (self.config.hand_base_velocity_mm_s, self.config.hand_mass_permille)
        } else {
            (self.config.foot_base_velocity_mm_s, self.config.foot_mass_permille)
        };

        proof {
            assert(body_weight_g * mass_permille <= 2_000_000int * 1000) by (nonlinear_arith)
                requires body_weight_g <= 2_000_000, mass_permille <= 1000;
        }
        let limb_mass_g: u64 = body_weight_g * mass_permille / 1000;

        let half: u64 = acc_magnitude_mg / 2;
        let intensity: u64 = if half > 2000 {
            2000
        } else {
            half
        };

        proof {
            assert(base_velocity * intensity <= 1_000_000int * 2000) by (nonlinear_arith)
                requires base_velocity <= 1_000_000, intensity <= 2000;
        }
        let velocity: u64 = base_velocity * intensity / 1000;

        let acceleration: u64 = acc_magnitude_mg * 9810 / 1000;

        proof {
            assert(limb_mass_g <= 2_000_000int) by (nonlinear_arith)
                requires limb_mass_g == body_weight_g * mass_permille / 1000int,
                    body_weight_g * mass_permille <= 2_000_000_000int;
            assert(acceleration <= 588_600_000int) by (nonlinear_arith)
                requires acceleration == acc_magnitude_mg * 9810 / 1000int,
                    0 <= acc_magnitude_mg <= 60_000_000;
            assert((limb_mass_g as int) * (acceleration as int) <= 2_000_000int
                * 588_600_000int) by (nonlinear_arith)
                requires
                    0 <= limb_mass_g as int <= 2_000_000int,
                    0 <= acceleration as int <= 588_600_000int;
        }
        let product: u128 = (limb_mass_g as u128) * (acceleration as u128);
        proof {
            assert((product as int) * (self.config.joint_stiffness_milli as int)
                <= 2_000_000int * 588_600_000int * 100_000int) by (nonlinear_arith)
                requires
                    0 <= product as int <= 2_000_000int * 588_600_000int,
                    0 <= self.config.joint_stiffness_milli as int <= 100_000int;
        }
        let scaled: u128 = product * (self.config.joint_stiffness_milli as u128);
        let force128: u128 = scaled / 1_000_000;
        proof {
            assert(force128 < 0x1_0000_0000_0000_0000) by (nonlinear_arith)
                requires
                    force128 as int == (scaled as int) / 1_000_000int,
                    0 <= scaled as int <= 2_000_000int * 588_600_000int * 100_000int;
        }
        let force: u64 = force128 as u64;

        (velocity, acceleration, force)
    }
}

// ---------------------------------------------------------------------
// Laws of the classifier
// ---------------------------------------------------------------------

/// Cooldown suppression: once a sample has been accepted, any further
/// sample arriving within `cooldown_ms` of it produces no event,
/// regardless of its magnitudes.
pub proof fn lemma_cooldown_suppresses_second(
    d: SimpleEventDetector,
    s1: ImuData,
    s2: ImuData,
    delta: u64,
)
    requires
        detection_of(d, s1) is Some,
        s2.timestamp == s1.timestamp + delta,
        delta < d.config.cooldown_ms,
    ensures
        detection_of(detector_after(d, s1), s2) is None,
{
}

/// Confidence stays within [0, 1] (in millionths) for every magnitude,
/// including magnitudes far beyond the thresholds.
pub proof fn lemma_confidence_in_unit_range(
    limb: LimbType,
    acc_mag: int,
    acc_z: int,
    gyro_mag: int,
    cfg: SimpleDetectionConfig,
)
    requires
        acc_mag >= 0,
        gyro_mag >= 0,
    ensures
        classification(limb, acc_mag, acc_z, gyro_mag, cfg) matches Some((k, c)) ==> 0 <= c
            <= 1_000_000,
{
    if classification(limb, acc_mag, acc_z, gyro_mag, cfg) is Some {
        if limb.spec_is_hand() {
            assert((acc_mag - cfg.slap_min_acc_mg) * 500 >= 0) by (nonlinear_arith)
                requires acc_mag - cfg.slap_min_acc_mg >= 0;
            assert((gyro_mag - cfg.slap_min_gyro_mdps) * 20 >= 0) by (nonlinear_arith)
                requires gyro_mag - cfg.slap_min_gyro_mdps >= 0;
        } else {
            assert((acc_mag - cfg.kick_min_acc_mg) * 1000 / 3 >= 0) by (nonlinear_arith)
                requires acc_mag - cfg.kick_min_acc_mg >= 0;
        }
    }
}

} // verus!
