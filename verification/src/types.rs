//! Data model: limb roles, raw sensor readings, detector configuration,
//! competitors, produced combat events and personal-best records.
//!
//! All physical quantities are fixed-point integers:
//! - accelerations in milli-g (`mg`) or milli-metres per second squared,
//! - angular rates in milli-degrees per second (`mdps`),
//! - velocities in millimetres per second,
//! - forces in millinewtons,
//! - masses in grams,
//! - confidences in millionths (`1_000_000` is a confidence of one).

use vstd::prelude::*;

verus! {

/// One of the four fixed limb roles a sensor can be strapped to.
#[derive(Clone, Copy, Debug, PartialEq, Eq, Structural)]
pub enum LimbType {
    LeftHand,
    RightHand,
    LeftFoot,
    RightFoot,
}

/// The limb role that a wire-format limb identifier denotes.
pub open spec fn limb_from_id(id: u8) -> Option<LimbType> {
    if id == 1 {
        Some(LimbType::RightHand)
    } else if id == 2 {
        Some(LimbType::LeftHand)
    } else if id == 3 {
        Some(LimbType::RightFoot)
    } else if id == 4 {
        Some(LimbType::LeftFoot)
    } else {
        None
    }
}

/// The localized display name of a limb role.
pub open spec fn limb_display_name(l: LimbType) -> Seq<char> {
    match l {
        LimbType::LeftHand => "Mano Izquierda"@,
        LimbType::RightHand => "Mano Derecha"@,
        LimbType::LeftFoot => "Pierna Izquierda"@,
        LimbType::RightFoot => "Pierna Derecha"@,
    }
}

/// The substring of an advertised device name that marks a limb role.
pub open spec fn limb_pattern(l: LimbType) -> Seq<char> {
    match l {
        LimbType::LeftHand => "ManoIzquierda"@,
        LimbType::RightHand => "ManoDerecha"@,
        LimbType::LeftFoot => "PiernaIzquierda"@,
        LimbType::RightFoot => "PiernaDerecha"@,
    }
}

impl LimbType {
    /// Decodes a wire-format limb identifier.
    pub fn from_id(id: u8) -> (r: Option<Self>)
        ensures
            r == limb_from_id(id),
    {
        match id {
            1 => Some(LimbType::RightHand),
            2 => Some(LimbType::LeftHand),
            3 => Some(LimbType::RightFoot),
            4 => Some(LimbType::LeftFoot),
            _ => None,
        }
    }

    /// The localized display name of the limb.
    pub fn name(&self) -> (r: &'static str)
        ensures
            r@ == limb_display_name(*self),
    {
        match self {
            LimbType::LeftHand => "Mano Izquierda",
            LimbType::RightHand => "Mano Derecha",
            LimbType::LeftFoot => "Pierna Izquierda",
            LimbType::RightFoot => "Pierna Derecha",
        }
    }

    /// The substring of an advertised device name that marks this limb.
    pub fn ble_name_pattern(&self) -> (r: &'static str)
        ensures
            r@ == limb_pattern(*self),
    {
        match self {
            LimbType::LeftHand => "ManoIzquierda",
            LimbType::RightHand => "ManoDerecha",
            LimbType::LeftFoot => "PiernaIzquierda",
            LimbType::RightFoot => "PiernaDerecha",
        }
    }

    /// Whether the limb is a hand (left or right).
    pub open spec fn spec_is_hand(&self) -> bool {
        *self == LimbType::LeftHand || *self == LimbType::RightHand
    }

    /// Whether the limb is a hand (left or right).
    #[verifier::when_used_as_spec(spec_is_hand)]
    pub fn is_hand(&self) -> (r: bool)
        ensures
            r == self.spec_is_hand(),
    {
        match self {
            LimbType::LeftHand | LimbType::RightHand => true,
            LimbType::LeftFoot | LimbType::RightFoot => false,
        }
    }
}

/// One decoded sensor reading: raw signed 16-bit axes plus the arrival
/// timestamp stamped by the host clock (milliseconds since the epoch).
#[derive(Clone, Copy, Debug, PartialEq, Eq, Structural)]
pub struct ImuData {
    pub limb_id: u8,
    pub battery_level: u8,
    pub acc_x: i16,
    pub acc_y: i16,
    pub acc_z: i16,
    pub gyro_x: i16,
    pub gyro_y: i16,
    pub gyro_z: i16,
    pub timestamp: u64,
}

/// Detector configuration: scale factors, thresholds and physical
/// constants.  Everything the classifier and the physics model use is
/// adjustable here, nothing is baked into the detection code.
#[derive(Clone, Copy, Debug)]
pub struct SimpleDetectionConfig {
    /// Raw accelerometer counts per g (so raw / scale is in g).
    pub acc_scale: u64,
    /// Raw gyroscope counts per degree-per-second.
    pub gyro_scale: u64,
    /// Hands: minimal acceleration magnitude of a slap, in milli-g.
    pub slap_min_acc_mg: u64,
    /// Hands: minimal angular-rate magnitude of a slap, in milli-dps.
    pub slap_min_gyro_mdps: u64,
    /// Feet: minimal acceleration magnitude of a low kick, in milli-g.
    pub kick_min_acc_mg: u64,
    /// Feet: maximal angular-rate magnitude of a low kick, in milli-dps.
    /// This is deliberately a ceiling, not a floor: it excludes the fast
    /// rotation of medium and high kicks.
    pub kick_max_gyro_mdps: u64,
    /// Feet: maximal z-axis acceleration of a low kick, in milli-g; a
    /// ceiling that isolates low, sweeping strikes.
    pub kick_max_acc_z_mg: i64,
    /// Base hand velocity in millimetres per second.
    pub hand_base_velocity_mm_s: u64,
    /// Base foot velocity in millimetres per second.
    pub foot_base_velocity_mm_s: u64,
    /// Hand mass as a fraction of body weight, in per-mille.
    pub hand_mass_permille: u64,
    /// Foot mass as a fraction of body weight, in per-mille.
    pub foot_mass_permille: u64,
    /// Joint-stiffness factor, in thousandths.
    pub joint_stiffness_milli: u64,
    /// Minimal time between two accepted events of one detector, in ms.
    pub cooldown_ms: u64,
}

impl SimpleDetectionConfig {
    /// Bounds under which the whole detection pipeline is free of
    /// overflow: scales are non-zero and the physical constants stay
    /// within generous machine limits.
    pub open spec fn wf(self) -> bool {
        &&& self.acc_scale >= 1
        &&& self.gyro_scale >= 1
        &&& self.hand_base_velocity_mm_s <= 1_000_000
        &&& self.foot_base_velocity_mm_s <= 1_000_000
        &&& self.hand_mass_permille <= 1000
        &&& self.foot_mass_permille <= 1000
        &&& self.joint_stiffness_milli <= 100_000
    }
}

/// The default configuration.
pub open spec fn default_config() -> SimpleDetectionConfig {
    SimpleDetectionConfig {
        acc_scale: 1000,
        gyro_scale: 250,
        slap_min_acc_mg: 800,
        slap_min_gyro_mdps: 3000,
        kick_min_acc_mg: 800,
        kick_max_gyro_mdps: 10_000,
        kick_max_acc_z_mg: 200,
        hand_base_velocity_mm_s: 10_000,
        foot_base_velocity_mm_s: 15_000,
        hand_mass_permille: 27,
        foot_mass_permille: 62,
        joint_stiffness_milli: 1800,
        cooldown_ms: 500,
    }
}

impl Default for SimpleDetectionConfig {
    /// Scale factors and thresholds tuned for the shipped sensors.
    fn default() -> (c: Self)
        ensures
            c == default_config(),
            c.wf(),
    {
        SimpleDetectionConfig {
            acc_scale: 1000,
            gyro_scale: 250,
            slap_min_acc_mg: 800,
            slap_min_gyro_mdps: 3000,
            kick_min_acc_mg: 800,
            kick_max_gyro_mdps: 10_000,
            kick_max_acc_z_mg: 200,
            hand_base_velocity_mm_s: 10_000,
            foot_base_velocity_mm_s: 15_000,
            hand_mass_permille: 27,
            foot_mass_permille: 62,
            joint_stiffness_milli: 1800,
            cooldown_ms: 500,
        }
    }
}

/// A tracked participant; the body weight feeds the physics model.
#[derive(Clone, Debug)]
pub struct CompetitorInfo {
    pub id: u8,
    pub name: String,
    /// Body weight in grams.
    pub weight_g: u64,
}

impl CompetitorInfo {
    /// Machine limit under which force estimates fit in 64 bits
    /// (two tonnes is far beyond any plausible body weight).
    pub open spec fn wf(self) -> bool {
        self.weight_g <= 2_000_000
    }
}

/// The two event classes the detector can produce.
#[derive(Clone, Copy, Debug, PartialEq, Eq, Structural)]
pub enum EventKind {
    Slap,
    LowKick,
}

/// The wire tag of an event class.
pub open spec fn event_kind_label(k: EventKind) -> Seq<char> {
    match k {
        EventKind::Slap => "slap"@,
        EventKind::LowKick => "low_kick"@,
    }
}

impl EventKind {
    /// The wire tag of the event class.
    pub fn label(&self) -> (r: &'static str)
        ensures
            r@ == event_kind_label(*self),
    {
        match self {
            EventKind::Slap => "slap",
            EventKind::LowKick => "low_kick",
        }
    }
}

/// A classified strike or kick, immutable once emitted.
#[derive(Clone, Debug)]
pub struct SimpleCombatEvent {
    pub event_type: EventKind,
    /// Localized display name of the limb that produced the event.
    pub limb_name: String,
    /// Numeric id of the competitor the detector was bound to.
    pub competitor_id: u8,
    pub competitor_name: String,
    /// Estimated limb velocity in millimetres per second.
    pub velocity_mm_s: u64,
    /// Estimated acceleration in millimetres per second squared.
    pub acceleration_mm_s2: u64,
    /// Estimated impact force in millinewtons.
    pub force_mn: u64,
    /// Arrival timestamp of the triggering sample, epoch milliseconds.
    pub timestamp: u64,
    /// Classification confidence in millionths; always within
    /// `0 ..= 1_000_000`.
    pub confidence_micro: u64,
}

/// Running personal bests of one competitor; every field only ever grows.
#[derive(Clone, Debug)]
pub struct CompetitorMaxStats {
    pub competitor_id: u8,
    pub competitor_name: String,
    pub max_force_mn: u64,
    pub max_velocity_mm_s: u64,
    pub max_acceleration_mm_s2: u64,
}

/// A peripheral found by discovery.
#[derive(Clone, Debug)]
pub struct BleDevice {
    pub id: String,
    pub name: String,
    pub address: String,
    /// The limb-pattern substring recognized in the advertised name.
    pub limb_type: Option<String>,
    /// The localized limb name derived from the advertised name.
    pub limb_name: Option<String>,
    pub rssi: Option<i16>,
    pub is_connectable: bool,
}

/// Configuration of a battle, broadcast to presentation clients.
#[derive(Clone, Debug)]
pub struct BattleConfig {
    /// Either a timed battle or one counted in rounds.
    pub mode: String,
    pub rounds: u32,
    /// Round length in seconds; only present for timed battles.
    pub round_duration: Option<u32>,
    pub current_round: u32,
    pub timestamp: u64,
}

impl BattleConfig {
    /// Bundles the parameters of a battle with the moment they were set.
    pub fn new(
        mode: String,
        rounds: u32,
        round_duration: Option<u32>,
        current_round: u32,
        timestamp: u64,
    ) -> (c: Self)
        ensures
            c.mode == mode,
            c.rounds == rounds,
            c.round_duration == round_duration,
            c.current_round == current_round,
            c.timestamp == timestamp,
    {
        BattleConfig { mode, rounds, round_duration, current_round, timestamp }
    }
}

} // verus!
