use vstd::prelude::*;

verus! {

/// IEEE-754 single-precision bit pattern of 5000.0, the default output ramp.
pub const RAMP_5000_BITS: u32 = 0x459C4000;

/// IEEE-754 single-precision bit pattern of 3.0, the default detent strength.
pub const STRENGTH_3_BITS: u32 = 0x40400000;

/// Sentinel for "not set" angles: the bit pattern of -12345.0.
pub const NOT_SET_BITS: u32 = 0xC640E400;

/// Haptic event types fired on detent state changes.
#[derive(Debug, Clone, Copy, PartialEq, Eq, Structural)]
pub enum HapticEvt {
    Increase,
    Decrease,
    Either,
    LimitPos,
    LimitNeg,
}

/// Supported haptic texture modes.
#[derive(Debug, Clone, Copy, PartialEq, Eq, Structural)]
pub enum HapticMode {
    /// Only coarse detents used
    Regular,
    /// Coarse with fine between (multiplied by vernier)
    Vernier,
    /// Resistance while turning
    Viscose,
    /// Snap back to center point
    Spring,
}

/// Defines the behavior of a haptic detent profile.
///
/// The two real-valued settings are carried as IEEE-754 single-precision bit
/// patterns; only the motor control loop interprets them.
#[derive(Debug, Clone, Copy, PartialEq, Eq, Structural)]
pub struct DetentProfile {
    pub mode: HapticMode,
    pub start_pos: u16,
    pub end_pos: u16,
    pub detent_count: u16,
    pub vernier: u8,
    pub kx_force: bool,
    pub output_ramp_bits: u32,
    pub detent_strength_bits: u32,
}

impl DetentProfile {
    /// The default profile: 60 regular detents over positions 0..=255.
    pub open spec fn default_spec() -> DetentProfile {
        DetentProfile {
            mode: HapticMode::Regular,
            start_pos: 0,
            end_pos: 255,
            detent_count: 60,
            vernier: 5,
            kx_force: false,
            output_ramp_bits: RAMP_5000_BITS,
            detent_strength_bits: STRENGTH_3_BITS,
        }
    }
}

impl Default for DetentProfile {
    fn default() -> (p: Self)
        ensures
            p == DetentProfile::default_spec(),
    {
        DetentProfile {
            mode: HapticMode::Regular,
            start_pos: 0,
            end_pos: 255,
            detent_count: 60,
            vernier: 5,
            kx_force: false,
            output_ramp_bits: RAMP_5000_BITS,
            detent_strength_bits: STRENGTH_3_BITS,
        }
    }
}

/// Angle event sent when the haptic position changes.
#[derive(Debug, Clone, Copy, PartialEq, Eq, Structural)]
pub struct AngleEvt {
    pub cur_pos: u16,
}

/// Motor sensor direction.
#[derive(Debug, Clone, Copy, PartialEq, Eq, Structural)]
pub enum Direction {
    Unknown,
    Cw,
    Ccw,
}

/// Motor calibration data stored in NVS; the zero angle is kept as the bit
/// pattern of its single-precision value.
#[derive(Debug, Clone, Copy, PartialEq, Eq, Structural)]
pub struct MotorCalibration {
    pub direction: Direction,
    pub zero_angle_bits: u32,
}

impl Default for MotorCalibration {
    fn default() -> (c: Self)
        ensures
            c == (MotorCalibration { direction: Direction::Unknown, zero_angle_bits: NOT_SET_BITS }),
    {
        MotorCalibration { direction: Direction::Unknown, zero_angle_bits: NOT_SET_BITS }
    }
}

/// Storage code of a direction, shared by NVS and the motor library:
/// unknown = 0, CW = 1, CCW = 2.
pub open spec fn direction_code_of(d: Direction) -> u8 {
    match d {
        Direction::Unknown => 0,
        Direction::Cw => 1,
        Direction::Ccw => 2,
    }
}

/// Direction read back from a storage code; codes other than 1 and 2 mean unknown.
pub open spec fn direction_of_code(code: int) -> Direction {
    if code == 1 {
        Direction::Cw
    } else if code == 2 {
        Direction::Ccw
    } else {
        Direction::Unknown
    }
}

/// Storage code of a direction: unknown = 0, CW = 1, CCW = 2.
pub fn direction_code(d: Direction) -> (code: u8)
    ensures
        code == direction_code_of(d),
{
    match d {
        Direction::Unknown => 0,
        Direction::Cw => 1,
        Direction::Ccw => 2,
    }
}

/// Direction stored under `code`; absent or unrecognised codes mean unknown.
pub fn direction_from_code(code: Option<u8>) -> (d: Direction)
    ensures
        d == (match code {
            Some(c) => direction_of_code(c as int),
            None => Direction::Unknown,
        }),
{
    match code {
        Some(1) => Direction::Cw,
        Some(2) => Direction::Ccw,
        _ => Direction::Unknown,
    }
}

/// A stored direction reads back unchanged.
pub proof fn law_direction_code_roundtrip(d: Direction)
    ensures
        direction_of_code(direction_code_of(d) as int) == d,
{
}

impl MotorCalibration {
    /// The calibration read back from storage: the direction under its code
    /// (unknown when absent) and the zero angle's bits (the not-set marker
    /// when absent).
    pub fn from_stored(direction: Option<u8>, zero_angle_bits: Option<u32>) -> (c: Self)
        ensures
            c.direction == (match direction {
                Some(d) => direction_of_code(d as int),
                None => Direction::Unknown,
            }),
            c.zero_angle_bits == (match zero_angle_bits {
                Some(b) => b,
                None => NOT_SET_BITS,
            }),
    {
        MotorCalibration {
            direction: direction_from_code(direction),
            zero_angle_bits: match zero_angle_bits {
                Some(b) => b,
                None => NOT_SET_BITS,
            },
        }
    }

    /// What is written to storage: the direction's code and the zero
    /// angle's bits.
    pub fn stored(&self) -> (r: (u8, u32))
        ensures
            r == (direction_code_of(self.direction), self.zero_angle_bits),
    {
        (direction_code(self.direction), self.zero_angle_bits)
    }
}

/// Numeric code of a haptic mode in the motor library: regular = 0,
/// vernier = 1, viscose = 2, spring = 3.
pub fn haptic_mode_code(mode: HapticMode) -> (code: u8)
    ensures
        code == (match mode {
            HapticMode::Regular => 0u8,
            HapticMode::Vernier => 1u8,
            HapticMode::Viscose => 2u8,
            HapticMode::Spring => 3u8,
        }),
{
    match mode {
        HapticMode::Regular => 0,
        HapticMode::Vernier => 1,
        HapticMode::Viscose => 2,
        HapticMode::Spring => 3,
    }
}

} // verus!
