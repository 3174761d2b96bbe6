//! Decisions of the motor control thread: the schedule of its fast loop,
//! what a stored calibration tells the motor library, and the profile
//! arguments the library is loaded with.
use vstd::prelude::*;

use crate::haptic::profile::{direction_of_code, haptic_mode_code, DetentProfile, Direction, HapticMode};

verus! {

/// Angle snapshots go to the HMI and display threads every 10 ms.
pub const ANGLE_PUBLISH_INTERVAL_US: u64 = 10_000;

/// The loop rate is measured over 5 s windows.
pub const RATE_WINDOW_US: u64 = 5_000_000;

/// Commands from the COM thread are checked once every 100 passes.
pub const COMMAND_POLL_EVERY: u32 = 100;

/// Bit pattern of 3.0, the detent strength of the startup profile.
pub const STARTUP_STRENGTH_BITS: u32 = 0x40400000;

/// What one pass of the control loop does besides driving the motor.
#[derive(Debug, Clone, Copy, PartialEq, Eq, Structural)]
pub struct FocTick {
    /// Check the command channel in this pass.
    pub poll_commands: bool,
    /// Publish an angle snapshot in this pass.
    pub publish_angle: bool,
    /// When a rate window closes: the passes counted in it.
    pub loops_in_window: Option<u32>,
}

/// Timers and counter of the control loop.
#[derive(Debug, Clone, Copy, PartialEq, Eq, Structural)]
pub struct FocSchedule {
    pub loop_count: u32,
    pub last_publish_us: u64,
    pub rate_measure_us: u64,
}

impl FocSchedule {
    /// All timers at zero.
    pub fn new() -> (s: Self)
        ensures
            s == (FocSchedule { loop_count: 0, last_publish_us: 0, rate_measure_us: 0 }),
    {
        FocSchedule { loop_count: 0, last_publish_us: 0, rate_measure_us: 0 }
    }

    /// One pass at time `now_us`: commands are polled on every hundredth
    /// pass, a snapshot is published when 10 ms have passed since the last
    /// one, and when a 5 s window has passed the pass count is reported and
    /// restarted.
    pub fn tick(&mut self, now_us: u64) -> (t: FocTick)
        requires
            old(self).loop_count < u32::MAX,
        ensures
            t.poll_commands == (old(self).loop_count % COMMAND_POLL_EVERY == 0),
            t.publish_angle == (now_us.wrapping_sub(old(self).last_publish_us) >= ANGLE_PUBLISH_INTERVAL_US),
            final(self).last_publish_us == (if t.publish_angle {
                now_us
            } else {
                old(self).last_publish_us
            }),
            now_us.wrapping_sub(old(self).rate_measure_us) >= RATE_WINDOW_US ==> t.loops_in_window
                == Some((old(self).loop_count + 1) as u32) && final(self).loop_count == 0
                && final(self).rate_measure_us == now_us,
            now_us.wrapping_sub(old(self).rate_measure_us) < RATE_WINDOW_US ==> t.loops_in_window is None
                && final(self).loop_count == old(self).loop_count + 1 && final(self).rate_measure_us
                == old(self).rate_measure_us,
    {
        let poll_commands = self.loop_count % COMMAND_POLL_EVERY == 0;
        let publish_angle = now_us.wrapping_sub(self.last_publish_us) >= ANGLE_PUBLISH_INTERVAL_US;
        if publish_angle {
            self.last_publish_us = now_us;
        }
        self.loop_count = self.loop_count + 1;
        let mut loops_in_window: Option<u32> = None;
        if now_us.wrapping_sub(self.rate_measure_us) >= RATE_WINDOW_US {
            loops_in_window = Some(self.loop_count);
            self.loop_count = 0;
            self.rate_measure_us = now_us;
        }
        FocTick { poll_commands, publish_angle, loops_in_window }
    }
}

/// Arguments of the motor library's profile load, floats as bit patterns.
#[derive(Debug, Clone, Copy, PartialEq, Eq, Structural)]
pub struct MotorProfileArgs {
    pub mode: u8,
    pub start_pos: u16,
    pub end_pos: u16,
    pub detent_count: u16,
    pub vernier: u8,
    pub kx_force: u8,
    pub output_ramp_bits: u32,
    pub detent_strength_bits: u32,
}

/// The motor library's arguments for a detent profile.
pub fn motor_profile_args(p: DetentProfile) -> (a: MotorProfileArgs)
    ensures
        a.mode == (match p.mode {
            HapticMode::Regular => 0u8,
            HapticMode::Vernier => 1u8,
            HapticMode::Viscose => 2u8,
            HapticMode::Spring => 3u8,
        }),
        a.start_pos == p.start_pos,
        a.end_pos == p.end_pos,
        a.detent_count == p.detent_count,
        a.vernier == p.vernier,
        a.kx_force == (if p.kx_force { 1u8 } else { 0u8 }),
        a.output_ramp_bits == p.output_ramp_bits,
        a.detent_strength_bits == p.detent_strength_bits,
{
    MotorProfileArgs {
        mode: haptic_mode_code(p.mode),
        start_pos: p.start_pos,
        end_pos: p.end_pos,
        detent_count: p.detent_count,
        vernier: p.vernier,
        kx_force: if p.kx_force { 1 } else { 0 },
        output_ramp_bits: p.output_ramp_bits,
        detent_strength_bits: p.detent_strength_bits,
    }
}

/// The profile loaded at startup: regular mode, 20 detents over 0..=120,
/// no ramp, strength 3.0.
pub fn startup_motor_profile() -> (a: MotorProfileArgs)
    ensures
        a == (MotorProfileArgs {
            mode: 0,
            start_pos: 0,
            end_pos: 120,
            detent_count: 20,
            vernier: 1,
            kx_force: 0,
            output_ramp_bits: 0,
            detent_strength_bits: STARTUP_STRENGTH_BITS,
        }),
{
    MotorProfileArgs {
        mode: 0,
        start_pos: 0,
        end_pos: 120,
        detent_count: 20,
        vernier: 1,
        kx_force: 0,
        output_ramp_bits: 0,
        detent_strength_bits: STARTUP_STRENGTH_BITS,
    }
}

/// The motor library's direction code for a stored calibration direction,
/// or `None` when no calibration is stored and auto-calibration must run.
pub fn calibration_direction(d: Direction) -> (code: Option<i32>)
    ensures
        d == Direction::Unknown ==> code is None,
        d == Direction::Cw ==> code == Some(1i32),
        d == Direction::Ccw ==> code == Some(2i32),
{
    match d {
        Direction::Cw => Some(1),
        Direction::Ccw => Some(2),
        Direction::Unknown => None,
    }
}

/// The direction the motor library reports after auto-calibration:
/// 1 is clockwise, 2 counter-clockwise, anything else unknown.
pub fn direction_from_motor(dir: i32) -> (d: Direction)
    ensures
        d == direction_of_code(dir as int),
{
    if dir == 1 {
        Direction::Cw
    } else if dir == 2 {
        Direction::Ccw
    } else {
        Direction::Unknown
    }
}

/// PWM timer period in ticks of the 1 MHz timer clock for a switching
/// frequency in Hz.
pub fn pwm_period_ticks(frequency_hz: u32) -> (ticks: u32)
    requires
        frequency_hz > 0,
    ensures
        ticks == 1_000_000int / frequency_hz as int,
{
    1_000_000 / frequency_hz
}

} // verus!
