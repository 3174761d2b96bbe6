use nanod::haptic::detent::{proportional_gain_source, DetentTracker, GainSource};
use nanod::haptic::profile::{
    direction_code, direction_from_code, haptic_mode_code, DetentProfile, Direction, HapticEvt, HapticMode,
    MotorCalibration,
};
use nanod::protocol::command::HapticConfig;

fn events() -> heapless::Vec<HapticEvt, 4> {
    heapless::Vec::new()
}

#[test]
fn tracker_starts_at_zero_with_default_profile() {
    let t = DetentTracker::new();
    assert_eq!(t.current_pos, 0);
    assert_eq!(t.profile, DetentProfile::default());
    assert_eq!(t.num_detents, 255);
}

#[test]
fn crossing_counts_up_and_fires_either() {
    let mut t = DetentTracker::new();
    t.current_pos = 128;
    let mut ev = events();
    assert!(t.cross_detent(true, Direction::Cw, &mut ev));
    assert_eq!(t.current_pos, 129);
    assert_eq!(ev.as_slice(), &[HapticEvt::Increase, HapticEvt::Either]);
}

#[test]
fn crossing_at_upper_end_fires_limit() {
    let mut t = DetentTracker::new();
    t.current_pos = 255;
    let mut ev = events();
    assert!(!t.cross_detent(true, Direction::Cw, &mut ev));
    assert!(t.at_limit);
    assert_eq!(t.current_pos, 255);
    assert_eq!(ev.as_slice(), &[HapticEvt::LimitPos]);
}

#[test]
fn crossing_at_lower_end_fires_limit() {
    let mut t = DetentTracker::new();
    let mut ev = events();
    assert!(!t.cross_detent(false, Direction::Cw, &mut ev));
    assert_eq!(ev.as_slice(), &[HapticEvt::LimitNeg]);
}

#[test]
fn ccw_reverses_counting() {
    let mut t = DetentTracker::new();
    t.current_pos = 10;
    let mut ev = events();
    t.cross_detent(true, Direction::Ccw, &mut ev);
    assert_eq!(t.current_pos, 9);
    assert_eq!(ev[0], HapticEvt::Decrease);
}

#[test]
fn leaving_limit_marks_was_at_limit_and_settles() {
    let mut t = DetentTracker::new();
    t.current_pos = 255;
    let mut ev = events();
    t.cross_detent(true, Direction::Cw, &mut ev);
    let mut ev = events();
    t.cross_detent(false, Direction::Cw, &mut ev);
    assert!(!t.at_limit);
    assert!(t.was_at_limit);
    assert!(t.settle_after_limit());
    assert_eq!(t.current_pos, 254);
    assert!(!t.was_at_limit);
    assert!(!t.settle_after_limit());
}

#[test]
fn vernier_limit_is_scaled() {
    let mut t = DetentTracker::new();
    let p = DetentProfile { mode: HapticMode::Vernier, start_pos: 0, end_pos: 20, detent_count: 20, vernier: 5, ..DetentProfile::default() };
    t.load_profile(p, Some(100));
    let mut ev = events();
    assert!(!t.cross_detent(true, Direction::Cw, &mut ev));
    assert!(t.at_limit);
}

#[test]
fn test_load_profile_clamps_position() {
    let mut state = DetentTracker::new();
    state.current_pos = 500;
    let profile = DetentProfile { start_pos: 0, end_pos: 100, ..DetentProfile::default() };
    state.load_profile(profile, None);
    assert_eq!(state.current_pos, 100, "should clamp to end_pos");
}

#[test]
fn test_num_detents_calculation() {
    let mut state = DetentTracker::new();
    let profile = DetentProfile { start_pos: 10, end_pos: 50, ..DetentProfile::default() };
    state.load_profile(profile, Some(10));
    assert_eq!(state.num_detents, 40);
}

#[test]
fn load_profile_raises_position_below_start() {
    let mut t = DetentTracker::new();
    t.current_pos = 2;
    let p = DetentProfile { start_pos: 10, end_pos: 100, ..DetentProfile::default() };
    t.load_profile(p, None);
    assert_eq!(t.current_pos, 10);
    assert_eq!(t.last_pos, 10);
}

#[test]
fn two_opposite_crossings_cancel() {
    let mut t = DetentTracker::new();
    t.current_pos = 50;
    let mut ev = events();
    t.cross_detent(true, Direction::Cw, &mut ev);
    let mut ev = events();
    t.cross_detent(false, Direction::Cw, &mut ev);
    assert_eq!(t.current_pos, 50);
}

#[test]
fn gain_source_choice() {
    assert_eq!(proportional_gain_source(true, true), GainSource::Zero);
    assert_eq!(proportional_gain_source(true, false), GainSource::Endstop);
    assert_eq!(proportional_gain_source(false, false), GainSource::Detent);
}

#[test]
fn direction_codes_round_trip() {
    for d in [Direction::Unknown, Direction::Cw, Direction::Ccw] {
        assert_eq!(direction_from_code(Some(direction_code(d))), d);
    }
    assert_eq!(direction_from_code(None), Direction::Unknown);
    assert_eq!(direction_from_code(Some(9)), Direction::Unknown);
    assert_eq!(haptic_mode_code(HapticMode::Viscose), 2);
}

#[test]
fn calibration_default_is_unset() {
    let c = MotorCalibration::default();
    assert_eq!(c.direction, Direction::Unknown);
    assert_eq!(c.zero_angle_bits, (-12345.0f32).to_bits());
}

#[test]
fn haptic_config_round_trips_through_profile() {
    let h = HapticConfig {
        mode: "vernier".to_string(),
        start_pos: 3,
        end_pos: 90,
        detent_count: 12,
        vernier: 4,
        kx_force: true,
        output_ramp_bits: 5000.0f32.to_bits(),
        detent_strength_bits: 3.0f32.to_bits(),
    };
    let p = h.to_detent_profile();
    assert_eq!(p.mode, HapticMode::Vernier);
    let back = HapticConfig::from_detent_profile(&p);
    assert_eq!(back, h);
    let upper = HapticConfig { mode: "SPRING".to_string(), ..h.clone() };
    assert_eq!(upper.to_detent_profile().mode, HapticMode::Spring);
    let other = HapticConfig { mode: "bumpy".to_string(), ..h };
    assert_eq!(other.to_detent_profile().mode, HapticMode::Regular);
}

#[test]
fn calibration_storage_round_trip() {
    let c = MotorCalibration { direction: Direction::Ccw, zero_angle_bits: 1.5f32.to_bits() };
    let (d, z) = c.stored();
    assert_eq!((d, z), (2, 1.5f32.to_bits()));
    assert_eq!(MotorCalibration::from_stored(Some(d), Some(z)), c);
    assert_eq!(MotorCalibration::from_stored(None, None), MotorCalibration::default());
}

#[test]
fn crossing_into_a_new_list() {
    let mut t = DetentTracker::new();
    t.current_pos = t.profile.end_pos;
    let (moved, ev) = t.cross_detent_events(true, Direction::Cw);
    assert!(!moved);
    assert!(t.at_limit);
    assert_eq!(ev.as_slice(), &[HapticEvt::LimitPos]);
    let (moved, ev) = t.cross_detent_events(false, Direction::Cw);
    assert!(moved);
    assert!(t.was_at_limit);
    assert_eq!(ev.as_slice(), &[HapticEvt::Decrease, HapticEvt::Either]);
}
