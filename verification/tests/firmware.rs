use nanod::firmware::com_loop::{art_ack_line, complete_line, profile_storage_path, InputLine, route_action, settings_storage_path, Outgoing};
use nanod::firmware::dispatch::{decode_base64, Action, Dispatcher};
use nanod::firmware::display::{
    flush_byte_count, rect_window, color_hex, number_digits, number_row_pixels, pixels_to_be_bytes, rgb565, window_bytes,
};
use nanod::firmware::display_state::{media_arc, position_text, ArtBuffers, ArtReceiver, DisplayState, ART_BUF_SIZE};
use nanod::firmware::encoder::{mt6701_raw, mt6701_raw_from_word, RotationTracker};
use nanod::firmware::foc_loop::{
    calibration_direction, direction_from_motor, motor_profile_args, pwm_period_ticks, startup_motor_profile,
    FocSchedule,
};
use nanod::firmware::hmi_loop::{key_event_for, HmiState};
use nanod::firmware::ipc::{DisplayCommand, DisplayMode, FocCommand, HmiCommand};
use nanod::firmware::leds::{button_bytes, ring_bytes, ws2811_bit0, ws2811_bit1};
use nanod::haptic::profile::{DetentProfile, Direction, HapticMode};
use nanod::hmi::button::{ButtonEvent, ButtonEventType};
use nanod::led::types::{LedConfig, Rgb};
use nanod::protocol::command::{
    Command, Event, HapticConfig, MediaArtPayload, MotorCommand, ProfilePayload, SettingsPayload,
};
use nanod::protocol::parse::ParseError;

fn message_of(a: &Action) -> Option<(String, String)> {
    match a {
        Action::Respond(Event::Message(m)) => Some((m.msg.msg_type.clone(), m.msg.text.clone())),
        _ => None,
    }
}

fn haptic(mode: &str) -> HapticConfig {
    HapticConfig {
        mode: mode.to_string(),
        start_pos: 0,
        end_pos: 100,
        detent_count: 20,
        vernier: 1,
        kx_force: false,
        output_ramp_bits: 0x459C4000,
        detent_strength_bits: 0x40400000,
    }
}

#[test]
fn dispatch_set_profile_activates_and_updates() {
    let mut d = Dispatcher::new();
    let p = ProfilePayload { name: "knob".to_string(), haptic: Some(haptic("vernier")), led: Some(LedConfig::default()) };
    let acts = d.handle_command(Command::SetProfile(p));
    assert_eq!(acts.len(), 3);
    assert_eq!(message_of(&acts[0]), Some(("info".to_string(), "profile 'knob' set".to_string())));
    match &acts[1] {
        Action::UpdateHaptic(dp) => {
            assert_eq!(dp.mode, HapticMode::Vernier);
            assert_eq!(dp.end_pos, 100);
            assert_eq!(dp.detent_count, 20);
        }
        _ => panic!("expected a haptic update"),
    }
    assert!(matches!(acts[2], Action::UpdateLedConfig(_)));
    assert_eq!(d.profiles.active_name(), Some("knob"));
}

#[test]
fn dispatch_get_without_profile_is_error() {
    let mut d = Dispatcher::new();
    let acts = d.handle_command(Command::Get);
    assert_eq!(acts.len(), 1);
    assert_eq!(message_of(&acts[0]), Some(("error".to_string(), "no active profile".to_string())));
}

#[test]
fn dispatch_settings_merge_and_forward() {
    let mut d = Dispatcher::new();
    let s = SettingsPayload { midi_channel: Some(7), orientation: None, led_brightness: Some(42), idle_timeout_s: None };
    let acts = d.handle_command(Command::SetSettings(s));
    assert_eq!(d.settings.midi_channel, Some(7));
    assert_eq!(d.settings.orientation, Some(0));
    assert_eq!(d.settings.led_brightness, Some(42));
    assert_eq!(d.settings.idle_timeout_s, Some(30));
    assert_eq!(message_of(&acts[0]), Some(("info".to_string(), "settings updated".to_string())));
    assert!(matches!(acts[1], Action::UpdateSettings { brightness: 42, orientation: 0 }));
    let acts = d.handle_command(Command::GetSettings);
    match &acts[0] {
        Action::Respond(Event::SettingsResponse(r)) => assert_eq!(r.settings.midi_channel, Some(7)),
        _ => panic!("expected settings"),
    }
}

#[test]
fn dispatch_load_unknown_profile() {
    let mut d = Dispatcher::new();
    let acts = d.handle_command(Command::Load("ghost".to_string()));
    assert_eq!(message_of(&acts[0]), Some(("error".to_string(), "profile 'ghost' not found".to_string())));
}

#[test]
fn dispatch_load_known_profile() {
    let mut d = Dispatcher::new();
    d.handle_command(Command::SetProfile(ProfilePayload { name: "a".to_string(), haptic: Some(haptic("regular")), led: None }));
    d.handle_command(Command::SetProfile(ProfilePayload { name: "b".to_string(), haptic: None, led: None }));
    let acts = d.handle_command(Command::Load("a".to_string()));
    assert_eq!(acts.len(), 2);
    match &acts[0] {
        Action::Respond(Event::ProfileResponse(r)) => assert_eq!(r.profile.name, "a"),
        _ => panic!("expected the profile"),
    }
    assert!(matches!(acts[1], Action::UpdateHaptic(_)));
    assert_eq!(d.profiles.active_name(), Some("a"));
}

#[test]
fn dispatch_motor_and_save() {
    let mut d = Dispatcher::new();
    let acts = d.handle_command(Command::Motor(MotorCommand { recalibrate: true }));
    assert!(matches!(acts[0], Action::Recalibrate));
    assert_eq!(message_of(&acts[1]), Some(("info".to_string(), "recalibrating motor".to_string())));
    let acts = d.handle_command(Command::Motor(MotorCommand { recalibrate: false }));
    assert!(acts.is_empty());
    let acts = d.handle_command(Command::Save);
    assert!(matches!(acts[0], Action::Save));
    assert_eq!(message_of(&acts[1]), Some(("info".to_string(), "saving to flash".to_string())));
}

#[test]
fn dispatch_full_store_reports_error() {
    let mut d = Dispatcher::new();
    for i in 0..10 {
        d.handle_command(Command::SetProfile(ProfilePayload { name: format!("p{i}"), haptic: None, led: None }));
    }
    let acts = d.handle_command(Command::SetProfile(ProfilePayload { name: "x".to_string(), haptic: None, led: None }));
    assert_eq!(acts.len(), 1);
    assert_eq!(message_of(&acts[0]), Some(("error".to_string(), "profile storage full (max 10)".to_string())));
}

#[test]
fn dispatch_media_commands() {
    let mut d = Dispatcher::new();
    let acts = d.handle_command(Command::MediaMode(true));
    assert!(matches!(acts[0], Action::Display(DisplayCommand::SetMode(DisplayMode::Media))));
    assert_eq!(message_of(&acts[1]), Some(("info".to_string(), "media mode on".to_string())));
    let acts = d.handle_command(Command::MediaArt(MediaArtPayload { offset: 8, data: "AQID".to_string() }));
    match &acts[0] {
        Action::Display(DisplayCommand::MediaArtChunk { offset, data }) => {
            assert_eq!(*offset, 8);
            assert_eq!(data, &vec![1u8, 2, 3]);
        }
        _ => panic!("expected an art chunk"),
    }
    let acts = d.handle_command(Command::MediaArtBin(1000));
    assert!(matches!(acts[0], Action::BinaryArtReceive(1000)));
    let acts = d.handle_command(Command::MediaHaptic("volume".to_string()));
    match &acts[0] {
        Action::UpdateHaptic(p) => {
            assert_eq!(p.end_pos, 100);
            assert_eq!(p.detent_count, 20);
            assert_eq!(p.mode, HapticMode::Regular);
        }
        _ => panic!("expected a haptic update"),
    }
    assert_eq!(message_of(&acts[1]), Some(("info".to_string(), "media haptic: volume".to_string())));
    let acts = d.handle_command(Command::MediaHaptic("other".to_string()));
    match &acts[0] {
        Action::UpdateHaptic(p) => assert_eq!(p.mode, HapticMode::Viscose),
        _ => panic!("expected a haptic update"),
    }
}

#[test]
fn dispatch_parse_error_answered() {
    let mut d = Dispatcher::new();
    let acts = d.handle_parsed(Err(ParseError::UnknownCommand));
    assert_eq!(acts.len(), 1);
    assert_eq!(message_of(&acts[0]).unwrap().0, "error");
}

#[test]
fn base64_decodes_groups_and_padding() {
    assert_eq!(decode_base64("TWFu"), b"Man".to_vec());
    assert_eq!(decode_base64("TWE="), b"Ma".to_vec());
    assert_eq!(decode_base64("TQ=="), b"M".to_vec());
    assert_eq!(decode_base64(""), Vec::<u8>::new());
}

#[test]
fn encoder_decodes_angle() {
    assert_eq!(mt6701_raw(0xFF, 0xFF), 0x3FFF);
    assert_eq!(mt6701_raw(0x01, 0x04), 65);
    assert_eq!(mt6701_raw_from_word(0x0000_0401), 65);
}

#[test]
fn rotation_tracker_counts_wraps() {
    let mut t = RotationTracker::new();
    t.update(16000);
    assert_eq!(t.full_rotations, -1);
    t.update(100);
    assert_eq!(t.full_rotations, 0);
    t.update(8000);
    assert_eq!(t.full_rotations, 0);
    t.update(16383);
    assert_eq!(t.full_rotations, -1);
    t.set_zero(5);
    assert_eq!((t.prev_raw, t.full_rotations), (5, 0));
}

#[test]
fn led_frames_in_strip_order() {
    let mut ring = [Rgb::default(); 60];
    ring[1] = Rgb::new(1, 2, 3);
    let bytes = ring_bytes(&ring);
    assert_eq!(bytes.len(), 180);
    assert_eq!(&bytes[3..6], &[1, 2, 3]);
    let mut buttons = [Rgb::default(); 8];
    buttons[0] = Rgb::new(1, 2, 3);
    let bytes = button_bytes(&buttons);
    assert_eq!(bytes.len(), 24);
    assert_eq!(&bytes[0..3], &[2, 1, 3]);
    assert_eq!((ws2811_bit0().duration0, ws2811_bit0().duration1), (3, 9));
    assert_eq!((ws2811_bit1().duration0, ws2811_bit1().duration1), (6, 6));
}

#[test]
fn display_helpers() {
    assert_eq!(rgb565(0xFF, 0x7D, 0x00), 0xFBE0);
    assert_eq!(window_bytes(0, 239), [0, 0, 0, 239]);
    assert_eq!(pixels_to_be_bytes(&[0x1234]), vec![0x12, 0x34]);
    assert_eq!(number_digits(0), vec![0]);
    assert_eq!(number_digits(1203), vec![1, 2, 0, 3]);
    let c = color_hex(0x123456);
    assert_eq!((c.red, c.green, c.blue), (0x12, 0x34, 0x56));
}

#[test]
fn number_row_draws_centred_digit() {
    // One digit: 40 columns wide starting at column 100. The top row of
    // the digit 1 lights only its middle column (columns 116..124).
    let row = number_row_pixels(1, 0, 0xFFFF, 0);
    assert_eq!(row.len(), 240);
    for x in 0..240 {
        let lit = (116..124).contains(&x);
        assert_eq!(row[x], if lit { 0xFFFF } else { 0 }, "column {x}");
    }
}

#[test]
fn art_buffers_write_and_swap() {
    let mut art = ArtBuffers::new();
    art.write_chunk(ART_BUF_SIZE as u32 - 2, &[7, 8, 9]);
    assert_eq!(&art.load[ART_BUF_SIZE - 2..], &[7, 8]);
    art.swap();
    assert_eq!(art.display[ART_BUF_SIZE - 1], 8);
    assert_eq!(art.load[ART_BUF_SIZE - 1], 0);
    let mut r = ArtReceiver::new(200_000);
    assert_eq!(r.remaining(), ART_BUF_SIZE);
    r.accept(ART_BUF_SIZE);
    assert!(r.is_done());
}

#[test]
fn display_state_decisions() {
    let mut s = DisplayState::new();
    assert!(!s.switch_mode(DisplayMode::Value));
    assert!(s.switch_mode(DisplayMode::Media));
    assert_eq!(s.take_position(Some(12)), Some(12));
    assert_eq!(s.take_position(Some(12)), None);
    assert_eq!(s.take_position(None), None);
    assert_eq!(media_arc(0, 5), None);
    assert_eq!(media_arc(200, 5), Some((200, 5)));
    assert_eq!(position_text(255), "255");
}

#[test]
fn hmi_state_applies_commands_and_reports_keys() {
    let mut s = HmiState::new();
    s.apply_command(HmiCommand::UpdateSettings { brightness: 50, orientation: 1 });
    assert_eq!((s.brightness, s.orientation), (50, 1));
    let keys = s.poll_buttons([false, true, true, true], 0);
    assert!(keys.is_empty());
    let keys = s.poll_buttons([false, true, true, true], 20);
    assert_eq!(keys.len(), 1);
    assert_eq!(keys[0].key.num, 0);
    assert_eq!(keys[0].key.state, "pressed");
    let k = key_event_for(ButtonEvent { index: 2, event_type: ButtonEventType::Released, key_state: 0 });
    assert_eq!(k.key.state, "released");
}

#[test]
fn hmi_state_renders_scaled_frame() {
    let mut s = HmiState::new();
    s.apply_command(HmiCommand::UpdateSettings { brightness: 255, orientation: 0 });
    // Not due yet at 10 ms after the start.
    assert!(!s.render_leds(10));
    assert!(s.render_leds(16));
    // Pointer at position 0 is LED 0 in white scaled by 100.
    assert_eq!(s.ring_buf[0], Rgb::new(100, 100, 100));
    // Disabled LEDs: the frame is due but not shown.
    let mut cfg = LedConfig::default();
    cfg.enabled = false;
    s.apply_command(HmiCommand::UpdateLedConfig(cfg));
    assert!(!s.render_leds(40));
    assert_eq!(s.last_led_show_ms, 40);
}

#[test]
fn com_routing_and_paths() {
    match route_action(Action::Recalibrate) {
        Outgoing::Foc(FocCommand::Recalibrate) => {}
        _ => panic!("recalibration goes to the motor thread"),
    }
    match route_action(Action::UpdateSettings { brightness: 1, orientation: 2 }) {
        Outgoing::Hmi(HmiCommand::UpdateSettings { brightness: 1, orientation: 2 }) => {}
        _ => panic!("settings go to the HMI thread"),
    }
    assert!(matches!(route_action(Action::BinaryArtReceive(9)), Outgoing::ReceiveArt(9)));
    assert!(matches!(route_action(Action::NoAction), Outgoing::Nothing));
    assert_eq!(profile_storage_path("knob"), "/spiffs/profiles/knob.json");
    assert_eq!(settings_storage_path(), "/spiffs/device_settings.json");
    assert_eq!(art_ack_line(), "{\"ack\":\"art_bin\"}\n");
}

#[test]
fn foc_schedule_and_profile_args() {
    let mut s = FocSchedule::new();
    let t = s.tick(10_000);
    assert!(t.poll_commands);
    assert!(t.publish_angle);
    assert_eq!(t.loops_in_window, None);
    let t = s.tick(15_000);
    assert!(!t.poll_commands);
    assert!(!t.publish_angle);
    let t = s.tick(5_000_000);
    assert_eq!(t.loops_in_window, Some(3));
    assert_eq!(s.loop_count, 0);
    let p = DetentProfile {
        mode: HapticMode::Spring,
        start_pos: 1,
        end_pos: 2,
        detent_count: 3,
        vernier: 4,
        kx_force: true,
        output_ramp_bits: 5,
        detent_strength_bits: 6,
    };
    let a = motor_profile_args(p);
    assert_eq!((a.mode, a.kx_force, a.detent_strength_bits), (3, 1, 6));
    assert_eq!(startup_motor_profile().detent_count, 20);
    assert_eq!(calibration_direction(Direction::Unknown), None);
    assert_eq!(calibration_direction(Direction::Ccw), Some(2));
    assert_eq!(direction_from_motor(1), Direction::Cw);
    assert_eq!(direction_from_motor(7), Direction::Unknown);
    assert_eq!(pwm_period_ticks(20_000), 50);
}

#[test]
fn display_areas() {
    assert_eq!(rect_window(10, 20, 5, 2), (10, 20, 14, 21));
    assert_eq!(flush_byte_count(0, 0, 239, 23), 240 * 24 * 2);
}

#[test]
fn set_then_get_law_example() {
    let mut d = Dispatcher::new();
    let p = ProfilePayload { name: "p".to_string(), haptic: Some(haptic("spring")), led: None };
    d.handle_command(Command::SetProfile(p.clone()));
    let acts = d.handle_command(Command::Get);
    match &acts[0] {
        Action::Respond(Event::ProfileResponse(r)) => assert_eq!(r.profile, p),
        _ => panic!("expected the profile that was set"),
    }
}

#[test]
fn base64_round_trip_with_blanks_and_without_padding() {
    let data: Vec<u8> = (0u8..=255).collect();
    let encoded = "AAECAwQFBgcICQoLDA0ODxAREhMUFRYXGBkaGxwdHh8gISIjJCUmJygpKissLS4vMDEyMzQ1Njc4OTo7PD0+P0BBQkNERUZHSElKS0xNTk9QUVJTVFVWV1hZWltcXV5fYGFiY2RlZmdoaWprbG1ub3BxcnN0dXZ3eHl6e3x9fn+AgYKDhIWGh4iJiouMjY6PkJGSk5SVlpeYmZqbnJ2en6ChoqOkpaanqKmqq6ytrq+wsbKztLW2t7i5uru8vb6/wMHCw8TFxsfIycrLzM3Oz9DR0tPU1dbX2Nna29zd3t/g4eLj5OXm5+jp6uvs7e7v8PHy8/T19vf4+fr7/P3+/w==";
    assert_eq!(decode_base64(encoded), data);
    assert_eq!(decode_base64(encoded.trim_end_matches('=')), data);
    assert_eq!(decode_base64("TW\nFu\r\nTW E="), b"ManMa".to_vec());
    assert_eq!(decode_base64("TQ"), b"M".to_vec());
    assert_eq!(decode_base64("TWE"), b"Ma".to_vec());
}

#[test]
fn serial_input_framing() {
    assert_eq!(complete_line(""), InputLine::Incomplete);
    assert_eq!(complete_line("{\"list\": true}"), InputLine::Incomplete);
    assert_eq!(complete_line(" \t\r\n"), InputLine::Blank);
    assert_eq!(complete_line("\n"), InputLine::Blank);
    assert_eq!(
        complete_line("  {\"list\": true}\r\n"),
        InputLine::Complete("{\"list\": true}".to_string())
    );
    assert_eq!(complete_line("\u{a0}get\u{3000}\n"), InputLine::Complete("get".to_string()));
}
