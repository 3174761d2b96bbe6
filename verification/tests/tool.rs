use nanod::strings::{trim_str, contains_str, parse_u32, replace_all, split_fields};
use nanod::tool::cli::{baud_or, default_suite, Cli, Commands};
use nanod::tool::connection::{find_nanod_port, resolve_port, PortEntry, UsbInfo};
use nanod::tool::hwtest::{
    is_yes_answer, record, select_suites, unknown_suite_message, verdict_active_profile, verdict_confirmed,
    verdict_default_detents, verdict_encoder_events, verdict_endstop, verdict_get_no_profile, verdict_invalid_json,
    verdict_list_profiles, verdict_recalibrate, verdict_settings_roundtrip, verdict_upload_profile, Reply, Suite,
    TestResults,
};
use nanod::tool::media::art::{art_resize, convert_to_rgb565, Resample, generate_test_pattern, rgb8_to_rgb565_le, ArtError, ART_SIZE};
use nanod::tool::media::control::{
    after_url_art, art_bin_command, first_media_send, is_ack_line, media_key_for, small_art_url, track_changed,
    volume_for_position, MediaKey, MediaSend,
};
use nanod::tool::media::source::{
    is_running_answer, now_playing_script, parse_now_playing, process_check_script, volume_script, LinuxSource,
    MacOsSource, WindowsSource,
};

#[test]
fn strings_helpers() {
    assert!(contains_str("recalibrating motor", "recalibrat"));
    assert!(!contains_str("ab", "abc"));
    assert!(contains_str("x", ""));
    assert_eq!(split_fields("a|b|c", 2, '|'), vec!["a", "b|c"]);
    assert_eq!(split_fields("a|b|c", 7, '|'), vec!["a", "b", "c"]);
    assert_eq!(split_fields("", 3, '|'), vec![""]);
    assert_eq!(parse_u32("215"), Some(215));
    assert_eq!(parse_u32("+7"), Some(7));
    assert_eq!(parse_u32("4294967295"), Some(u32::MAX));
    assert_eq!(parse_u32("4294967296"), None);
    assert_eq!(parse_u32("215.306"), None);
    assert_eq!(parse_u32(""), None);
    assert_eq!(parse_u32("+"), None);
    assert_eq!(parse_u32("-1"), None);
    assert_eq!(replace_all("aXbXc", "X", "--"), "a--b--c");
    assert_eq!(replace_all("aaa", "aa", "b"), "ba");
}

#[test]
fn parse_matches_std_on_samples() {
    for s in ["0", "007", "+12", "99999999999", "1a", " 1", "", "+", "4294967295"] {
        assert_eq!(parse_u32(s), s.parse::<u32>().ok(), "input {s:?}");
    }
    for s in ["a|b", "|", "a||b|", "no sep", ""] {
        let ours: Vec<String> = split_fields(s, 3, '|');
        let theirs: Vec<String> = s.splitn(3, '|').map(|p| p.to_string()).collect();
        assert_eq!(ours, theirs, "input {s:?}");
    }
}

#[test]
fn test_pattern_gradient() {
    let p = generate_test_pattern();
    assert_eq!(p.len(), 240 * 240 * 2);
    // Top-left pixel: red 0, green 80, blue 0 -> 0x0280, little-endian.
    assert_eq!((p[0], p[1]), (0x80, 0x02));
    // Bottom-right pixel: red 254, green 80, blue 254.
    let r = 239u16 * 255 / 240;
    let v = ((r & 0xF8) << 8) | ((80 & 0xFC) << 3) | (r >> 3);
    let last = p.len() - 2;
    assert_eq!((p[last], p[last + 1]), ((v & 0xFF) as u8, (v >> 8) as u8));
}

#[test]
fn rgb565_packing_little_endian() {
    assert_eq!(rgb8_to_rgb565_le(&[0xFF, 0x7D, 0x00, 1]), vec![0xE0, 0xFB]);
    assert!(rgb8_to_rgb565_le(&[1, 2]).is_empty());
}

#[test]
fn convert_rejects_garbage_and_sizes_png() {
    assert_eq!(convert_to_rgb565(b"not an image", ART_SIZE), Err(ArtError::Decode));
    assert_eq!(ArtError::Decode.message(), "failed to decode image");
    let img = image::RgbImage::from_pixel(3, 2, image::Rgb([255, 0, 0]));
    let mut png = std::io::Cursor::new(Vec::new());
    image::DynamicImage::ImageRgb8(img).write_to(&mut png, image::ImageFormat::Png).unwrap();
    let out = convert_to_rgb565(png.get_ref(), 4).unwrap();
    assert_eq!(out.len(), 4 * 4 * 2);
    assert_eq!((out[0], out[1]), (0x00, 0xF8));
}

#[test]
fn now_playing_parsing() {
    let np = parse_now_playing("Spotify", "Song|Band|Album|215|42|playing|http://art").unwrap();
    assert_eq!(np.title, "Song");
    assert_eq!(np.artist, "Band");
    assert_eq!(np.album, "Album");
    assert_eq!(np.duration_s, 215);
    assert_eq!(np.position_s, 42);
    assert!(np.playing);
    assert_eq!(np.artwork_url.as_deref(), Some("http://art"));
    let np = parse_now_playing("Spotify", "S|B|A|215.306|x|paused").unwrap();
    assert_eq!((np.duration_s, np.position_s, np.playing, np.artwork_url), (0, 0, false, None));
    let np = parse_now_playing("Music", "S|B|A|1|2|playing|extra").unwrap();
    assert_eq!(np.artwork_url, None);
    assert!(!np.playing);
    assert!(parse_now_playing("Music", "S|B|A").is_none());
    assert!(parse_now_playing("Music", "").is_none());
    assert!(parse_now_playing("Plexamp", "a|b|c|1|2|playing").is_none());
}

#[test]
fn player_scripts() {
    assert!(now_playing_script("Spotify").unwrap().contains("tell application \"Spotify\""));
    assert!(now_playing_script("Music").unwrap().contains("tell application \"Music\""));
    assert!(now_playing_script("Plexamp").is_none());
    assert_eq!(
        process_check_script("Music"),
        "tell application \"System Events\" to (name of processes) contains \"Music\""
    );
    assert!(is_running_answer("true"));
    assert!(!is_running_answer("false"));
    let mut src = MacOsSource::new();
    assert_eq!(src.play_pause_script(), None);
    src.remember_app("Spotify");
    assert_eq!(src.play_pause_script().unwrap(), "tell application \"Spotify\" to playpause");
    assert_eq!(src.next_track_script().unwrap(), "tell application \"Spotify\" to next track");
    assert_eq!(src.prev_track_script().unwrap(), "tell application \"Spotify\" to previous track");
    assert_eq!(src.seek_script(90).unwrap(), "tell application \"Spotify\" to set player position to 90");
    assert_eq!(volume_script(55), "set volume output volume 55");
    let _ = LinuxSource::new();
    let _ = WindowsSource::new();
    assert_eq!(LinuxSource::now_playing_error(), "Linux MPRIS integration not yet implemented");
    assert_eq!(WindowsSource::now_playing_error(), "Windows SMTC integration not yet implemented");
}

#[test]
fn media_control_decisions() {
    assert_eq!(media_key_for(Some(0), "pressed"), MediaKey::PlayPause);
    assert_eq!(media_key_for(Some(1), "pressed"), MediaKey::ToggleMode);
    assert_eq!(media_key_for(Some(2), "pressed"), MediaKey::Previous);
    assert_eq!(media_key_for(Some(259), "pressed"), MediaKey::Next);
    assert_eq!(media_key_for(Some(0), "released"), MediaKey::Ignored);
    assert_eq!(media_key_for(None, "pressed"), MediaKey::Ignored);
    assert_eq!(volume_for_position(40), 40);
    assert_eq!(volume_for_position(400), 100);
    let last = Some(("T".to_string(), "A".to_string()));
    assert!(!track_changed(&last, "T", "A"));
    assert!(track_changed(&last, "T", "B"));
    assert!(track_changed(&None, "T", "A"));
    assert_eq!(
        small_art_url("https://i.scdn.co/image/ab67616d0000b273ff"),
        "https://i.scdn.co/image/ab67616d00004851ff"
    );
    assert_eq!(art_bin_command(115200), "{\"media_art_bin\":115200}");
    assert!(is_ack_line("{\"ack\":\"art_bin\"}"));
    assert!(!is_ack_line("{\"key\":1}"));
}

fn reply(shown: &str) -> Reply {
    Reply {
        shown: shown.to_string(),
        msg_text: None,
        has_profile: false,
        profile_name: None,
        has_settings: false,
        midi_channel: None,
        led_brightness: None,
        profiles_len: None,
    }
}

#[test]
fn results_record_and_summarise() {
    let mut r = TestResults::new();
    assert_eq!(r.pass("a"), "  [PASS] a");
    assert_eq!(r.fail("b", "broken"), "  [FAIL] b: broken");
    assert_eq!(r.skip("c", "later"), "  [SKIP] c: later");
    assert_eq!((r.passed_count(), r.failed_count(), r.skipped_count()), (1, 1, 1));
    assert_eq!(
        r.summary_lines(),
        vec!["\n--- Test Summary ---", "1 passed, 1 failed, 1 skipped (of 3)", "\nFailures:", "  - b: broken"]
    );
    let mut ok = TestResults::new();
    ok.pass("x");
    assert_eq!(ok.summary_lines().last().unwrap(), "\nAll tests passed!");
    assert_eq!(TestResults::new().summary_lines().len(), 2);
    let line = record(&mut ok, "y", Err("bad".to_string()));
    assert_eq!(line, "  [FAIL] y: bad");
    assert_eq!(ok.failed_count(), 1);
}

#[test]
fn suite_selection() {
    assert_eq!(select_suites("motor"), Some(vec![Suite::Motor]));
    assert_eq!(select_suites("all").unwrap()[0], Suite::Serial);
    assert_eq!(select_suites("all").unwrap().len(), 7);
    assert_eq!(select_suites("bogus"), None);
    assert_eq!(
        unknown_suite_message("bogus"),
        "Unknown suite 'bogus'. Available: motor, haptic, serial, buttons, leds, display, audio, all"
    );
    assert!(is_yes_answer("Y"));
    assert!(!is_yes_answer("yes"));
}

#[test]
fn check_verdicts() {
    assert_eq!(verdict_get_no_profile(&None), Err("no response within timeout".to_string()));
    assert_eq!(verdict_get_no_profile(&Some(reply("{}"))), Err("unexpected response: {}".to_string()));
    let mut with_msg = reply("m");
    with_msg.msg_text = Some("profile 'test_profile' set".to_string());
    assert_eq!(verdict_get_no_profile(&Some(with_msg.clone_reply())), Ok(()));
    assert_eq!(verdict_upload_profile(&Some(with_msg.clone_reply())), Ok(()));
    assert_eq!(verdict_recalibrate(&Some(with_msg.clone_reply())), Err("unexpected: profile 'test_profile' set".to_string()));
    assert_eq!(verdict_upload_profile(&Some(reply("{}"))), Err("no msg in response: {}".to_string()));
    assert_eq!(verdict_recalibrate(&Some(reply("{}"))), Err("no msg: {}".to_string()));
    let mut prof = reply("p");
    prof.has_profile = true;
    prof.profile_name = Some("other".to_string());
    assert_eq!(verdict_active_profile(&Some(prof)), Err("wrong profile name: other".to_string()));
    let mut settings = reply("s");
    settings.has_settings = true;
    settings.midi_channel = Some(7);
    assert_eq!(
        verdict_settings_roundtrip(&Some(settings)),
        Err("wrong values: midi=Some(7) led=None".to_string())
    );
    let mut list = reply("l");
    list.profiles_len = Some(Some(1));
    assert_eq!(verdict_list_profiles(&Some(list)), Err("expected >= 2 profiles, got 1".to_string()));
    let mut not_array = reply("l");
    not_array.profiles_len = Some(None);
    assert_eq!(verdict_list_profiles(&Some(not_array)), Err("profiles is not an array".to_string()));
    assert_eq!(verdict_invalid_json(&None), Ok(()));
    assert_eq!(verdict_default_detents(2), Err("expected >= 3 position events, got 2".to_string()));
    assert_eq!(verdict_encoder_events(1, 4), Err("expected >= 2 angle events, got 1 (of 4 total events)".to_string()));
    assert_eq!(verdict_endstop(false, true), Err("no events received".to_string()));
    assert_eq!(verdict_endstop(true, false), Err("user reports no endstop felt".to_string()));
    assert_eq!(verdict_confirmed(true, "r"), Ok(()));
}

trait CloneReply {
    fn clone_reply(&self) -> Reply;
}

impl CloneReply for Reply {
    fn clone_reply(&self) -> Reply {
        Reply {
            shown: self.shown.clone(),
            msg_text: self.msg_text.clone(),
            has_profile: self.has_profile,
            profile_name: self.profile_name.clone(),
            has_settings: self.has_settings,
            midi_channel: self.midi_channel,
            led_brightness: self.led_brightness,
            profiles_len: self.profiles_len,
        }
    }
}

fn usb(vid: u16, pid: u16) -> UsbInfo {
    UsbInfo { vid, pid, serial_number: None, manufacturer: None, product: None }
}

#[test]
fn port_selection() {
    let ports = vec![
        PortEntry { name: "/dev/ttyS0".to_string(), usb: None },
        PortEntry { name: "/dev/ttyACM0".to_string(), usb: Some(usb(0x1234, 0x811B)) },
        PortEntry { name: "/dev/ttyACM1".to_string(), usb: Some(usb(0x239A, 0x011B)) },
    ];
    let (name, info) = find_nanod_port(&ports).unwrap();
    assert_eq!(name, "/dev/ttyACM1");
    assert_eq!(info.pid, 0x011B);
    assert_eq!(
        find_nanod_port(&ports[..2]),
        Err("NanoD not found. Is the device connected?\nAvailable ports: /dev/ttyS0, /dev/ttyACM0".to_string())
    );
    let (name, info) = resolve_port(Some("/dev/ttyACM0"), &ports).unwrap();
    assert_eq!((name.as_str(), info.vid), ("/dev/ttyACM0", 0x1234));
    let (name, info) = resolve_port(Some("/dev/other"), &ports).unwrap();
    assert_eq!((name.as_str(), info.vid, info.pid), ("/dev/other", 0x239A, 0x811B));
    assert_eq!(resolve_port(None, &ports).unwrap().0, "/dev/ttyACM1");
}

#[test]
fn cli_values() {
    let cli = Cli { command: Commands::Test { suite: default_suite().to_string(), baud: None }, port: None, verbose: false };
    match cli.command {
        Commands::Test { suite, baud } => {
            assert_eq!(suite, "all");
            assert_eq!(baud_or(baud, 115200), 115200);
        }
        _ => panic!("expected the test command"),
    }
    assert_eq!(baud_or(Some(9600), 115200), 9600);
}

#[test]
fn art_is_the_packed_lanczos_resize_of_the_image() {
    let img = image::RgbImage::from_fn(5, 3, |x, y| image::Rgb([(x * 50) as u8, (y * 90) as u8, 200]));
    let mut png = std::io::Cursor::new(Vec::new());
    image::DynamicImage::ImageRgb8(img).write_to(&mut png, image::ImageFormat::Png).unwrap();
    let expected_rgb = image::load_from_memory(png.get_ref())
        .unwrap()
        .resize_exact(6, 6, image::imageops::FilterType::Lanczos3)
        .to_rgb8()
        .into_raw();
    let out = convert_to_rgb565(png.get_ref(), 6).unwrap();
    assert_eq!(out, rgb8_to_rgb565_le(&expected_rgb));
    assert_ne!(out, rgb8_to_rgb565_le(&vec![0u8; 6 * 6 * 3]));
}

#[test]
fn media_poll_sends_art_before_metadata() {
    let url = Some("https://i.scdn.co/image/ab67616d0000b273abc".to_string());
    assert_eq!(
        first_media_send(true, &url),
        MediaSend::ArtFromUrl("https://i.scdn.co/image/ab67616d00004851abc".to_string())
    );
    assert_eq!(first_media_send(true, &None), MediaSend::TestPattern);
    assert_eq!(first_media_send(false, &url), MediaSend::Meta);
    assert_eq!(after_url_art(false), MediaSend::TestPattern);
    assert_eq!(after_url_art(true), MediaSend::Meta);
}

#[test]
fn trim_matches_std() {
    for s in ["", "  ", "a", " a b ", "\t\r\nx\n", "\u{2003}y\u{205f}", "\u{200b}z"] {
        assert_eq!(trim_str(s), s.trim());
    }
}

#[test]
fn art_is_resized_square_with_lanczos3() {
    assert_eq!(art_resize(240), (240, 240, Resample::Lanczos3));
    assert_eq!(art_resize(0), (0, 0, Resample::Lanczos3));
}
