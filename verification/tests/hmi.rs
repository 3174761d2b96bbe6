use nanod::hmi::button::{ButtonDebouncer, ButtonEventType};
use nanod::hmi::types::{find_active_knob_value, KnobMapping, KnobOutput, KnobValue};

const ALL_RELEASED: [bool; 4] = [true, true, true, true];
const KEY_BITS: [u8; 4] = [0x1, 0x2, 0x4, 0x8];

fn press(levels: &mut [bool; 4], btn: usize) {
    levels[btn] = false;
}

fn release(levels: &mut [bool; 4], btn: usize) {
    levels[btn] = true;
}

#[test]
fn test_initial_state() {
    let db = ButtonDebouncer::new();
    assert_eq!(db.key_state(), 0);
}

#[test]
fn test_no_events_when_idle() {
    let mut db = ButtonDebouncer::new();
    let events = db.update(ALL_RELEASED, 0);
    assert!(events.is_empty());
    let events = db.update(ALL_RELEASED, 100);
    assert!(events.is_empty());
}

#[test]
fn test_press_after_debounce() {
    let mut db = ButtonDebouncer::new();
    let mut levels = ALL_RELEASED;
    press(&mut levels, 0);
    let events = db.update(levels, 0);
    assert!(events.is_empty());
    let events = db.update(levels, 10);
    assert!(events.is_empty());
    let events = db.update(levels, 15);
    assert_eq!(events.len(), 1);
    assert_eq!(events[0].index, 0);
    assert_eq!(events[0].event_type, ButtonEventType::Pressed);
    assert_eq!(events[0].key_state, 0x1);
}

#[test]
fn test_release_after_debounce() {
    let mut db = ButtonDebouncer::new();
    let mut levels = ALL_RELEASED;
    press(&mut levels, 0);
    db.update(levels, 0);
    db.update(levels, 50);
    assert_eq!(db.key_state(), 0x1);
    release(&mut levels, 0);
    db.update(levels, 100);
    let events = db.update(levels, 150);
    assert_eq!(events.len(), 1);
    assert_eq!(events[0].event_type, ButtonEventType::Released);
    assert_eq!(events[0].key_state, 0x0);
}

#[test]
fn test_rapid_toggle_suppressed() {
    let mut db = ButtonDebouncer::new();
    let mut levels = ALL_RELEASED;
    press(&mut levels, 0);
    db.update(levels, 0);
    release(&mut levels, 0);
    db.update(levels, 10);
    let events = db.update(levels, 100);
    assert!(events.is_empty());
    assert_eq!(db.key_state(), 0);
}

#[test]
fn test_simultaneous_two_buttons() {
    let mut db = ButtonDebouncer::new();
    let mut levels = ALL_RELEASED;
    press(&mut levels, 0);
    press(&mut levels, 2);
    db.update(levels, 0);
    let events = db.update(levels, 50);
    assert_eq!(events.len(), 2);
    assert_eq!(db.key_state(), 0x1 | 0x4);
}

#[test]
fn test_sequential_button_presses() {
    let mut db = ButtonDebouncer::new();
    let mut levels = ALL_RELEASED;
    press(&mut levels, 1);
    db.update(levels, 0);
    db.update(levels, 50);
    assert_eq!(db.key_state(), 0x2);
    press(&mut levels, 3);
    db.update(levels, 100);
    db.update(levels, 150);
    assert_eq!(db.key_state(), 0x2 | 0x8);
    release(&mut levels, 1);
    db.update(levels, 200);
    db.update(levels, 250);
    assert_eq!(db.key_state(), 0x8);
}

#[test]
fn test_all_four_buttons() {
    let mut db = ButtonDebouncer::new();
    let levels = [false, false, false, false];
    db.update(levels, 0);
    let events = db.update(levels, 50);
    assert_eq!(events.len(), 4);
    assert_eq!(db.key_state(), 0xF);
}

#[test]
fn test_key_state_bitmask_correct() {
    let mut db = ButtonDebouncer::new();
    let mut levels = ALL_RELEASED;
    for btn in 0..4 {
        press(&mut levels, btn);
        db.update(levels, btn as u32 * 100);
        db.update(levels, btn as u32 * 100 + 50);
        assert_ne!(db.key_state() & KEY_BITS[btn], 0, "button {btn} bit not set");
    }
    assert_eq!(db.key_state(), 0xF);
}

#[test]
fn test_event_contains_updated_key_state() {
    let mut db = ButtonDebouncer::new();
    let mut levels = ALL_RELEASED;
    press(&mut levels, 0);
    db.update(levels, 0);
    let events = db.update(levels, 50);
    assert_eq!(events[0].key_state, 0x1);
    press(&mut levels, 1);
    db.update(levels, 100);
    let events = db.update(levels, 150);
    assert_eq!(events[0].key_state, 0x3);
}

#[test]
fn test_no_duplicate_events() {
    let mut db = ButtonDebouncer::new();
    let mut levels = ALL_RELEASED;
    press(&mut levels, 0);
    db.update(levels, 0);
    db.update(levels, 50);
    let events = db.update(levels, 60);
    assert!(events.is_empty());
    let events = db.update(levels, 100);
    assert!(events.is_empty());
    let events = db.update(levels, 200);
    assert!(events.is_empty());
}

#[test]
fn test_wrapping_timestamp() {
    let mut db = ButtonDebouncer::new();
    let mut levels = ALL_RELEASED;
    press(&mut levels, 0);
    db.update(levels, u32::MAX - 10);
    let events = db.update(levels, 40);
    assert_eq!(events.len(), 1);
    assert_eq!(events[0].event_type, ButtonEventType::Pressed);
}

fn midi_knob_value(channel: u8, cc: u8) -> KnobValue {
    KnobValue {
        key_state: 0,
        value_min_bits: 0,
        value_max_bits: 0x42FE0000,
        step_bits: 0x3F800000,
        wrap: false,
        output: KnobOutput::Midi { channel, cc },
    }
}

#[test]
fn test_find_active_knob_default() {
    let knob = KnobMapping { values: vec![midi_knob_value(1, 10)] };
    let active = find_active_knob_value(&knob, 0);
    assert!(active.is_some());
}

#[test]
fn test_find_active_knob_key_state_match() {
    let knob = KnobMapping {
        values: vec![midi_knob_value(1, 10), KnobValue { key_state: 0x1, ..midi_knob_value(2, 20) }],
    };
    let active = find_active_knob_value(&knob, 0x1).unwrap();
    if let KnobOutput::Midi { channel, cc } = &active.output {
        assert_eq!(*channel, 2);
        assert_eq!(*cc, 20);
    } else {
        panic!("expected MIDI output");
    }
}

#[test]
fn test_find_active_knob_falls_back_to_default() {
    let knob = KnobMapping {
        values: vec![midi_knob_value(1, 10), KnobValue { key_state: 0x1, ..midi_knob_value(2, 20) }],
    };
    let active = find_active_knob_value(&knob, 0x2).unwrap();
    if let KnobOutput::Midi { channel, .. } = &active.output {
        assert_eq!(*channel, 1);
    } else {
        panic!("expected MIDI output");
    }
}

#[test]
fn test_find_active_knob_empty() {
    let knob = KnobMapping { values: vec![] };
    assert!(find_active_knob_value(&knob, 0).is_none());
}

#[test]
fn find_active_knob_without_default() {
    // Only a chorded mapping: nothing is active while no key is held.
    let knob = KnobMapping { values: vec![KnobValue { key_state: 0x4, ..midi_knob_value(3, 30) }] };
    assert!(find_active_knob_value(&knob, 0).is_none());
    assert!(find_active_knob_value(&knob, 0x4).is_some());
}

#[test]
fn debouncer_release_restores_mask() {
    // Pressing and releasing a button leaves the mask as before.
    let mut db = ButtonDebouncer::new();
    let mut levels = ALL_RELEASED;
    press(&mut levels, 2);
    db.update(levels, 0);
    db.update(levels, 20);
    assert_eq!(db.key_state(), 0x4);
    release(&mut levels, 2);
    db.update(levels, 40);
    db.update(levels, 60);
    assert_eq!(db.key_state(), 0);
}

#[test]
fn poll_events_name_exactly_the_changed_buttons_in_order() {
    let mut db = ButtonDebouncer::new();
    // Buttons 3 and 1 go down; both settle in the same poll.
    db.update([true, false, true, false], 0);
    let evs = db.update([true, false, true, false], 20);
    let evs = evs.as_slice();
    assert_eq!(evs.len(), 2);
    assert_eq!((evs[0].index, evs[0].event_type, evs[0].key_state), (1, ButtonEventType::Pressed, 0x2));
    assert_eq!((evs[1].index, evs[1].event_type, evs[1].key_state), (3, ButtonEventType::Pressed, 0xA));
    assert_eq!(db.key_state(), 0xA);
    // Button 1 is released and button 0 pressed in one poll.
    db.update([false, true, true, false], 40);
    let evs = db.update([false, true, true, false], 60);
    let evs = evs.as_slice();
    assert_eq!(evs.len(), 2);
    assert_eq!((evs[0].index, evs[0].event_type, evs[0].key_state), (0, ButtonEventType::Pressed, 0xB));
    assert_eq!((evs[1].index, evs[1].event_type, evs[1].key_state), (1, ButtonEventType::Released, 0x9));
    assert_eq!(db.key_state() & 0xF0, 0);
}
