//! Button debounce state machine for 4 GPIO buttons with INPUT_PULLUP.
//!
//! - a level must hold for the debounce window before it is accepted
//! - INPUT_PULLUP: pressed = LOW (false), released = HIGH (true)
//! - key state is a 4-bit bitmask (bit 0 = button A, bit 1 = button B, ...)
use vstd::prelude::*;

use crate::bounded::{button_events, new_event_list, push_event};

verus! {

/// Default debounce time in milliseconds.
/// 15ms is enough for mechanical switches (typical bounce is 5-10ms).
pub const DEFAULT_DEBOUNCE_MS: u32 = 15;

#[derive(Debug, Clone, Copy, PartialEq, Eq, Structural)]
pub enum ButtonEventType {
    Pressed,
    Released,
}

#[derive(Debug, Clone, Copy, PartialEq, Eq, Structural)]
pub struct ButtonEvent {
    /// Button index (0-3).
    pub index: u8,
    /// Press or release.
    pub event_type: ButtonEventType,
    /// Full 4-bit key state bitmask after this event.
    pub key_state: u8,
}

/// Debounce bookkeeping of one button.
#[derive(Debug, Clone, Copy, PartialEq, Eq, Structural)]
pub struct ButtonState {
    /// Last raw GPIO level read.
    pub raw_level: bool,
    /// Debounced stable level (true = released for INPUT_PULLUP).
    pub stable_level: bool,
    /// Timestamp (ms) of last raw level change.
    pub last_change_ms: u32,
}

impl Default for ButtonState {
    fn default() -> (s: Self)
        ensures
            s == (ButtonState { raw_level: true, stable_level: true, last_change_ms: 0 }),
    {
        ButtonState { raw_level: true, stable_level: true, last_change_ms: 0 }
    }
}

/// Abstract state of a debouncer.
pub struct DebouncerView {
    pub states: Seq<ButtonState>,
    pub key_state: u8,
    pub debounce_ms: u32,
}

/// Bit of button `i` in the key-state mask.
pub open spec fn key_bit(i: int) -> u8 {
    if i == 0 {
        1
    } else if i == 1 {
        2
    } else if i == 2 {
        4
    } else {
        8
    }
}

/// A new raw reading: a changed level restarts the debounce window.
pub open spec fn sample_level(s: ButtonState, level: bool, now_ms: u32) -> ButtonState {
    if level != s.raw_level {
        ButtonState { raw_level: level, stable_level: s.stable_level, last_change_ms: now_ms }
    } else {
        s
    }
}

/// The raw level differs from the accepted one and has held for the window
/// (time measured modulo 2^32, so a wrapping millisecond counter works).
pub open spec fn settles(s: ButtonState, now_ms: u32, debounce_ms: u32) -> bool {
    s.raw_level != s.stable_level && now_ms.wrapping_sub(s.last_change_ms) >= debounce_ms
}

/// Effect of one `update` on buttons `0..n`: the state reached and the
/// events emitted so far, in button order.
pub open spec fn debounce_prefix(v: DebouncerView, levels: Seq<bool>, now_ms: u32, n: int) -> (
    DebouncerView,
    Seq<ButtonEvent>,
)
    decreases n,
{
    if n <= 0 {
        (v, Seq::empty())
    } else {
        let (p, evs) = debounce_prefix(v, levels, now_ms, n - 1);
        let i = n - 1;
        let s = sample_level(p.states[i], levels[i], now_ms);
        if settles(s, now_ms, p.debounce_ms) {
            let s2 = ButtonState {
                raw_level: s.raw_level,
                stable_level: s.raw_level,
                last_change_ms: s.last_change_ms,
            };
            let pressed = !s2.stable_level;
            let key = if pressed {
                p.key_state | key_bit(i)
            } else {
                p.key_state & !key_bit(i)
            };
            let ev = ButtonEvent {
                index: i as u8,
                event_type: if pressed {
                    ButtonEventType::Pressed
                } else {
                    ButtonEventType::Released
                },
                key_state: key,
            };
            (
                DebouncerView { states: p.states.update(i, s2), key_state: key, debounce_ms: p.debounce_ms },
                evs.push(ev),
            )
        } else {
            (
                DebouncerView {
                    states: p.states.update(i, s),
                    key_state: p.key_state,
                    debounce_ms: p.debounce_ms,
                },
                evs,
            )
        }
    }
}

/// Key-state mask that the accepted levels call for: bit `i` set exactly
/// when button `i` is held down (stable level low).
pub open spec fn pressed_mask(states: Seq<ButtonState>) -> u8 {
    (if !states[0].stable_level { 1u8 } else { 0u8 }) | (if !states[1].stable_level {
        2u8
    } else {
        0u8
    }) | (if !states[2].stable_level { 4u8 } else { 0u8 }) | (if !states[3].stable_level {
        8u8
    } else {
        0u8
    })
}

/// Debounce state machine for 4 buttons.
///
/// Call `update()` every 10ms with raw GPIO levels and the current timestamp.
/// Returns any button events that occurred.
pub struct ButtonDebouncer {
    states: [ButtonState; 4],
    key_state: u8,
    debounce_ms: u32,
}

impl View for ButtonDebouncer {
    type V = DebouncerView;

    closed spec fn view(&self) -> DebouncerView {
        DebouncerView { states: self.states@, key_state: self.key_state, debounce_ms: self.debounce_ms }
    }
}

impl ButtonDebouncer {
    /// The key-state mask always matches the accepted levels.
    pub open spec fn wf(&self) -> bool {
        &&& self@.states.len() == 4
        &&& self@.key_state == pressed_mask(self@.states)
    }

    pub fn new() -> (d: Self)
        ensures
            d.wf(),
            d@.key_state == 0,
            d@.debounce_ms == DEFAULT_DEBOUNCE_MS,
            forall|i: int|
                0 <= i < 4 ==> #[trigger] d@.states[i] == (ButtonState {
                    raw_level: true,
                    stable_level: true,
                    last_change_ms: 0,
                }),
    {
        let s = ButtonState::default();
        let d = ButtonDebouncer { states: [s, s, s, s], key_state: 0, debounce_ms: DEFAULT_DEBOUNCE_MS };
        assert(d@.states.len() == 4);
        assert(d@.key_state == pressed_mask(d@.states)) by {
            assert((0u8 | 0u8 | 0u8 | 0u8) == 0u8) by (bit_vector);
        }
        d
    }

    /// Current 4-bit key state bitmask.
    pub fn key_state(&self) -> (k: u8)
        ensures
            k == self@.key_state,
    {
        self.key_state
    }

    /// Feed raw GPIO levels and current time. Returns any debounced events.
    ///
    /// `levels[i]` is the raw GPIO read for button i.
    /// INPUT_PULLUP: `true` = released (high), `false` = pressed (low).
    pub fn update(&mut self, levels: [bool; 4], now_ms: u32) -> (events: heapless::Vec<ButtonEvent, 4>)
        requires
            old(self).wf(),
        ensures
            final(self).wf(),
            final(self)@ == debounce_prefix(old(self)@, levels@, now_ms, 4).0,
            button_events(events) == debounce_prefix(old(self)@, levels@, now_ms, 4).1,
            events_match_changes(old(self)@.key_state, final(self)@.key_state, levels@, button_events(events)),
    {
        let mut events = new_event_list();
        let ghost start = self@;
        let mut i: usize = 0;
        while i < 4
            invariant
                0 <= i <= 4,
                start.states.len() == 4,
                self@.states.len() == 4,
                (self@, button_events(events)) == debounce_prefix(start, levels@, now_ms, i as int),
                button_events(events).len() <= i,
                self@.key_state == pressed_mask(self@.states),
            decreases 4 - i,
        {
            let ghost before = self@;
            let mut state = self.states[i];
            let level = levels[i];

            // Detect raw level change
            if level != state.raw_level {
                state.raw_level = level;
                state.last_change_ms = now_ms;
            }
            // Check if stable for debounce window
            if state.raw_level != state.stable_level && now_ms.wrapping_sub(state.last_change_ms)
                >= self.debounce_ms {
                state.stable_level = state.raw_level;
                let bit = key_bit_exec(i);
                if !state.stable_level {
                    // Pressed
                    proof {
                        lemma_mask_set(before.states, i as int);
                    }
                    self.key_state = self.key_state | bit;
                    self.states[i] = state;
                    let _ = push_event(
                        &mut events,
                        ButtonEvent {
                            index: i as u8,
                            event_type: ButtonEventType::Pressed,
                            key_state: self.key_state,
                        },
                    );
                } else {
                    // Released
                    proof {
                        lemma_mask_clear(before.states, i as int);
                    }
                    self.key_state = self.key_state & !bit;
                    self.states[i] = state;
                    let _ = push_event(
                        &mut events,
                        ButtonEvent {
                            index: i as u8,
                            event_type: ButtonEventType::Released,
                            key_state: self.key_state,
                        },
                    );
                }
            } else {
                proof {
                    lemma_mask_unchanged(before.states, i as int, state);
                }
                self.states[i] = state;
            }
            assert(self@.states =~= debounce_prefix(start, levels@, now_ms, i + 1).0.states);
            i = i + 1;
        }
        proof {
            law_events_match_changed_bits(start, levels@, now_ms);
        }
        events
    }
}

fn key_bit_exec(i: usize) -> (b: u8)
    requires
        i < 4,
    ensures
        b == key_bit(i as int),
{
    if i == 0 {
        1
    } else if i == 1 {
        2
    } else if i == 2 {
        4
    } else {
        8
    }
}

/// Setting the bit of a button that becomes held gives the mask of the new levels.
proof fn lemma_mask_set(states: Seq<ButtonState>, i: int)
    requires
        states.len() == 4,
        0 <= i < 4,
    ensures
        forall|s: ButtonState|
            !s.stable_level ==> #[trigger] pressed_mask(states.update(i, s)) == pressed_mask(states)
                | key_bit(i),
{
    assert forall|s: ButtonState| !s.stable_level implies #[trigger] pressed_mask(
        states.update(i, s),
    ) == pressed_mask(states) | key_bit(i) by {
        let n = states.update(i, s);
        let m0: u8 = if !states[0].stable_level { 1 } else { 0 };
        let m1: u8 = if !states[1].stable_level { 2 } else { 0 };
        let m2: u8 = if !states[2].stable_level { 4 } else { 0 };
        let m3: u8 = if !states[3].stable_level { 8 } else { 0 };
        if i == 0 {
            assert((m0 == 0 || m0 == 1) && (m1 == 0 || m1 == 2) && (m2 == 0 || m2 == 4) && (m3 == 0
                || m3 == 8) ==> (m0 | m1 | m2 | m3) | 1u8 == (1u8 | m1 | m2 | m3)) by (bit_vector);
        } else if i == 1 {
            assert((m0 == 0 || m0 == 1) && (m1 == 0 || m1 == 2) && (m2 == 0 || m2 == 4) && (m3 == 0
                || m3 == 8) ==> (m0 | m1 | m2 | m3) | 2u8 == (m0 | 2u8 | m2 | m3)) by (bit_vector);
        } else if i == 2 {
            assert((m0 == 0 || m0 == 1) && (m1 == 0 || m1 == 2) && (m2 == 0 || m2 == 4) && (m3 == 0
                || m3 == 8) ==> (m0 | m1 | m2 | m3) | 4u8 == (m0 | m1 | 4u8 | m3)) by (bit_vector);
        } else {
            assert((m0 == 0 || m0 == 1) && (m1 == 0 || m1 == 2) && (m2 == 0 || m2 == 4) && (m3 == 0
                || m3 == 8) ==> (m0 | m1 | m2 | m3) | 8u8 == (m0 | m1 | m2 | 8u8)) by (bit_vector);
        }
        assert(n[0] == (if i == 0 { s } else { states[0] }));
        assert(n[1] == (if i == 1 { s } else { states[1] }));
        assert(n[2] == (if i == 2 { s } else { states[2] }));
        assert(n[3] == (if i == 3 { s } else { states[3] }));
    }
}

/// Clearing the bit of a button that becomes released gives the mask of the new levels.
proof fn lemma_mask_clear(states: Seq<ButtonState>, i: int)
    requires
        states.len() == 4,
        0 <= i < 4,
    ensures
        forall|s: ButtonState|
            s.stable_level ==> #[trigger] pressed_mask(states.update(i, s)) == pressed_mask(states)
                & !key_bit(i),
{
    assert forall|s: ButtonState| s.stable_level implies #[trigger] pressed_mask(
        states.update(i, s),
    ) == pressed_mask(states) & !key_bit(i) by {
        let n = states.update(i, s);
        let m0: u8 = if !states[0].stable_level { 1 } else { 0 };
        let m1: u8 = if !states[1].stable_level { 2 } else { 0 };
        let m2: u8 = if !states[2].stable_level { 4 } else { 0 };
        let m3: u8 = if !states[3].stable_level { 8 } else { 0 };
        if i == 0 {
            assert((m0 == 0 || m0 == 1) && (m1 == 0 || m1 == 2) && (m2 == 0 || m2 == 4) && (m3 == 0
                || m3 == 8) ==> (m0 | m1 | m2 | m3) & !1u8 == (0u8 | m1 | m2 | m3)) by (bit_vector);
        } else if i == 1 {
            assert((m0 == 0 || m0 == 1) && (m1 == 0 || m1 == 2) && (m2 == 0 || m2 == 4) && (m3 == 0
                || m3 == 8) ==> (m0 | m1 | m2 | m3) & !2u8 == (m0 | 0u8 | m2 | m3)) by (bit_vector);
        } else if i == 2 {
            assert((m0 == 0 || m0 == 1) && (m1 == 0 || m1 == 2) && (m2 == 0 || m2 == 4) && (m3 == 0
                || m3 == 8) ==> (m0 | m1 | m2 | m3) & !4u8 == (m0 | m1 | 0u8 | m3)) by (bit_vector);
        } else {
            assert((m0 == 0 || m0 == 1) && (m1 == 0 || m1 == 2) && (m2 == 0 || m2 == 4) && (m3 == 0
                || m3 == 8) ==> (m0 | m1 | m2 | m3) & !8u8 == (m0 | m1 | m2 | 0u8)) by (bit_vector);
        }
        assert(n[0] == (if i == 0 { s } else { states[0] }));
        assert(n[1] == (if i == 1 { s } else { states[1] }));
        assert(n[2] == (if i == 2 { s } else { states[2] }));
        assert(n[3] == (if i == 3 { s } else { states[3] }));
    }
}

/// Replacing a button's state without changing its accepted level keeps the mask.
proof fn lemma_mask_unchanged(states: Seq<ButtonState>, i: int, s: ButtonState)
    requires
        states.len() == 4,
        0 <= i < 4,
        s.stable_level == states[i].stable_level,
    ensures
        pressed_mask(states.update(i, s)) == pressed_mask(states),
{
    let n = states.update(i, s);
    assert(n[0].stable_level == states[0].stable_level);
    assert(n[1].stable_level == states[1].stable_level);
    assert(n[2].stable_level == states[2].stable_level);
    assert(n[3].stable_level == states[3].stable_level);
}

impl Default for ButtonDebouncer {
    fn default() -> (d: Self)
        ensures
            d.wf(),
            d@.key_state == 0,
    {
        Self::new()
    }
}

/// Polling buttons whose levels already stand accepted changes nothing
/// and reports no event, however often it is repeated.
pub proof fn law_steady_levels_are_quiet(v: DebouncerView, levels: Seq<bool>, now_ms: u32, n: int)
    requires
        0 <= n <= 4,
        v.states.len() == 4,
        levels.len() == 4,
        forall|i: int|
            0 <= i < 4 ==> (#[trigger] v.states[i]).raw_level == levels[i] && v.states[i].stable_level
                == levels[i],
    ensures
        debounce_prefix(v, levels, now_ms, n) == (v, Seq::<ButtonEvent>::empty()),
    decreases n,
{
    if n > 0 {
        law_steady_levels_are_quiet(v, levels, now_ms, n - 1);
        let i = n - 1;
        assert(v.states.update(i, v.states[i]) =~= v.states);
    }
}

/// Whether button `i`'s bit is set in a key-state mask.
pub open spec fn key_held(mask: u8, i: int) -> bool {
    mask & key_bit(i) != 0
}

/// The accepted states after `i` of a poll that started at `start` and
/// ended at `end`: buttons up to `i` already polled, the rest as before.
pub open spec fn states_after(end: Seq<ButtonState>, start: Seq<ButtonState>, i: int) -> Seq<ButtonState> {
    Seq::new(4, |j: int| if j <= i { end[j] } else { start[j] })
}

/// A mask built from four accepted levels holds bit `i` exactly when
/// button `i` is down, and no bit above the four buttons.
proof fn lemma_mask_bits(states: Seq<ButtonState>)
    requires
        states.len() == 4,
    ensures
        forall|i: int| 0 <= i < 4 ==> (key_held(pressed_mask(states), i) <==> !(
        #[trigger] states[i]).stable_level),
        pressed_mask(states) & 0xF0u8 == 0,
{
    let m0: u8 = if !states[0].stable_level { 1 } else { 0 };
    let m1: u8 = if !states[1].stable_level { 2 } else { 0 };
    let m2: u8 = if !states[2].stable_level { 4 } else { 0 };
    let m3: u8 = if !states[3].stable_level { 8 } else { 0 };
    let m: u8 = m0 | m1 | m2 | m3;
    assert((m0 == 0 || m0 == 1) && (m1 == 0 || m1 == 2) && (m2 == 0 || m2 == 4) && (m3 == 0 || m3
        == 8) && m == m0 | m1 | m2 | m3 ==> (m & 1u8 != 0 <==> m0 == 1) && (m & 2u8 != 0 <==> m1 == 2)
        && (m & 4u8 != 0 <==> m2 == 4) && (m & 8u8 != 0 <==> m3 == 8) && m & 0xF0u8 == 0)
        by (bit_vector);
}

/// What one poll does to buttons `0..n`, stated on accepted levels.
proof fn lemma_prefix_changes(v: DebouncerView, levels: Seq<bool>, now_ms: u32, n: int)
    requires
        0 <= n <= 4,
        v.states.len() == 4,
        v.key_state == pressed_mask(v.states),
        levels.len() == 4,
    ensures
        ({
            let (p, evs) = debounce_prefix(v, levels, now_ms, n);
            &&& p.states.len() == 4
            &&& p.key_state == pressed_mask(p.states)
            &&& p.debounce_ms == v.debounce_ms
            &&& forall|j: int| n <= j < 4 ==> #[trigger] p.states[j] == v.states[j]
            &&& evs.len() <= n
            &&& forall|k: int| 0 <= k < evs.len() ==> 0 <= (#[trigger] evs[k]).index < n
            &&& forall|a: int, b: int| 0 <= a < b < evs.len() ==> #[trigger] evs[a].index < #[trigger] evs[b].index
            &&& forall|k: int|
                0 <= k < evs.len() ==> p.states[(#[trigger] evs[k]).index as int].stable_level
                    != v.states[evs[k].index as int].stable_level
            &&& forall|j: int|
                0 <= j < n && (#[trigger] p.states[j]).stable_level != v.states[j].stable_level
                    ==> exists|k: int| 0 <= k < evs.len() && (#[trigger] evs[k]).index == j
            &&& forall|k: int|
                0 <= k < evs.len() ==> ((#[trigger] evs[k]).event_type == ButtonEventType::Pressed
                    <==> !levels[evs[k].index as int]) && p.states[evs[k].index as int].stable_level
                    == levels[evs[k].index as int]
            &&& forall|k: int|
                0 <= k < evs.len() ==> (#[trigger] evs[k]).key_state == pressed_mask(
                    states_after(p.states, v.states, evs[k].index as int),
                )
        }),
    decreases n,
{
    if n > 0 {
        lemma_prefix_changes(v, levels, now_ms, n - 1);
        let (q, qevs) = debounce_prefix(v, levels, now_ms, n - 1);
        let (p, evs) = debounce_prefix(v, levels, now_ms, n);
        let i = n - 1;
        let s = sample_level(q.states[i], levels[i], now_ms);
        assert forall|k: int| 0 <= k < qevs.len() implies #[trigger] states_after(
            p.states,
            v.states,
            qevs[k].index as int,
        ) =~= states_after(q.states, v.states, qevs[k].index as int) by {}
        if settles(s, now_ms, q.debounce_ms) {
            let s2 = ButtonState { raw_level: s.raw_level, stable_level: s.raw_level, last_change_ms: s.last_change_ms };
            if !s2.stable_level {
                lemma_mask_set(q.states, i);
                assert(pressed_mask(q.states.update(i, s2)) == pressed_mask(q.states) | key_bit(i));
            } else {
                lemma_mask_clear(q.states, i);
                assert(pressed_mask(q.states.update(i, s2)) == pressed_mask(q.states) & !key_bit(i));
            }
            assert(states_after(p.states, v.states, i) =~= p.states);
            assert(evs[qevs.len() as int].index == i);
            assert forall|j: int|
                0 <= j < n && (#[trigger] p.states[j]).stable_level != v.states[j].stable_level
                    implies exists|k: int| 0 <= k < evs.len() && (#[trigger] evs[k]).index == j by {
                if j == i {
                    assert(evs[qevs.len() as int].index == j);
                } else {
                    assert(q.states[j] == p.states[j]);
                    let k = choose|k: int| 0 <= k < qevs.len() && (#[trigger] qevs[k]).index == j;
                    assert(evs[k] == qevs[k]);
                }
            }
        } else {
            lemma_mask_unchanged(q.states, i, s);
            assert forall|j: int|
                0 <= j < n && (#[trigger] p.states[j]).stable_level != v.states[j].stable_level
                    implies exists|k: int| 0 <= k < evs.len() && (#[trigger] evs[k]).index == j by {
                if j != i {
                    assert(q.states[j] == p.states[j]);
                }
            }
        }
    }
}

/// One poll's events against the key state before (`before`) and after
/// (`after`): at most four, in increasing button order; a button's bit flips
/// exactly when an event names it; a press (level low) sets the bit and a
/// release (level high) clears it; each event carries the key state right
/// after its bit changed; no bit above the four buttons is set.
pub open spec fn events_match_changes(before: u8, after: u8, levels: Seq<bool>, evs: Seq<ButtonEvent>) -> bool {
    &&& evs.len() <= 4
    &&& forall|k: int| 0 <= k < evs.len() ==> (#[trigger] evs[k]).index < 4
    &&& forall|a: int, b: int| 0 <= a < b < evs.len() ==> #[trigger] evs[a].index < #[trigger] evs[b].index
    &&& forall|i: int|
        0 <= i < 4 ==> (#[trigger] key_held(after, i) != key_held(before, i) <==> exists|k: int|
            0 <= k < evs.len() && (#[trigger] evs[k]).index == i)
    &&& forall|k: int|
        0 <= k < evs.len() ==> ((#[trigger] evs[k]).event_type == ButtonEventType::Pressed
            <==> !levels[evs[k].index as int])
    &&& forall|k: int|
        0 <= k < evs.len() ==> ((#[trigger] evs[k]).event_type == ButtonEventType::Pressed
            <==> key_held(after, evs[k].index as int))
    &&& forall|k: int, j: int|
        0 <= k < evs.len() && 0 <= j < 4 ==> #[trigger] key_held(evs[k].key_state, j) == key_held(
            if j <= evs[k].index { after } else { before },
            j,
        )
    &&& forall|k: int| 0 <= k < evs.len() ==> (#[trigger] evs[k]).key_state & 0xF0u8 == 0
    &&& after & 0xF0u8 == 0
}

/// One poll reports exactly the buttons whose accepted state changed, in
/// button order: a button's bit in the key state flips exactly when an
/// event names it, a press (level low) sets the bit and a release (level
/// high) clears it, each event carries the key state right after its bit
/// changed, and no bit above the four buttons is ever set.
pub proof fn law_events_match_changed_bits(v: DebouncerView, levels: Seq<bool>, now_ms: u32)
    requires
        v.states.len() == 4,
        v.key_state == pressed_mask(v.states),
        levels.len() == 4,
    ensures
        ({
            let (w, evs) = debounce_prefix(v, levels, now_ms, 4);
            events_match_changes(v.key_state, w.key_state, levels, evs)
        }),
{
    lemma_prefix_changes(v, levels, now_ms, 4);
    let (w, evs) = debounce_prefix(v, levels, now_ms, 4);
    lemma_mask_bits(v.states);
    lemma_mask_bits(w.states);
    assert forall|i: int| 0 <= i < 4 implies (#[trigger] key_held(w.key_state, i) != key_held(v.key_state, i)
        <==> exists|k: int| 0 <= k < evs.len() && (#[trigger] evs[k]).index == i) by {
        assert(key_held(w.key_state, i) <==> !w.states[i].stable_level);
        assert(key_held(v.key_state, i) <==> !v.states[i].stable_level);
        if exists|k: int| 0 <= k < evs.len() && (#[trigger] evs[k]).index == i {
            let k = choose|k: int| 0 <= k < evs.len() && (#[trigger] evs[k]).index == i;
            assert(w.states[evs[k].index as int].stable_level != v.states[evs[k].index as int].stable_level);
        }
    }
    assert forall|k: int| 0 <= k < evs.len() implies ((#[trigger] evs[k]).event_type
        == ButtonEventType::Pressed <==> key_held(w.key_state, evs[k].index as int)) by {
        assert(key_held(w.key_state, evs[k].index as int) <==> !w.states[evs[k].index as int].stable_level);
    }
    assert forall|k: int| 0 <= k < evs.len() implies (#[trigger] evs[k]).key_state & 0xF0u8 == 0
        && forall|j: int| 0 <= j < 4 ==> #[trigger] key_held(evs[k].key_state, j) == key_held(
            if j <= evs[k].index { w.key_state } else { v.key_state },
            j,
        ) by {
        let st = states_after(w.states, v.states, evs[k].index as int);
        lemma_mask_bits(st);
        assert forall|j: int| 0 <= j < 4 implies #[trigger] key_held(evs[k].key_state, j) == key_held(
            if j <= evs[k].index { w.key_state } else { v.key_state },
            j,
        ) by {
            assert(key_held(evs[k].key_state, j) <==> !st[j].stable_level);
            assert(key_held(w.key_state, j) <==> !w.states[j].stable_level);
            assert(key_held(v.key_state, j) <==> !v.states[j].stable_level);
        }
    }
}

} // verus!
