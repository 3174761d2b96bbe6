//! Position bookkeeping of the haptic detent system: where the knob is
//! within its profile's range, and the events a detent crossing fires.
//! The angle arithmetic that detects a crossing happens elsewhere; this
//! module only decides what a crossing means.
use vstd::prelude::*;

use super::profile::{DetentProfile, Direction, HapticEvt, HapticMode};
use crate::bounded::{haptic_events, new_haptic_list, push_haptic};

verus! {

/// Scale of the position range: the vernier factor in vernier mode, else 1.
pub open spec fn range_scale(p: DetentProfile) -> int {
    if p.mode == HapticMode::Vernier {
        p.vernier as int
    } else {
        1
    }
}

/// First position of the profile's range, scaled in vernier mode.
pub open spec fn effective_start(p: DetentProfile) -> int {
    p.start_pos * range_scale(p)
}

/// Last position of the profile's range, scaled in vernier mode.
pub open spec fn effective_end(p: DetentProfile) -> int {
    p.end_pos * range_scale(p)
}

/// Whether a crossing counts upward: a decreasing angle counts down on a
/// counter-clockwise sensor and up on any other, and the reverse for an
/// increasing angle.
pub open spec fn counts_up(decreasing: bool, direction: Direction) -> bool {
    decreasing != (direction == Direction::Ccw)
}

/// Integer state of the haptic detent system.
#[derive(Debug, Clone, Copy, PartialEq, Eq, Structural)]
pub struct DetentTracker {
    pub profile: DetentProfile,
    pub current_pos: u16,
    pub last_pos: u16,
    pub num_detents: u16,
    pub at_limit: bool,
    pub was_at_limit: bool,
}

/// Tracker state after loading `profile`. An explicit position is taken as
/// is; otherwise the current position is pulled back to the range bounds
/// when it lies outside the (vernier-scaled) range.
pub open spec fn loaded(t: DetentTracker, profile: DetentProfile, new_position: Option<u16>) -> DetentTracker {
    let pos: u16 = match new_position {
        Some(p) => p,
        None => if t.current_pos < effective_start(profile) {
            profile.start_pos
        } else if t.current_pos > effective_end(profile) {
            profile.end_pos
        } else {
            t.current_pos
        },
    };
    DetentTracker {
        profile,
        current_pos: pos,
        last_pos: pos,
        num_detents: (profile.end_pos - profile.start_pos) as u16,
        at_limit: t.at_limit,
        was_at_limit: t.was_at_limit,
    }
}

/// One detent crossing: the new state and the events it fires. At the end
/// of the range in the counting direction a limit event fires and the
/// position stays; otherwise the position moves by one and an increase or
/// decrease event fires. Whenever the knob is not at a limit an "either"
/// event follows.
pub open spec fn crossed(t: DetentTracker, decreasing: bool, direction: Direction) -> (
    DetentTracker,
    Seq<HapticEvt>,
) {
    let up = counts_up(decreasing, direction);
    let at_boundary = if up {
        t.current_pos >= effective_end(t.profile)
    } else {
        t.current_pos <= effective_start(t.profile)
    };
    if at_boundary {
        let was = if !decreasing && direction == Direction::Ccw {
            false
        } else {
            t.was_at_limit
        };
        (
            DetentTracker { at_limit: true, was_at_limit: was, ..t },
            seq![if up { HapticEvt::LimitPos } else { HapticEvt::LimitNeg }],
        )
    } else {
        let pos = if up {
            t.current_pos + 1
        } else {
            t.current_pos - 1
        };
        (
            DetentTracker {
                current_pos: pos as u16,
                at_limit: false,
                was_at_limit: t.was_at_limit || t.at_limit,
                ..t
            },
            seq![if up { HapticEvt::Increase } else { HapticEvt::Decrease }, HapticEvt::Either],
        )
    }
}

/// Re-entry after leaving a limit: the position snaps to the nearer end of
/// the range (scaled in vernier mode) and is nudged one step inward.
pub open spec fn settled(t: DetentTracker) -> DetentTracker {
    let half = t.num_detents / 2;
    let base: int = if t.current_pos <= half {
        t.profile.start_pos as int
    } else {
        t.profile.end_pos as int
    };
    let scaled = base * range_scale(t.profile);
    let pos = if scaled <= half {
        scaled + 1
    } else {
        scaled - 1
    };
    DetentTracker { current_pos: pos as u16, was_at_limit: false, ..t }
}

/// Which gain the position controller uses.
#[derive(Debug, Clone, Copy, PartialEq, Eq, Structural)]
pub enum GainSource {
    /// No proportional gain.
    Zero,
    /// The (weaker) end-stop strength.
    Endstop,
    /// The profile's detent strength.
    Detent,
}

/// The proportional gain in use: none right after leaving a limit, the
/// end-stop strength while the target is clipping, else the detent strength.
pub fn proportional_gain_source(clipping: bool, was_at_limit: bool) -> (g: GainSource)
    ensures
        g == (if was_at_limit {
            GainSource::Zero
        } else if clipping {
            GainSource::Endstop
        } else {
            GainSource::Detent
        }),
{
    if was_at_limit {
        GainSource::Zero
    } else if clipping {
        GainSource::Endstop
    } else {
        GainSource::Detent
    }
}

fn scale_of(p: &DetentProfile) -> (s: u16)
    ensures
        s == range_scale(*p),
{
    if p.mode == HapticMode::Vernier {
        p.vernier as u16
    } else {
        1
    }
}

impl DetentTracker {
    /// The tracker for the default profile, at its start position.
    pub fn new() -> (t: Self)
        ensures
            t == loaded(t, DetentProfile::default_spec(), Some(0)),
            t.current_pos == 0,
            !t.at_limit,
            !t.was_at_limit,
    {
        let profile = DetentProfile::default();
        let mut t = DetentTracker {
            profile,
            current_pos: 0,
            last_pos: 0,
            num_detents: 0,
            at_limit: false,
            was_at_limit: false,
        };
        t.load_profile(profile, Some(profile.start_pos));
        t
    }

    /// Switch to `profile`, keeping or clamping the position (see `loaded`).
    pub fn load_profile(&mut self, profile: DetentProfile, new_position: Option<u16>)
        requires
            profile.start_pos <= profile.end_pos,
            new_position is None ==> effective_start(profile) <= u16::MAX,
            new_position is None && old(self).current_pos >= effective_start(profile)
                ==> effective_end(profile) <= u16::MAX,
        ensures
            *final(self) == loaded(*old(self), profile, new_position),
    {
        let scale = scale_of(&profile);
        self.num_detents = profile.end_pos - profile.start_pos;
        match new_position {
            Some(pos) => {
                self.current_pos = pos;
            },
            None => {
                // Clamp to valid range
                if self.current_pos < profile.start_pos * scale {
                    self.current_pos = profile.start_pos;
                } else if self.current_pos > profile.end_pos * scale {
                    self.current_pos = profile.end_pos;
                }
            },
        }
        self.last_pos = self.current_pos;
        self.profile = profile;
    }

    /// Handle a detent crossing (see `crossed`), appending the events it
    /// fires to `events`. Returns whether the position moved.
    pub fn cross_detent(
        &mut self,
        decreasing: bool,
        direction: Direction,
        events: &mut heapless::Vec<HapticEvt, 4>,
    ) -> (moved: bool)
        requires
            effective_start(old(self).profile) <= u16::MAX,
            effective_end(old(self).profile) <= u16::MAX,
            haptic_events(*old(events)).len() <= 2,
        ensures
            *final(self) == crossed(*old(self), decreasing, direction).0,
            haptic_events(*final(events)) == haptic_events(*old(events)) + crossed(
                *old(self),
                decreasing,
                direction,
            ).1,
            moved == !final(self).at_limit,
    {
        let scale = scale_of(&self.profile);
        let effective_start = self.profile.start_pos * scale;
        let effective_end = self.profile.end_pos * scale;
        let is_ccw = direction == Direction::Ccw;
        let increment = decreasing != is_ccw;
        let ghost before = haptic_events(*events);

        let at_boundary = if increment {
            self.current_pos >= effective_end
        } else {
            self.current_pos <= effective_start
        };
        if at_boundary {
            let evt = if increment {
                HapticEvt::LimitPos
            } else {
                HapticEvt::LimitNeg
            };
            let _ = push_haptic(events, evt);
            self.at_limit = true;
            // Only clear was_at_limit on the increasing-angle + CCW limit hit
            if !decreasing && is_ccw {
                self.was_at_limit = false;
            }
            assert(haptic_events(*events) =~= before + seq![evt]);
            false
        } else {
            if self.at_limit {
                self.was_at_limit = true;
            }
            self.at_limit = false;
            let evt = if increment {
                self.current_pos = self.current_pos + 1;
                HapticEvt::Increase
            } else {
                self.current_pos = self.current_pos - 1;
                HapticEvt::Decrease
            };
            let _ = push_haptic(events, evt);
            let _ = push_haptic(events, HapticEvt::Either);
            assert(haptic_events(*events) =~= before + seq![evt, HapticEvt::Either]);
            true
        }
    }

    /// Handle a detent crossing (see `crossed`) and return whether the
    /// position moved, with the events it fires in a new list.
    pub fn cross_detent_events(&mut self, decreasing: bool, direction: Direction) -> (r: (
        bool,
        heapless::Vec<HapticEvt, 4>,
    ))
        requires
            effective_start(old(self).profile) <= u16::MAX,
            effective_end(old(self).profile) <= u16::MAX,
        ensures
            *final(self) == crossed(*old(self), decreasing, direction).0,
            haptic_events(r.1) == crossed(*old(self), decreasing, direction).1,
            r.0 == !final(self).at_limit,
    {
        let mut events = new_haptic_list();
        let moved = self.cross_detent(decreasing, direction, &mut events);
        assert(haptic_events(events) =~= crossed(*old(self), decreasing, direction).1);
        (moved, events)
    }

    /// Whether the knob has just come back from a limit and must settle.
    pub open spec fn needs_settle(&self) -> bool {
        !self.at_limit && self.was_at_limit
    }

    /// After coming back from a limit, reposition (see `settled`). Returns
    /// whether that happened; otherwise nothing changes.
    pub fn settle_after_limit(&mut self) -> (settling: bool)
        requires
            old(self).needs_settle() ==> old(self).profile.end_pos * range_scale(old(self).profile)
                <= u16::MAX,
            old(self).needs_settle() ==> old(self).profile.start_pos * range_scale(
                old(self).profile,
            ) <= u16::MAX,
        ensures
            settling == old(self).needs_settle(),
            *final(self) == if settling {
                settled(*old(self))
            } else {
                *old(self)
            },
    {
        if !(!self.at_limit && self.was_at_limit) {
            return false;
        }
        self.was_at_limit = false;
        let half = self.num_detents / 2;
        let scale = scale_of(&self.profile);
        // Reset position to nearest boundary
        if self.current_pos <= half {
            self.current_pos = self.profile.start_pos;
        } else {
            self.current_pos = self.profile.end_pos;
        }
        self.current_pos = self.current_pos * scale;
        // Nudge away from boundary
        if self.current_pos <= half {
            self.current_pos = self.current_pos + 1;
        } else {
            self.current_pos = self.current_pos - 1;
        }
        true
    }
}

/// A crossing never leaves the (scaled) range it started in and moves the
/// position by at most one; at a limit it does not move at all.
pub proof fn law_crossing_stays_in_range(t: DetentTracker, decreasing: bool, direction: Direction)
    requires
        effective_start(t.profile) <= t.current_pos <= effective_end(t.profile),
        effective_end(t.profile) <= u16::MAX,
    ensures
        ({
            let (n, evs) = crossed(t, decreasing, direction);
            &&& effective_start(n.profile) <= n.current_pos <= effective_end(n.profile)
            &&& -1 <= n.current_pos - t.current_pos <= 1
            &&& n.at_limit ==> n.current_pos == t.current_pos
            &&& evs.len() >= 1
            &&& (evs.contains(HapticEvt::Either) <==> !n.at_limit)
        }),
{
    let (n, evs) = crossed(t, decreasing, direction);
    if n.at_limit {
        assert(!evs.contains(HapticEvt::Either)) by {
            if evs.contains(HapticEvt::Either) {
                let i = choose|i: int| 0 <= i < evs.len() && evs[i] == HapticEvt::Either;
                assert(evs[0] != HapticEvt::Either);
            }
        }
    } else {
        assert(evs[1] == HapticEvt::Either);
    }
}

/// Counting up then down across two detents, away from the limits, brings
/// the position back.
pub proof fn law_crossings_cancel(t: DetentTracker, direction: Direction)
    requires
        effective_start(t.profile) < t.current_pos < effective_end(t.profile),
        effective_end(t.profile) <= u16::MAX,
    ensures
        crossed(crossed(t, false, direction).0, true, direction).0.current_pos == t.current_pos,
{
}


/// Settling after leaving an end stop puts the knob one step from the end of
/// the (scaled) range nearer to where it was: the start when it sat in the
/// lower half of the detents, the end otherwise. It never jumps to the far end.
pub proof fn law_settle_goes_to_nearer_end(t: DetentTracker)
    requires
        effective_start(t.profile) <= u16::MAX,
        effective_end(t.profile) <= u16::MAX,
    ensures
        t.current_pos <= t.num_detents / 2 ==> settled(t).current_pos == effective_start(t.profile) + 1
            || settled(t).current_pos == effective_start(t.profile) - 1,
        t.current_pos > t.num_detents / 2 ==> settled(t).current_pos == effective_end(t.profile) + 1
            || settled(t).current_pos == effective_end(t.profile) - 1,
{
}
} // verus!
