//! The hardware test runner: the record of passed, failed and skipped
//! tests with its summary, the choice of suites, and the verdict of each
//! test from what the device answered.
use vstd::prelude::*;

use crate::strings::{contains_str, has_infix};
use crate::text::{decimal, push_decimal, str_eq};

verus! {

/// The results recorded so far, as sequences of names and reasons.
pub struct ResultsView {
    pub passed: Seq<Seq<char>>,
    pub failed: Seq<(Seq<char>, Seq<char>)>,
    pub skipped: Seq<Seq<char>>,
}

/// Tracks test pass/fail results across suites.
pub struct TestResults {
    passed: Vec<String>,
    failed: Vec<(String, String)>,
    skipped: Vec<String>,
}

impl View for TestResults {
    type V = ResultsView;

    closed spec fn view(&self) -> ResultsView {
        ResultsView {
            passed: self.passed@.map_values(|s: String| s@),
            failed: self.failed@.map_values(|f: (String, String)| (f.0@, f.1@)),
            skipped: self.skipped@.map_values(|s: String| s@),
        }
    }
}

/// The line printed for a passed test.
pub open spec fn pass_line(name: Seq<char>) -> Seq<char> {
    "  [PASS] "@ + name
}

/// The line printed for a failed test.
pub open spec fn fail_line(name: Seq<char>, reason: Seq<char>) -> Seq<char> {
    "  [FAIL] "@ + name + ": "@ + reason
}

/// The line printed for a skipped test.
pub open spec fn skip_line(name: Seq<char>, reason: Seq<char>) -> Seq<char> {
    "  [SKIP] "@ + name + ": "@ + reason
}

/// The count line of the summary.
pub open spec fn count_line(v: ResultsView) -> Seq<char> {
    decimal(v.passed.len()) + " passed, "@ + decimal(v.failed.len()) + " failed, "@ + decimal(
        v.skipped.len(),
    ) + " skipped (of "@ + decimal(v.passed.len() + v.failed.len() + v.skipped.len()) + ")"@
}

/// One line of the failure list.
pub open spec fn failure_line(f: (Seq<char>, Seq<char>)) -> Seq<char> {
    "  - "@ + f.0 + ": "@ + f.1
}

/// The summary printed after the suites ran: a heading, the counts, the
/// failures if there are any, and a closing line when everything run passed.
pub open spec fn summary_of(v: ResultsView) -> Seq<Seq<char>> {
    let head = seq!["\n--- Test Summary ---"@, count_line(v)];
    if v.failed.len() > 0 {
        head + seq!["\nFailures:"@] + v.failed.map_values(|f: (Seq<char>, Seq<char>)| failure_line(f))
    } else if v.passed.len() > 0 {
        head + seq!["\nAll tests passed!"@]
    } else {
        head
    }
}

impl TestResults {
    /// No results yet.
    pub fn new() -> (r: Self)
        ensures
            r@.passed.len() == 0,
            r@.failed.len() == 0,
            r@.skipped.len() == 0,
    {
        let r = TestResults { passed: Vec::new(), failed: Vec::new(), skipped: Vec::new() };
        assert(r@.passed =~= Seq::<Seq<char>>::empty());
        r
    }

    /// Records a passed test and returns the line to print for it.
    pub fn pass(&mut self, name: &str) -> (line: String)
        ensures
            final(self)@.passed == old(self)@.passed.push(name@),
            final(self)@.failed == old(self)@.failed,
            final(self)@.skipped == old(self)@.skipped,
            line@ == pass_line(name@),
    {
        self.passed.push(name.to_string());
        assert(self@.passed =~= old(self)@.passed.push(name@));
        let mut line = String::from_str("  [PASS] ");
        line.append(name);
        line
    }

    /// Records a failed test with its reason and returns the line to print.
    pub fn fail(&mut self, name: &str, reason: &str) -> (line: String)
        ensures
            final(self)@.failed == old(self)@.failed.push((name@, reason@)),
            final(self)@.passed == old(self)@.passed,
            final(self)@.skipped == old(self)@.skipped,
            line@ == fail_line(name@, reason@),
    {
        self.failed.push((name.to_string(), reason.to_string()));
        assert(self@.failed =~= old(self)@.failed.push((name@, reason@)));
        let mut line = String::from_str("  [FAIL] ");
        line.append(name);
        line.append(": ");
        line.append(reason);
        line
    }

    /// Records a skipped test (its reason is printed, not kept) and
    /// returns the line to print.
    pub fn skip(&mut self, name: &str, reason: &str) -> (line: String)
        ensures
            final(self)@.skipped == old(self)@.skipped.push(name@),
            final(self)@.passed == old(self)@.passed,
            final(self)@.failed == old(self)@.failed,
            line@ == skip_line(name@, reason@),
    {
        self.skipped.push(name.to_string());
        assert(self@.skipped =~= old(self)@.skipped.push(name@));
        let mut line = String::from_str("  [SKIP] ");
        line.append(name);
        line.append(": ");
        line.append(reason);
        line
    }

    /// Number of passed tests.
    pub fn passed_count(&self) -> (n: usize)
        ensures
            n == self@.passed.len(),
    {
        self.passed.len()
    }

    /// Number of failed tests.
    pub fn failed_count(&self) -> (n: usize)
        ensures
            n == self@.failed.len(),
    {
        self.failed.len()
    }

    /// Number of skipped tests.
    pub fn skipped_count(&self) -> (n: usize)
        ensures
            n == self@.skipped.len(),
    {
        self.skipped.len()
    }

    /// The lines of the summary, in print order.
    pub fn summary_lines(&self) -> (lines: Vec<String>)
        requires
            self@.passed.len() + self@.failed.len() + self@.skipped.len() <= u64::MAX,
        ensures
            lines@.map_values(|l: String| l@) == summary_of(self@),
    {
        let p = self.passed.len();
        let f = self.failed.len();
        let s = self.skipped.len();
        let mut lines: Vec<String> = Vec::new();
        lines.push(String::from_str("\n--- Test Summary ---"));
        let mut counts = String::new();
        push_decimal(&mut counts, p as u64);
        counts.append(" passed, ");
        push_decimal(&mut counts, f as u64);
        counts.append(" failed, ");
        push_decimal(&mut counts, s as u64);
        counts.append(" skipped (of ");
        push_decimal(&mut counts, (p as u64) + (f as u64) + (s as u64));
        counts.append(")");
        lines.push(counts);
        let ghost v = self@;
        assert(lines@.map_values(|l: String| l@) =~= seq!["\n--- Test Summary ---"@, count_line(v)]);
        if f > 0 {
            lines.push(String::from_str("\nFailures:"));
            let mut i: usize = 0;
            while i < f
                invariant
                    f == self.failed@.len(),
                    v == self@,
                    i <= f,
                    lines@.len() == 3 + i,
                    lines@.map_values(|l: String| l@) =~= seq!["\n--- Test Summary ---"@, count_line(v)]
                        + seq!["\nFailures:"@] + v.failed.take(i as int).map_values(
                        |x: (Seq<char>, Seq<char>)| failure_line(x),
                    ),
                decreases f - i,
            {
                let ghost before = lines@.map_values(|l: String| l@);
                let mut line = String::from_str("  - ");
                line.append(self.failed[i].0.as_str());
                line.append(": ");
                line.append(self.failed[i].1.as_str());
                proof {
                    assert(v.failed[i as int] == (self.failed@[i as int].0@, self.failed@[i as int].1@));
                    assert(line@ == failure_line(v.failed[i as int]));
                }
                lines.push(line);
                proof {
                    let fl = |x: (Seq<char>, Seq<char>)| failure_line(x);
                    assert(lines@.map_values(|l: String| l@) =~= before.push(line@));
                    assert(v.failed.take(i as int + 1).map_values(fl) =~= v.failed.take(
                        i as int,
                    ).map_values(fl).push(failure_line(v.failed[i as int])));
                }
                i = i + 1;
            }
            assert(v.failed.take(f as int) =~= v.failed);
        } else if p > 0 {
            lines.push(String::from_str("\nAll tests passed!"));
        }
        lines
    }
}

/// A hardware test suite.
#[derive(Debug, Clone, Copy, PartialEq, Eq, Structural)]
pub enum Suite {
    Motor,
    Haptic,
    Serial,
    Buttons,
    Leds,
    Display,
    Audio,
}

/// The suites a name selects: one by its own name, or all of them, serial
/// first, for `all`; `None` for an unknown name.
pub open spec fn suites_named(name: Seq<char>) -> Option<Seq<Suite>> {
    if name == "motor"@ {
        Some(seq![Suite::Motor])
    } else if name == "haptic"@ {
        Some(seq![Suite::Haptic])
    } else if name == "serial"@ {
        Some(seq![Suite::Serial])
    } else if name == "buttons"@ {
        Some(seq![Suite::Buttons])
    } else if name == "leds"@ {
        Some(seq![Suite::Leds])
    } else if name == "display"@ {
        Some(seq![Suite::Display])
    } else if name == "audio"@ {
        Some(seq![Suite::Audio])
    } else if name == "all"@ {
        Some(
            seq![
                Suite::Serial,
                Suite::Motor,
                Suite::Haptic,
                Suite::Buttons,
                Suite::Leds,
                Suite::Display,
                Suite::Audio,
            ],
        )
    } else {
        None
    }
}

/// The suites to run for a suite name given on the command line.
pub fn select_suites(name: &str) -> (r: Option<Vec<Suite>>)
    ensures
        match suites_named(name@) {
            Some(s) => r matches Some(v) && v@ == s,
            None => r is None,
        },
{
    let mut v: Vec<Suite> = Vec::new();
    if str_eq(name, "motor") {
        v.push(Suite::Motor);
    } else if str_eq(name, "haptic") {
        v.push(Suite::Haptic);
    } else if str_eq(name, "serial") {
        v.push(Suite::Serial);
    } else if str_eq(name, "buttons") {
        v.push(Suite::Buttons);
    } else if str_eq(name, "leds") {
        v.push(Suite::Leds);
    } else if str_eq(name, "display") {
        v.push(Suite::Display);
    } else if str_eq(name, "audio") {
        v.push(Suite::Audio);
    } else if str_eq(name, "all") {
        v.push(Suite::Serial);
        v.push(Suite::Motor);
        v.push(Suite::Haptic);
        v.push(Suite::Buttons);
        v.push(Suite::Leds);
        v.push(Suite::Display);
        v.push(Suite::Audio);
    } else {
        return None;
    }
    assert(v@ =~= suites_named(name@).unwrap());
    Some(v)
}

/// The error for an unknown suite name.
pub fn unknown_suite_message(name: &str) -> (s: String)
    ensures
        s@ == "Unknown suite '"@ + name@
            + "'. Available: motor, haptic, serial, buttons, leds, display, audio, all"@,
{
    let mut s = String::from_str("Unknown suite '");
    s.append(name);
    s.append("'. Available: motor, haptic, serial, buttons, leds, display, audio, all");
    s
}

/// Whether a (trimmed) answer to a yes/no prompt is yes: `y` in either case.
pub fn is_yes_answer(answer: &str) -> (yes: bool)
    ensures
        yes == (answer@ == "y"@ || answer@ == "Y"@),
{
    str_eq(answer, "y") || str_eq(answer, "Y")
}

/// The outcome of one test: pass, or fail with a reason.
pub type Verdict = Result<(), String>;

/// `v` fails with exactly this reason.
pub open spec fn fails_with(v: Verdict, reason: Seq<char>) -> bool {
    v matches Err(r) && r@ == reason
}

/// Records a verdict under the test's name and returns the printed line.
pub fn record(results: &mut TestResults, name: &str, v: Verdict) -> (line: String)
    ensures
        v is Ok ==> final(results)@.passed == old(results)@.passed.push(name@) && final(results)@.failed
            == old(results)@.failed && line@ == pass_line(name@),
        v matches Err(r) ==> final(results)@.failed == old(results)@.failed.push((name@, r@))
            && final(results)@.passed == old(results)@.passed && line@ == fail_line(name@, r@),
        final(results)@.skipped == old(results)@.skipped,
{
    match v {
        Ok(()) => results.pass(name),
        Err(reason) => results.fail(name, reason.as_str()),
    }
}

fn reason_with(prefix: &str, detail: &str) -> (s: String)
    ensures
        s@ == prefix@ + detail@,
{
    let mut s = String::from_str(prefix);
    s.append(detail);
    s
}

/// A reply read from the device, as the tests see it: its text and the
/// parts of it they look at.
pub struct Reply {
    /// The reply as printed in failure reasons.
    pub shown: String,
    /// The `msg.text` string when the reply has a `msg` (empty when that
    /// text is missing or not a string), else `None`.
    pub msg_text: Option<String>,
    /// Whether the reply has a `profile`.
    pub has_profile: bool,
    /// The `profile.name` string when the reply has a `profile` (empty when
    /// missing or not a string).
    pub profile_name: Option<String>,
    /// Whether the reply has `settings`.
    pub has_settings: bool,
    /// `settings.midi_channel` when it is an unsigned number.
    pub midi_channel: Option<u64>,
    /// `settings.led_brightness` when it is an unsigned number.
    pub led_brightness: Option<u64>,
    /// `None` without a `profiles` key; `Some(None)` when it is not an
    /// array; else the array's length.
    pub profiles_len: Option<Option<u64>>,
}

/// Verdict on `{"get": true}` before any profile: any message or profile
/// answer will do.
pub fn verdict_get_no_profile(reply: &Option<Reply>) -> (v: Verdict)
    ensures
        match reply {
            None => fails_with(v, "no response within timeout"@),
            Some(r) => if r.msg_text is Some || r.has_profile {
                v is Ok
            } else {
                fails_with(v, "unexpected response: "@ + r.shown@)
            },
        },
{
    match reply {
        None => Err(String::from_str("no response within timeout")),
        Some(r) => if r.msg_text.is_some() || r.has_profile {
            Ok(())
        } else {
            Err(reason_with("unexpected response: ", r.shown.as_str()))
        },
    }
}

/// Verdict on a message reply that should mention `fragment`; `unexpected`
/// and `missing` start the reasons for a wrong message and for no message.
fn verdict_msg_mentions(reply: &Option<Reply>, fragment: &str, unexpected: &str, missing: &str) -> (v: Verdict)
    ensures
        match reply {
            None => fails_with(v, "no response"@),
            Some(r) => match r.msg_text {
                Some(t) => if has_infix(t@, fragment@) {
                    v is Ok
                } else {
                    fails_with(v, unexpected@ + t@)
                },
                None => fails_with(v, missing@ + r.shown@),
            },
        },
{
    match reply {
        None => Err(String::from_str("no response")),
        Some(r) => match &r.msg_text {
            Some(t) => if contains_str(t.as_str(), fragment) {
                Ok(())
            } else {
                Err(reason_with(unexpected, t.as_str()))
            },
            None => Err(reason_with(missing, r.shown.as_str())),
        },
    }
}

/// Verdict on a profile upload: the reply message must say `set`.
pub fn verdict_upload_profile(reply: &Option<Reply>) -> (v: Verdict)
    ensures
        match reply {
            None => fails_with(v, "no response"@),
            Some(r) => match r.msg_text {
                Some(t) => if has_infix(t@, "set"@) {
                    v is Ok
                } else {
                    fails_with(v, "unexpected msg: "@ + t@)
                },
                None => fails_with(v, "no msg in response: "@ + r.shown@),
            },
        },
{
    verdict_msg_mentions(reply, "set", "unexpected msg: ", "no msg in response: ")
}

/// Verdict on a recalibration request: the reply message must mention it.
pub fn verdict_recalibrate(reply: &Option<Reply>) -> (v: Verdict)
    ensures
        match reply {
            None => fails_with(v, "no response"@),
            Some(r) => match r.msg_text {
                Some(t) => if has_infix(t@, "recalibrat"@) {
                    v is Ok
                } else {
                    fails_with(v, "unexpected: "@ + t@)
                },
                None => fails_with(v, "no msg: "@ + r.shown@),
            },
        },
{
    verdict_msg_mentions(reply, "recalibrat", "unexpected: ", "no msg: ")
}

/// Verdict on reading the active profile: it must be the uploaded one.
pub fn verdict_active_profile(reply: &Option<Reply>) -> (v: Verdict)
    ensures
        match reply {
            None => fails_with(v, "no response"@),
            Some(r) => match r.profile_name {
                Some(n) => if n@ == "test_profile"@ {
                    v is Ok
                } else {
                    fails_with(v, "wrong profile name: "@ + n@)
                },
                None => fails_with(v, "no profile in response: "@ + r.shown@),
            },
        },
{
    match reply {
        None => Err(String::from_str("no response")),
        Some(r) => match &r.profile_name {
            Some(n) => if str_eq(n.as_str(), "test_profile") {
                Ok(())
            } else {
                Err(reason_with("wrong profile name: ", n.as_str()))
            },
            None => Err(reason_with("no profile in response: ", r.shown.as_str())),
        },
    }
}

/// `Debug` text of an optional number: `Some(n)` or `None`.
pub open spec fn option_text(o: Option<u64>) -> Seq<char> {
    match o {
        Some(n) => "Some("@ + decimal(n as nat) + ")"@,
        None => "None"@,
    }
}

fn push_option(out: &mut String, o: Option<u64>)
    ensures
        final(out)@ == old(out)@ + option_text(o),
{
    match o {
        Some(n) => {
            out.append("Some(");
            push_decimal(out, n);
            out.append(")");
        },
        None => {
            out.append("None");
        },
    }
}

/// Verdict on the settings read back after writing MIDI channel 7 and LED
/// brightness 42.
pub fn verdict_settings_roundtrip(reply: &Option<Reply>) -> (v: Verdict)
    ensures
        match reply {
            None => fails_with(v, "no response"@),
            Some(r) => if !r.has_settings {
                fails_with(v, "no settings in response: "@ + r.shown@)
            } else if r.midi_channel == Some(7u64) && r.led_brightness == Some(42u64) {
                v is Ok
            } else {
                fails_with(
                    v,
                    "wrong values: midi="@ + option_text(r.midi_channel) + " led="@ + option_text(
                        r.led_brightness,
                    ),
                )
            },
        },
{
    match reply {
        None => Err(String::from_str("no response")),
        Some(r) => {
            if !r.has_settings {
                return Err(reason_with("no settings in response: ", r.shown.as_str()));
            }
            if r.midi_channel == Some(7u64) && r.led_brightness == Some(42u64) {
                Ok(())
            } else {
                let mut s = String::from_str("wrong values: midi=");
                push_option(&mut s, r.midi_channel);
                s.append(" led=");
                push_option(&mut s, r.led_brightness);
                Err(s)
            }
        },
    }
}

/// Verdict on the profile list: at least the two uploaded profiles.
pub fn verdict_list_profiles(reply: &Option<Reply>) -> (v: Verdict)
    ensures
        match reply {
            None => fails_with(v, "no response"@),
            Some(r) => match r.profiles_len {
                None => fails_with(v, "no profiles key: "@ + r.shown@),
                Some(None) => fails_with(v, "profiles is not an array"@),
                Some(Some(n)) => if n >= 2 {
                    v is Ok
                } else {
                    fails_with(v, "expected >= 2 profiles, got "@ + decimal(n as nat))
                },
            },
        },
{
    match reply {
        None => Err(String::from_str("no response")),
        Some(r) => match r.profiles_len {
            None => Err(reason_with("no profiles key: ", r.shown.as_str())),
            Some(None) => Err(String::from_str("profiles is not an array")),
            Some(Some(n)) => if n >= 2 {
                Ok(())
            } else {
                let mut s = String::from_str("expected >= 2 profiles, got ");
                push_decimal(&mut s, n);
                Err(s)
            },
        },
    }
}

/// Verdict on sending text that is not JSON: an error message or silence
/// both show the device survived.
pub fn verdict_invalid_json(reply: &Option<Reply>) -> (v: Verdict)
    ensures
        match reply {
            None => v is Ok,
            Some(r) => if r.msg_text is Some {
                v is Ok
            } else {
                fails_with(v, "unexpected response: "@ + r.shown@)
            },
        },
{
    match reply {
        None => Ok(()),
        Some(r) => if r.msg_text.is_some() {
            Ok(())
        } else {
            Err(reason_with("unexpected response: ", r.shown.as_str()))
        },
    }
}

/// Verdict on the angle events seen while the knob was turned through
/// detents: at least three.
pub fn verdict_default_detents(angle_events: u64) -> (v: Verdict)
    ensures
        angle_events >= 3 ==> v is Ok,
        angle_events < 3 ==> fails_with(
            v,
            "expected >= 3 position events, got "@ + decimal(angle_events as nat),
        ),
{
    if angle_events >= 3 {
        Ok(())
    } else {
        let mut s = String::from_str("expected >= 3 position events, got ");
        push_decimal(&mut s, angle_events);
        Err(s)
    }
}

/// Verdict on the angle events seen while the knob was turned back and
/// forth: at least two.
pub fn verdict_encoder_events(angle_events: u64, total_events: u64) -> (v: Verdict)
    ensures
        angle_events >= 2 ==> v is Ok,
        angle_events < 2 ==> fails_with(
            v,
            "expected >= 2 angle events, got "@ + decimal(angle_events as nat) + " (of "@ + decimal(
                total_events as nat,
            ) + " total events)"@,
        ),
{
    if angle_events >= 2 {
        Ok(())
    } else {
        let mut s = String::from_str("expected >= 2 angle events, got ");
        push_decimal(&mut s, angle_events);
        s.append(" (of ");
        push_decimal(&mut s, total_events);
        s.append(" total events)");
        Err(s)
    }
}

/// Verdict on the endstop test: events must arrive, and the user must
/// confirm the endstop.
pub fn verdict_endstop(any_events: bool, user_confirms: bool) -> (v: Verdict)
    ensures
        !any_events ==> fails_with(v, "no events received"@),
        any_events && user_confirms ==> v is Ok,
        any_events && !user_confirms ==> fails_with(v, "user reports no endstop felt"@),
{
    if !any_events {
        Err(String::from_str("no events received"))
    } else if user_confirms {
        Ok(())
    } else {
        Err(String::from_str("user reports no endstop felt"))
    }
}

/// Verdict on a test the user confirms by hand: pass on yes, else fail
/// with `reason`.
pub fn verdict_confirmed(user_confirms: bool, reason: &str) -> (v: Verdict)
    ensures
        user_confirms ==> v is Ok,
        !user_confirms ==> fails_with(v, reason@),
{
    if user_confirms {
        Ok(())
    } else {
        Err(reason.to_string())
    }
}

} // verus!
