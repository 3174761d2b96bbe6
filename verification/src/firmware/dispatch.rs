use vstd::prelude::*;
use vstd::string::StringSliceAdditionalSpecFns;
use vstd::utf8::encode_utf8;

use crate::firmware::ipc::{DisplayCommand, DisplayMode};
use crate::haptic::profile::{DetentProfile, HapticMode, RAMP_5000_BITS, STRENGTH_3_BITS};
use crate::led::types::LedConfig;
use crate::profile::manager::{
    activate, active_payload, error_text, law_put_then_lookup, lookup, manager_wf, name_at,
    put_profile, ManagerView, ProfileManager,
};
use crate::protocol::command::{
    detent_profile_of, Command, Event, ListResponse, ProfilePayload, ProfileResponse,
    SettingsPayload, SettingsResponse,
};
use crate::protocol::parse::{parse_error_text, ParseError};
use crate::protocol::serialize::{
    is_message, list_response, message_event, profile_response, settings_response,
};

verus! {

/// Whether a byte is kept when decoding base64: padding (`=`), line breaks
/// and spaces are skipped.
pub open spec fn base64_kept(c: u8) -> bool {
    c != 0x3D && c != 0x0A && c != 0x0D && c != 0x20
}

/// The 6-bit value of a base64 symbol; bytes outside the alphabet count as 0.
pub open spec fn base64_value(c: u8) -> u8 {
    if 0x41 <= c <= 0x5A {
        (c - 0x41) as u8
    } else if 0x61 <= c <= 0x7A {
        (c - 0x61 + 26) as u8
    } else if 0x30 <= c <= 0x39 {
        (c - 0x30 + 52) as u8
    } else if c == 0x2B {
        62
    } else if c == 0x2F {
        63
    } else {
        0
    }
}

/// Bytes decoded from one group of `n` (2 to 4) symbols `a b c d`; missing
/// symbols count as 0 and each symbol past the second adds one byte.
pub open spec fn base64_group(s: Seq<u8>, n: int) -> Seq<u8> {
    let a = base64_value(s[0]);
    let b = base64_value(s[1]);
    let c = if n > 2 { base64_value(s[2]) } else { 0u8 };
    let d = if n > 3 { base64_value(s[3]) } else { 0u8 };
    let first = seq![((a << 2u8) | (b >> 4u8)) as u8];
    let second = if n > 2 { seq![((b << 4u8) | (c >> 2u8)) as u8] } else { Seq::<u8>::empty() };
    let third = if n > 3 { seq![((c << 6u8) | d) as u8] } else { Seq::<u8>::empty() };
    first + second + third
}

/// Decoding of kept base64 symbols, four at a time; a final group of one
/// symbol is dropped.
pub open spec fn base64_decode_symbols(s: Seq<u8>) -> Seq<u8>
    decreases s.len(),
{
    if s.len() < 2 {
        Seq::empty()
    } else if s.len() < 4 {
        base64_group(s, s.len() as int)
    } else {
        base64_group(s, 4) + base64_decode_symbols(s.skip(4))
    }
}

/// The bytes that base64 decoding keeps, in order.
pub open spec fn base64_symbols_of(bytes: Seq<u8>) -> Seq<u8>
    decreases bytes.len(),
{
    if bytes.len() == 0 {
        Seq::empty()
    } else {
        let rest = base64_symbols_of(bytes.drop_last());
        if base64_kept(bytes.last()) {
            rest.push(bytes.last())
        } else {
            rest
        }
    }
}

/// Decoding of base64 text given as bytes.
pub open spec fn base64_decoded(bytes: Seq<u8>) -> Seq<u8> {
    base64_decode_symbols(base64_symbols_of(bytes))
}

fn symbol_value(c: u8) -> (v: u8)
    ensures
        v == base64_value(c),
{
    if c >= 0x41 && c <= 0x5A {
        c - 0x41
    } else if c >= 0x61 && c <= 0x7A {
        c - 0x61 + 26
    } else if c >= 0x30 && c <= 0x39 {
        c - 0x30 + 52
    } else if c == 0x2B {
        62
    } else if c == 0x2F {
        63
    } else {
        0
    }
}

/// The bytes of `raw` that base64 decoding keeps, in order.
fn base64_symbols(raw: &[u8]) -> (bytes: Vec<u8>)
    ensures
        bytes@ == base64_symbols_of(raw@),
{
    let mut bytes: Vec<u8> = Vec::new();
    let mut k: usize = 0;
    while k < raw.len()
        invariant
            0 <= k <= raw@.len(),
            bytes@ == base64_symbols_of(raw@.take(k as int)),
        decreases raw@.len() - k,
    {
        let b = raw[k];
        let ghost pre = raw@.take(k as int);
        let ghost next = raw@.take(k + 1);
        assert(next.drop_last() =~= pre);
        assert(next.last() == b);
        if b != 0x3D && b != 0x0A && b != 0x0D && b != 0x20 {
            bytes.push(b);
        }
        k = k + 1;
    }
    assert(raw@.take(k as int) =~= raw@);
    bytes
}

/// Decode kept base64 symbols.
fn decode_symbols(bytes: &Vec<u8>) -> (out: Vec<u8>)
    ensures
        out@ == base64_decode_symbols(bytes@),
{
    let mut out: Vec<u8> = Vec::new();
    let mut i: usize = 0;
    assert(bytes@.skip(0) =~= bytes@);
    while bytes.len() - i >= 4
        invariant
            i <= bytes@.len(),
            out@ + base64_decode_symbols(bytes@.skip(i as int)) == base64_decode_symbols(bytes@),
        decreases bytes@.len() - i,
    {
        let ghost chunk = bytes@.skip(i as int);
        let a = symbol_value(bytes[i]);
        let b = symbol_value(bytes[i + 1]);
        let c = symbol_value(bytes[i + 2]);
        let d = symbol_value(bytes[i + 3]);
        let ghost before = out@;
        out.push((a << 2) | (b >> 4));
        out.push((b << 4) | (c >> 2));
        out.push((c << 6) | d);
        proof {
            assert(out@ =~= before + base64_group(chunk, 4));
            assert(chunk.skip(4) =~= bytes@.skip(i + 4));
        }
        i = i + 4;
    }
    let n = bytes.len() - i;
    let ghost chunk = bytes@.skip(i as int);
    if n >= 2 {
        let a = symbol_value(bytes[i]);
        let b = symbol_value(bytes[i + 1]);
        let c = if n > 2 {
            symbol_value(bytes[i + 2])
        } else {
            0
        };
        let ghost before = out@;
        out.push((a << 2) | (b >> 4));
        if n > 2 {
            out.push((b << 4) | (c >> 2));
        }
        assert(out@ =~= before + base64_group(chunk, n as int));
    } else {
        assert(out@ =~= out@ + base64_decode_symbols(chunk));
    }
    out
}

/// Decode base64-encoded data to raw bytes. Padding, line breaks and spaces
/// are skipped; other bytes outside the alphabet decode as zero bits.
pub fn decode_base64(input: &str) -> (out: Vec<u8>)
    ensures
        out@ == base64_decoded(input.spec_bytes()),
{
    let symbols = base64_symbols(input.as_bytes());
    decode_symbols(&symbols)
}

/// The symbol of a 6-bit value in the standard base64 alphabet
/// (`A`-`Z`, `a`-`z`, `0`-`9`, `+`, `/`).
pub open spec fn base64_symbol(v: u8) -> u8 {
    if v < 26 {
        (0x41 + v) as u8
    } else if v < 52 {
        (0x61 + v - 26) as u8
    } else if v < 62 {
        (0x30 + v - 52) as u8
    } else if v == 62 {
        0x2B
    } else {
        0x2F
    }
}

/// Standard base64 encoding of `s` without padding: each three bytes give
/// four symbols, and a final one or two bytes give two or three.
pub open spec fn base64_encode_unpadded(s: Seq<u8>) -> Seq<u8>
    decreases s.len(),
{
    if s.len() == 0 {
        Seq::empty()
    } else if s.len() == 1 {
        seq![base64_symbol(s[0] >> 2u8), base64_symbol((s[0] & 3u8) << 4u8)]
    } else if s.len() == 2 {
        seq![
            base64_symbol(s[0] >> 2u8),
            base64_symbol(((s[0] & 3u8) << 4u8) | (s[1] >> 4u8)),
            base64_symbol((s[1] & 15u8) << 2u8),
        ]
    } else {
        seq![
            base64_symbol(s[0] >> 2u8),
            base64_symbol(((s[0] & 3u8) << 4u8) | (s[1] >> 4u8)),
            base64_symbol(((s[1] & 15u8) << 2u8) | (s[2] >> 6u8)),
            base64_symbol(s[2] & 63u8),
        ] + base64_encode_unpadded(s.skip(3))
    }
}

/// Standard base64 encoding of `s`, padded with `=` to a multiple of four symbols.
pub open spec fn base64_encode(s: Seq<u8>) -> Seq<u8> {
    let u = base64_encode_unpadded(s);
    if s.len() % 3 == 1 {
        u + seq![0x3Du8, 0x3Du8]
    } else if s.len() % 3 == 2 {
        u + seq![0x3Du8]
    } else {
        u
    }
}

/// Line breaks and spaces, which may stand anywhere in base64 text.
pub open spec fn base64_blank(c: u8) -> bool {
    c == 0x0A || c == 0x0D || c == 0x20
}

/// `t` with its line breaks and spaces taken out.
pub open spec fn without_blanks(t: Seq<u8>) -> Seq<u8>
    decreases t.len(),
{
    if t.len() == 0 {
        Seq::empty()
    } else if base64_blank(t.last()) {
        without_blanks(t.drop_last())
    } else {
        without_blanks(t.drop_last()).push(t.last())
    }
}

proof fn lemma_symbol_value(v: u8)
    requires
        v < 64,
    ensures
        base64_value(base64_symbol(v)) == v,
        base64_kept(base64_symbol(v)),
{
}

proof fn lemma_symbols_skip_blanks(t: Seq<u8>)
    ensures
        base64_symbols_of(t) == base64_symbols_of(without_blanks(t)),
    decreases t.len(),
{
    if t.len() > 0 {
        lemma_symbols_skip_blanks(t.drop_last());
        if !base64_blank(t.last()) {
            let w = without_blanks(t.drop_last()).push(t.last());
            assert(w.drop_last() =~= without_blanks(t.drop_last()));
        }
    }
}

proof fn lemma_symbols_of_kept(b: Seq<u8>)
    requires
        forall|i: int| 0 <= i < b.len() ==> base64_kept(#[trigger] b[i]),
    ensures
        base64_symbols_of(b) == b,
    decreases b.len(),
{
    if b.len() > 0 {
        lemma_symbols_of_kept(b.drop_last());
        assert(b.drop_last().push(b.last()) =~= b);
    }
}

proof fn lemma_symbols_of_padding(b: Seq<u8>, n: int)
    requires
        0 <= n <= 2,
    ensures
        base64_symbols_of(b + Seq::new(n as nat, |i: int| 0x3Du8)) == base64_symbols_of(b),
    decreases n,
{
    if n > 0 {
        let padded = b + Seq::new(n as nat, |i: int| 0x3Du8);
        assert(padded.drop_last() =~= b + Seq::new((n - 1) as nat, |i: int| 0x3Du8));
        lemma_symbols_of_padding(b, n - 1);
    }
}

proof fn lemma_group_bits(a: u8, b: u8, c: u8)
    ensures
        a >> 2u8 < 64,
        ((a & 3u8) << 4u8) | (b >> 4u8) < 64,
        ((b & 15u8) << 2u8) | (c >> 6u8) < 64,
        c & 63u8 < 64,
        (a & 3u8) << 4u8 < 64,
        (b & 15u8) << 2u8 < 64,
        (((a >> 2u8) << 2u8) | ((((a & 3u8) << 4u8) | (b >> 4u8)) >> 4u8)) as u8 == a,
        (((((a & 3u8) << 4u8) | (b >> 4u8)) << 4u8) | ((((b & 15u8) << 2u8) | (c >> 6u8))
            >> 2u8)) as u8 == b,
        (((((b & 15u8) << 2u8) | (c >> 6u8)) << 6u8) | (c & 63u8)) as u8 == c,
        (((a >> 2u8) << 2u8) | (((a & 3u8) << 4u8) >> 4u8)) as u8 == a,
        (((((a & 3u8) << 4u8) | (b >> 4u8)) << 4u8) | (((b & 15u8) << 2u8) >> 2u8)) as u8 == b,
{
    assert(a >> 2u8 < 64 && ((a & 3u8) << 4u8) | (b >> 4u8) < 64 && ((b & 15u8) << 2u8) | (c
        >> 6u8) < 64 && c & 63u8 < 64 && (a & 3u8) << 4u8 < 64 && (b & 15u8) << 2u8 < 64)
        by (bit_vector);
    assert((((a >> 2u8) << 2u8) | ((((a & 3u8) << 4u8) | (b >> 4u8)) >> 4u8)) as u8 == a && (((((a
        & 3u8) << 4u8) | (b >> 4u8)) << 4u8) | ((((b & 15u8) << 2u8) | (c >> 6u8)) >> 2u8)) as u8
        == b && (((((b & 15u8) << 2u8) | (c >> 6u8)) << 6u8) | (c & 63u8)) as u8 == c) by (bit_vector);
    assert((((a >> 2u8) << 2u8) | (((a & 3u8) << 4u8) >> 4u8)) as u8 == a && (((((a & 3u8) << 4u8)
        | (b >> 4u8)) << 4u8) | (((b & 15u8) << 2u8) >> 2u8)) as u8 == b) by (bit_vector);
}

proof fn lemma_encoding_kept(s: Seq<u8>)
    ensures
        forall|i: int|
            0 <= i < base64_encode_unpadded(s).len() ==> base64_kept(
                #[trigger] base64_encode_unpadded(s)[i],
            ),
    decreases s.len(),
{
    if s.len() > 0 {
        let b = if s.len() > 1 { s[1] } else { 0u8 };
        let c = if s.len() > 2 { s[2] } else { 0u8 };
        lemma_group_bits(s[0], b, c);
        lemma_symbol_value(s[0] >> 2u8);
        lemma_symbol_value((s[0] & 3u8) << 4u8);
        lemma_symbol_value(((s[0] & 3u8) << 4u8) | (b >> 4u8));
        lemma_symbol_value((b & 15u8) << 2u8);
        lemma_symbol_value(((b & 15u8) << 2u8) | (c >> 6u8));
        lemma_symbol_value(c & 63u8);
        if s.len() > 2 {
            lemma_encoding_kept(s.skip(3));
            let e = base64_encode_unpadded(s);
            let rest = base64_encode_unpadded(s.skip(3));
            assert forall|i: int| 0 <= i < e.len() implies base64_kept(#[trigger] e[i]) by {
                if i >= 4 {
                    assert(e[i] == rest[i - 4]);
                }
            }
        }
    }
}

proof fn lemma_decode_encoding(s: Seq<u8>)
    ensures
        base64_decode_symbols(base64_encode_unpadded(s)) == s,
    decreases s.len(),
{
    let e = base64_encode_unpadded(s);
    if s.len() > 0 {
        let b = if s.len() > 1 { s[1] } else { 0u8 };
        let c = if s.len() > 2 { s[2] } else { 0u8 };
        lemma_group_bits(s[0], b, c);
        lemma_symbol_value(s[0] >> 2u8);
        lemma_symbol_value((s[0] & 3u8) << 4u8);
        lemma_symbol_value(((s[0] & 3u8) << 4u8) | (b >> 4u8));
        lemma_symbol_value((b & 15u8) << 2u8);
        lemma_symbol_value(((b & 15u8) << 2u8) | (c >> 6u8));
        lemma_symbol_value(c & 63u8);
        if s.len() == 1 {
            assert(base64_group(e, 2) =~= s);
        } else if s.len() == 2 {
            assert(base64_group(e, 3) =~= s);
        } else {
            lemma_decode_encoding(s.skip(3));
            assert(e.skip(4) =~= base64_encode_unpadded(s.skip(3)));
            assert(base64_group(e, 4) =~= s.take(3));
            assert(s.take(3) + s.skip(3) =~= s);
        }
    }
}

/// Decoding gives back the bytes that were encoded: the standard base64
/// encoding of `s`, with or without its `=` padding and with line breaks or
/// spaces put in anywhere, decodes to `s`.
pub proof fn law_base64_round_trip(s: Seq<u8>, text: Seq<u8>)
    requires
        without_blanks(text) == base64_encode(s) || without_blanks(text) == base64_encode_unpadded(s),
    ensures
        base64_decoded(text) == s,
{
    let u = base64_encode_unpadded(s);
    lemma_symbols_skip_blanks(text);
    lemma_encoding_kept(s);
    lemma_symbols_of_kept(u);
    let pad: int = if s.len() % 3 == 1 {
        2
    } else if s.len() % 3 == 2 {
        1
    } else {
        0
    };
    lemma_symbols_of_padding(u, pad);
    assert(base64_encode(s) =~= u + Seq::new(pad as nat, |i: int| 0x3Du8));
    assert(u + Seq::new(0, |i: int| 0x3Du8) =~= u);
    lemma_decode_encoding(s);
}


/// Action the COM thread should take after dispatching a command.
#[derive(Debug, PartialEq)]
pub enum Action {
    /// Send this event over serial.
    Respond(Event),
    /// Update the FOC thread's haptic profile.
    UpdateHaptic(DetentProfile),
    /// Update HMI thread's LED configuration.
    UpdateLedConfig(LedConfig),
    /// Update HMI thread's settings (brightness, orientation).
    UpdateSettings { brightness: u8, orientation: u8 },
    /// Trigger motor recalibration.
    Recalibrate,
    /// Send a command to the display thread.
    Display(DisplayCommand),
    /// Enter binary receive mode for album art (raw bytes from the serial line).
    BinaryArtReceive(u32),
    /// Persist profiles/settings to SPIFFS.
    Save,
    /// No action needed.
    NoAction,
}

/// `a` answers with a message event of this type and text.
pub open spec fn responds_message(a: Action, msg_type: Seq<char>, text: Seq<char>) -> bool {
    a matches Action::Respond(e) && is_message(e, msg_type, text)
}

/// Settings after applying an update: fields the update carries replace the
/// current ones, absent fields are kept.
pub open spec fn merge_settings(cur: SettingsPayload, upd: SettingsPayload) -> SettingsPayload {
    SettingsPayload {
        midi_channel: if upd.midi_channel is Some {
            upd.midi_channel
        } else {
            cur.midi_channel
        },
        orientation: if upd.orientation is Some {
            upd.orientation
        } else {
            cur.orientation
        },
        led_brightness: if upd.led_brightness is Some {
            upd.led_brightness
        } else {
            cur.led_brightness
        },
        idle_timeout_s: if upd.idle_timeout_s is Some {
            upd.idle_timeout_s
        } else {
            cur.idle_timeout_s
        },
    }
}

/// The HMI update that follows a settings change: brightness defaults to
/// 200 and orientation to 0 when unset.
pub open spec fn settings_action(s: SettingsPayload) -> Action {
    Action::UpdateSettings {
        brightness: match s.led_brightness {
            Some(b) => b,
            None => 200,
        },
        orientation: match s.orientation {
            Some(o) => o,
            None => 0,
        },
    }
}

/// Updates a profile pushes to the motor and LED threads: its haptic
/// profile, then its LED configuration, each when present.
pub open spec fn profile_updates(p: ProfilePayload) -> Seq<Action> {
    (if p.haptic is Some {
        seq![Action::UpdateHaptic(detent_profile_of(p.haptic->0))]
    } else {
        Seq::empty()
    }) + (if p.led is Some {
        seq![Action::UpdateLedConfig(p.led->0)]
    } else {
        Seq::empty()
    })
}

/// Haptic profile for media volume control: 20 regular detents over 0..100.
pub open spec fn volume_profile() -> DetentProfile {
    DetentProfile {
        mode: HapticMode::Regular,
        start_pos: 0,
        end_pos: 100,
        detent_count: 20,
        vernier: 0,
        kx_force: false,
        output_ramp_bits: RAMP_5000_BITS,
        detent_strength_bits: STRENGTH_3_BITS,
    }
}

/// Haptic profile for scrubbing: detent-free viscous resistance over 0..255.
pub open spec fn scrub_profile() -> DetentProfile {
    DetentProfile {
        mode: HapticMode::Viscose,
        start_pos: 0,
        end_pos: 255,
        detent_count: 0,
        vernier: 0,
        kx_force: false,
        output_ramp_bits: RAMP_5000_BITS,
        detent_strength_bits: 0,
    }
}

/// State and answer of the dispatcher after one command: `m0`, `s0` before,
/// `m1`, `s1` after, and the actions taken, in order.
pub open spec fn dispatched(
    m0: ManagerView,
    s0: SettingsPayload,
    cmd: Command,
    m1: ManagerView,
    s1: SettingsPayload,
    acts: Seq<Action>,
) -> bool {
    match cmd {
        Command::SetProfile(p) => {
            let (stored, r) = put_profile(m0, p, true);
            &&& s1 == s0
            &&& match r {
                Ok(_) => {
                    &&& m1 == activate(stored, p.name@).0
                    &&& acts.len() == 1 + profile_updates(p).len()
                    &&& responds_message(acts[0], "info"@, "profile '"@ + p.name@ + "' set"@)
                    &&& acts.skip(1) == profile_updates(p)
                },
                Err(e) => {
                    &&& m1 == m0
                    &&& acts.len() == 1
                    &&& responds_message(acts[0], "error"@, error_text(e))
                },
            }
        },
        Command::SetSettings(u) => {
            &&& m1 == m0
            &&& s1 == merge_settings(s0, u)
            &&& acts.len() == 2
            &&& responds_message(acts[0], "info"@, "settings updated"@)
            &&& acts[1] == settings_action(s1)
        },
        Command::Motor(mc) => {
            &&& m1 == m0
            &&& s1 == s0
            &&& if mc.recalibrate {
                &&& acts.len() == 2
                &&& acts[0] == Action::Recalibrate
                &&& responds_message(acts[1], "info"@, "recalibrating motor"@)
            } else {
                acts.len() == 0
            }
        },
        Command::Screen(_) => {
            &&& m1 == m0
            &&& s1 == s0
            &&& acts.len() == 1
            &&& responds_message(acts[0], "info"@, "screen commands not yet implemented"@)
        },
        Command::Save => {
            &&& m1 == m0
            &&& s1 == s0
            &&& acts.len() == 2
            &&& acts[0] == Action::Save
            &&& responds_message(acts[1], "info"@, "saving to flash"@)
        },
        Command::Load(name) => {
            &&& s1 == s0
            &&& match lookup(m0, name@) {
                Some(p) => {
                    &&& m1 == activate(m0, name@).0
                    &&& acts.len() == 1 + profile_updates(p).len()
                    &&& acts[0] == Action::Respond(
                        Event::ProfileResponse(ProfileResponse { profile: p }),
                    )
                    &&& acts.skip(1) == profile_updates(p)
                },
                None => {
                    &&& m1 == m0
                    &&& acts.len() == 1
                    &&& responds_message(acts[0], "error"@, "profile '"@ + name@ + "' not found"@)
                },
            }
        },
        Command::List => {
            &&& m1 == m0
            &&& s1 == s0
            &&& acts.len() == 1
            &&& acts[0] matches Action::Respond(Event::ListResponse(l)) && l.profiles@.len()
                == m0.entries.len() && forall|i: int|
                0 <= i < l.profiles@.len() ==> #[trigger] l.profiles@[i]@ == name_at(m0.entries, i)
        },
        Command::Get => {
            &&& m1 == m0
            &&& s1 == s0
            &&& acts.len() == 1
            &&& match active_payload(m0) {
                Some(p) => acts[0] == Action::Respond(
                    Event::ProfileResponse(ProfileResponse { profile: p }),
                ),
                None => responds_message(acts[0], "error"@, "no active profile"@),
            }
        },
        Command::GetSettings => {
            &&& m1 == m0
            &&& s1 == s0
            &&& acts == seq![
                Action::Respond(Event::SettingsResponse(SettingsResponse { settings: s0 })),
            ]
        },
        Command::MediaMode(on) => {
            &&& m1 == m0
            &&& s1 == s0
            &&& acts.len() == 2
            &&& acts[0] == Action::Display(
                DisplayCommand::SetMode(
                    if on {
                        DisplayMode::Media
                    } else {
                        DisplayMode::Value
                    },
                ),
            )
            &&& responds_message(
                acts[1],
                "info"@,
                "media mode "@ + if on {
                    "on"@
                } else {
                    "off"@
                },
            )
        },
        Command::MediaMeta(meta) => {
            &&& m1 == m0
            &&& s1 == s0
            &&& acts == seq![
                Action::Display(
                    DisplayCommand::MediaMeta {
                        title: meta.title,
                        artist: meta.artist,
                        duration_s: meta.duration,
                        position_s: meta.position,
                        playing: meta.playing,
                    },
                ),
            ]
        },
        Command::MediaArt(art) => {
            &&& m1 == m0
            &&& s1 == s0
            &&& acts.len() == 1
            &&& acts[0] matches Action::Display(DisplayCommand::MediaArtChunk { offset, data })
                && offset == art.offset && data@ == base64_decoded(encode_utf8(art.data@))
        },
        Command::MediaArtDone => {
            &&& m1 == m0
            &&& s1 == s0
            &&& acts == seq![Action::Display(DisplayCommand::MediaArtDone)]
        },
        Command::MediaArtBin(size) => {
            &&& m1 == m0
            &&& s1 == s0
            &&& acts == seq![Action::BinaryArtReceive(size)]
        },
        Command::MediaHaptic(mode) => {
            &&& m1 == m0
            &&& s1 == s0
            &&& acts.len() == 2
            &&& acts[0] == Action::UpdateHaptic(
                if mode@ == "volume"@ {
                    volume_profile()
                } else {
                    scrub_profile()
                },
            )
            &&& responds_message(acts[1], "info"@, "media haptic: "@ + mode@)
        },
    }
}

/// Handles parsed commands and produces responses.
/// Owns the profile manager and settings state.
pub struct Dispatcher {
    pub profiles: ProfileManager,
    pub settings: SettingsPayload,
}

/// Push the haptic and LED updates that a profile carries.
fn push_profile_updates(actions: &mut Vec<Action>, p: &ProfilePayload)
    ensures
        final(actions)@ == old(actions)@ + profile_updates(*p),
{
    let ghost start = actions@;
    if let Some(h) = &p.haptic {
        actions.push(Action::UpdateHaptic(h.to_detent_profile()));
    }
    if let Some(l) = &p.led {
        actions.push(Action::UpdateLedConfig(*l));
    }
    assert(actions@ =~= start + profile_updates(*p));
}

impl Dispatcher {
    pub open spec fn wf(&self) -> bool {
        self.profiles.wf()
    }

    pub fn new() -> (d: Self)
        ensures
            d.wf(),
            d.profiles@.entries.len() == 0,
            d.profiles@.active is None,
            d.settings == (SettingsPayload {
                midi_channel: Some(1),
                orientation: Some(0),
                led_brightness: Some(200),
                idle_timeout_s: Some(30),
            }),
    {
        Dispatcher { profiles: ProfileManager::new(), settings: SettingsPayload::default() }
    }

    /// Process the result of parsing one serial line: a command is handled,
    /// a parse error is answered with an error message.
    pub fn handle_parsed(&mut self, parsed: Result<Command, ParseError>) -> (actions: Vec<Action>)
        requires
            old(self).wf(),
        ensures
            final(self).wf(),
            match parsed {
                Ok(cmd) => dispatched(
                    old(self).profiles@,
                    old(self).settings,
                    cmd,
                    final(self).profiles@,
                    final(self).settings,
                    actions@,
                ),
                Err(e) => {
                    &&& final(self).profiles@ == old(self).profiles@
                    &&& final(self).settings == old(self).settings
                    &&& actions@.len() == 1
                    &&& responds_message(actions@[0], "error"@, parse_error_text(e))
                },
            },
    {
        match parsed {
            Ok(cmd) => self.handle_command(cmd),
            Err(e) => {
                let mut actions = Vec::new();
                let text = e.message();
                actions.push(Action::Respond(message_event("error", text.as_str())));
                actions
            },
        }
    }

    /// Carry out one command. Returns the actions to take, in order.
    pub fn handle_command(&mut self, cmd: Command) -> (actions: Vec<Action>)
        requires
            old(self).wf(),
        ensures
            final(self).wf(),
            dispatched(
                old(self).profiles@,
                old(self).settings,
                cmd,
                final(self).profiles@,
                final(self).settings,
                actions@,
            ),
    {
        let mut actions: Vec<Action> = Vec::new();
        match cmd {
            Command::SetProfile(payload) => {
                return self.set_profile(payload);
            },
            Command::SetSettings(s) => {
                if let Some(v) = s.midi_channel {
                    self.settings.midi_channel = Some(v);
                }
                if let Some(v) = s.orientation {
                    self.settings.orientation = Some(v);
                }
                if let Some(v) = s.led_brightness {
                    self.settings.led_brightness = Some(v);
                }
                if let Some(v) = s.idle_timeout_s {
                    self.settings.idle_timeout_s = Some(v);
                }
                actions.push(Action::Respond(message_event("info", "settings updated")));
                // Forward brightness/orientation to HMI thread
                let brightness = match self.settings.led_brightness {
                    Some(b) => b,
                    None => 200,
                };
                let orientation = match self.settings.orientation {
                    Some(o) => o,
                    None => 0,
                };
                actions.push(Action::UpdateSettings { brightness, orientation });
            },
            Command::Motor(m) => {
                if m.recalibrate {
                    actions.push(Action::Recalibrate);
                    actions.push(Action::Respond(message_event("info", "recalibrating motor")));
                }
            },
            Command::Screen(_) => {
                actions.push(
                    Action::Respond(message_event("info", "screen commands not yet implemented")),
                );
            },
            Command::Save => {
                actions.push(Action::Save);
                actions.push(Action::Respond(message_event("info", "saving to flash")));
            },
            Command::Load(name) => {
                return self.load(name);
            },
            Command::List => {
                let names = self.profiles.list_names();
                actions.push(Action::Respond(list_response(names)));
            },
            Command::Get => {
                match self.profiles.active_profile() {
                    Some(p) => {
                        actions.push(Action::Respond(profile_response(p.clone())));
                    },
                    None => {
                        actions.push(Action::Respond(message_event("error", "no active profile")));
                    },
                }
            },
            Command::GetSettings => {
                actions.push(Action::Respond(settings_response(self.settings)));
            },
            Command::MediaMode(on) => {
                let mode = if on {
                    DisplayMode::Media
                } else {
                    DisplayMode::Value
                };
                actions.push(Action::Display(DisplayCommand::SetMode(mode)));
                let state = if on {
                    "on"
                } else {
                    "off"
                };
                let text = String::from_str("media mode ").concat(state);
                actions.push(Action::Respond(message_event("info", text.as_str())));
            },
            Command::MediaMeta(meta) => {
                actions.push(
                    Action::Display(
                        DisplayCommand::MediaMeta {
                            title: meta.title,
                            artist: meta.artist,
                            duration_s: meta.duration,
                            position_s: meta.position,
                            playing: meta.playing,
                        },
                    ),
                );
            },
            Command::MediaArt(art) => {
                let decoded = decode_base64(art.data.as_str());
                actions.push(
                    Action::Display(DisplayCommand::MediaArtChunk { offset: art.offset, data: decoded }),
                );
            },
            Command::MediaArtDone => {
                actions.push(Action::Display(DisplayCommand::MediaArtDone));
            },
            Command::MediaArtBin(size) => {
                // Signal to COM thread to enter binary receive mode
                actions.push(Action::BinaryArtReceive(size));
            },
            Command::MediaHaptic(mode) => {
                let profile = if crate::text::str_eq(mode.as_str(), "volume") {
                    DetentProfile {
                        mode: HapticMode::Regular,
                        start_pos: 0,
                        end_pos: 100,
                        detent_count: 20,
                        vernier: 0,
                        kx_force: false,
                        output_ramp_bits: RAMP_5000_BITS,
                        detent_strength_bits: STRENGTH_3_BITS,
                    }
                } else {
                    DetentProfile {
                        mode: HapticMode::Viscose,
                        start_pos: 0,
                        end_pos: 255,
                        detent_count: 0,
                        vernier: 0,
                        kx_force: false,
                        output_ramp_bits: RAMP_5000_BITS,
                        detent_strength_bits: 0,
                    }
                };
                actions.push(Action::UpdateHaptic(profile));
                let text = String::from_str("media haptic: ").concat(mode.as_str());
                actions.push(Action::Respond(message_event("info", text.as_str())));
            },
        }
        actions
    }

    /// Store a profile and make it active.
    fn set_profile(&mut self, payload: ProfilePayload) -> (actions: Vec<Action>)
        requires
            old(self).wf(),
        ensures
            final(self).wf(),
            dispatched(
                old(self).profiles@,
                old(self).settings,
                Command::SetProfile(payload),
                final(self).profiles@,
                final(self).settings,
                actions@,
            ),
    {
        let mut actions: Vec<Action> = Vec::new();
        let ghost p = payload;
        // Extract configs before storing
        let updates = ProfilePayload { name: String::new(), haptic: payload.haptic.clone(), led: payload.led };
        let name = payload.name.clone();
        match self.profiles.set_profile(payload) {
            Ok(_) => {
                let _ = self.profiles.set_active(name.as_str());
                let text = String::from_str("profile '").concat(name.as_str()).concat("' set");
                actions.push(Action::Respond(message_event("info", text.as_str())));
                push_profile_updates(&mut actions, &updates);
                assert(profile_updates(updates) == profile_updates(p));
                assert(actions@.skip(1) =~= profile_updates(p));
            },
            Err(e) => {
                let text = e.message();
                actions.push(Action::Respond(message_event("error", text.as_str())));
            },
        }
        actions
    }

    /// Make a stored profile active and report it.
    fn load(&mut self, name: String) -> (actions: Vec<Action>)
        requires
            old(self).wf(),
        ensures
            final(self).wf(),
            dispatched(
                old(self).profiles@,
                old(self).settings,
                Command::Load(name),
                final(self).profiles@,
                final(self).settings,
                actions@,
            ),
    {
        let mut actions: Vec<Action> = Vec::new();
        if self.profiles.get_profile(name.as_str()).is_some() {
            let _ = self.profiles.set_active(name.as_str());
            // Send back the loaded profile
            if let Some(p) = self.profiles.active_profile() {
                actions.push(Action::Respond(profile_response(p.clone())));
                push_profile_updates(&mut actions, p);
                assert(actions@.skip(1) =~= profile_updates(*p));
            }
        } else {
            let text = String::from_str("profile '").concat(name.as_str()).concat("' not found");
            actions.push(Action::Respond(message_event("error", text.as_str())));
        }
        actions
    }
}

/// A profile that was set is what a following `get` answers with: setting
/// makes it the active profile.
pub proof fn law_set_profile_then_get(
    m0: ManagerView,
    s0: SettingsPayload,
    p: ProfilePayload,
    m1: ManagerView,
    s1: SettingsPayload,
    a1: Seq<Action>,
    m2: ManagerView,
    s2: SettingsPayload,
    a2: Seq<Action>,
)
    requires
        manager_wf(m0),
        dispatched(m0, s0, Command::SetProfile(p), m1, s1, a1),
        put_profile(m0, p, true).1 is Ok,
        dispatched(m1, s1, Command::Get, m2, s2, a2),
    ensures
        a2 == seq![Action::Respond(Event::ProfileResponse(ProfileResponse { profile: p }))],
        m2 == m1,
{
    law_put_then_lookup(m0, p, true, p.name@);
    assert(active_payload(m1) == Some(p));
    assert(a2 =~= seq![Action::Respond(Event::ProfileResponse(ProfileResponse { profile: p }))]);
}

/// A profile that was set is what a following `load` of its name answers
/// with, followed by the updates it carries.
pub proof fn law_set_profile_then_load(
    m0: ManagerView,
    s0: SettingsPayload,
    p: ProfilePayload,
    m1: ManagerView,
    s1: SettingsPayload,
    a1: Seq<Action>,
    m2: ManagerView,
    s2: SettingsPayload,
    a2: Seq<Action>,
)
    requires
        manager_wf(m0),
        dispatched(m0, s0, Command::SetProfile(p), m1, s1, a1),
        put_profile(m0, p, true).1 is Ok,
        dispatched(m1, s1, Command::Load(p.name), m2, s2, a2),
    ensures
        a2[0] == Action::Respond(Event::ProfileResponse(ProfileResponse { profile: p })),
        a2.skip(1) == profile_updates(p),
        active_payload(m2) == Some(p),
{
    law_put_then_lookup(m0, p, true, p.name@);
    assert(lookup(m1, p.name@) == Some(p));
}

/// Settings written are what a following settings read answers with:
/// the fields the update carried, the others as they were.
pub proof fn law_settings_then_get_settings(
    m0: ManagerView,
    s0: SettingsPayload,
    u: SettingsPayload,
    m1: ManagerView,
    s1: SettingsPayload,
    a1: Seq<Action>,
    m2: ManagerView,
    s2: SettingsPayload,
    a2: Seq<Action>,
)
    requires
        dispatched(m0, s0, Command::SetSettings(u), m1, s1, a1),
        dispatched(m1, s1, Command::GetSettings, m2, s2, a2),
    ensures
        a2 == seq![
            Action::Respond(
                Event::SettingsResponse(SettingsResponse { settings: merge_settings(s0, u) }),
            ),
        ],
{
}

/// A refused profile (a new name in a full store) changes nothing and is
/// answered with the store's error.
pub proof fn law_refused_profile_changes_nothing(
    m0: ManagerView,
    s0: SettingsPayload,
    p: ProfilePayload,
    m1: ManagerView,
    s1: SettingsPayload,
    a1: Seq<Action>,
)
    requires
        dispatched(m0, s0, Command::SetProfile(p), m1, s1, a1),
        put_profile(m0, p, true).1 is Err,
    ensures
        m1 == m0,
        s1 == s0,
        a1.len() == 1,
        responds_message(a1[0], "error"@, "profile storage full (max 10)"@),
{
}


/// A settings update replaces each field it carries and keeps each field it
/// leaves out, and the HMI thread is sent the new brightness and orientation
/// (a carried value wins; unset ones fall back to 200 and 0).
pub proof fn law_settings_update_replaces_carried_fields(
    m0: ManagerView,
    s0: SettingsPayload,
    u: SettingsPayload,
    m1: ManagerView,
    s1: SettingsPayload,
    acts: Seq<Action>,
)
    requires
        dispatched(m0, s0, Command::SetSettings(u), m1, s1, acts),
    ensures
        u.midi_channel is Some ==> s1.midi_channel == u.midi_channel,
        u.midi_channel is None ==> s1.midi_channel == s0.midi_channel,
        u.orientation is Some ==> s1.orientation == u.orientation,
        u.orientation is None ==> s1.orientation == s0.orientation,
        u.led_brightness is Some ==> s1.led_brightness == u.led_brightness,
        u.led_brightness is None ==> s1.led_brightness == s0.led_brightness,
        u.idle_timeout_s is Some ==> s1.idle_timeout_s == u.idle_timeout_s,
        u.idle_timeout_s is None ==> s1.idle_timeout_s == s0.idle_timeout_s,
        m1 == m0,
        acts.len() == 2,
        acts[1] matches Action::UpdateSettings { brightness, orientation } && (u.orientation matches Some(
            o,
        ) ==> orientation == o) && (u.led_brightness matches Some(b) ==> brightness == b) && (
        s1.orientation is None ==> orientation == 0) && (s1.led_brightness is None ==> brightness
            == 200),
{
}
} // verus!
