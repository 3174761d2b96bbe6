//! Decisions of the media controller loop: what a device event asks of the
//! player, when album art is resent, and the command lines sent to the
//! device.
use vstd::prelude::*;

use crate::strings::{contains_str, has_infix, replace_all, replaced};
use crate::text::{decimal, push_decimal, str_eq};

verus! {

/// How often the player is asked for its current track, in milliseconds.
pub const POLL_INTERVAL_MS: u64 = 500;

/// Pause between two passes of the controller loop, in milliseconds.
pub const LOOP_SLEEP_MS: u64 = 50;

/// How long the device has to acknowledge an art transfer, in milliseconds.
pub const ART_ACK_TIMEOUT_MS: u64 = 2000;

/// What a button press on the device asks of the player.
#[derive(Debug, Clone, Copy, PartialEq, Eq, Structural)]
pub enum MediaKey {
    /// Button A.
    PlayPause,
    /// Button B: switch between volume and scrubbing (not available yet).
    ToggleMode,
    /// Button C.
    Previous,
    /// Button D.
    Next,
    /// Anything else, releases included.
    Ignored,
}

/// The button number of a key event: the low byte of the reported number,
/// or 99 when the event carries none.
pub open spec fn key_number(num: Option<u64>) -> u8 {
    match num {
        Some(n) => (n % 256) as u8,
        None => 99,
    }
}

/// The player action of a key event with this number and state word.
pub open spec fn media_key_of(num: Option<u64>, state: Seq<char>) -> MediaKey {
    if state != "pressed"@ {
        MediaKey::Ignored
    } else {
        let n = key_number(num);
        if n == 0 {
            MediaKey::PlayPause
        } else if n == 1 {
            MediaKey::ToggleMode
        } else if n == 2 {
            MediaKey::Previous
        } else if n == 3 {
            MediaKey::Next
        } else {
            MediaKey::Ignored
        }
    }
}

/// Maps a key event from the device to a player action: presses of
/// buttons A to D are play/pause, mode toggle, previous and next.
pub fn media_key_for(num: Option<u64>, state: &str) -> (k: MediaKey)
    ensures
        k == media_key_of(num, state@),
{
    if !str_eq(state, "pressed") {
        return MediaKey::Ignored;
    }
    let n: u8 = match num {
        Some(v) => (v % 256) as u8,
        None => 99,
    };
    match n {
        0 => MediaKey::PlayPause,
        1 => MediaKey::ToggleMode,
        2 => MediaKey::Previous,
        3 => MediaKey::Next,
        _ => MediaKey::Ignored,
    }
}

/// The output volume for a knob position in volume mode: the position as a
/// percentage, capped at 100.
pub fn volume_for_position(pos: u64) -> (percent: u32)
    ensures
        percent == (if pos <= 100 { pos as int } else { 100 }),
{
    if pos <= 100 {
        pos as u32
    } else {
        100
    }
}

/// Whether the track differs from the one whose art was last sent; tracks
/// are told apart by title and album.
pub fn track_changed(last: &Option<(String, String)>, title: &str, album: &str) -> (changed: bool)
    ensures
        changed == !(last matches Some(t) && t.0@ == title@ && t.1@ == album@),
{
    match last {
        Some(t) => !(str_eq(t.0.as_str(), title) && str_eq(t.1.as_str(), album)),
        None => true,
    }
}

/// The artwork URL asking the CDN for its 300 pixel rendition in place of
/// the 640 pixel one.
pub fn small_art_url(url: &str) -> (small: String)
    ensures
        small@ == replaced(url@, "ab67616d0000b273"@, "ab67616d00004851"@),
{
    proof {
        reveal_strlit("ab67616d0000b273");
    }
    replace_all(url, "ab67616d0000b273", "ab67616d00004851")
}

/// The command announcing a binary art transfer of `len` bytes.
pub fn art_bin_command(len: usize) -> (cmd: String)
    ensures
        cmd@ == "{\"media_art_bin\":"@ + decimal(len as nat) + "}"@,
{
    let mut cmd = String::from_str("{\"media_art_bin\":");
    push_decimal(&mut cmd, len as u64);
    cmd.append("}");
    cmd
}

/// A line from the device acknowledges the art transfer when it contains
/// `ack`; other lines are button or angle events to skip.
pub fn is_ack_line(line: &str) -> (b: bool)
    ensures
        b == has_infix(line@, "ack"@),
{
    contains_str(line, "ack")
}

/// The command that switches the device to its media screen.
pub fn media_mode_on_command() -> (s: &'static str)
    ensures
        s@ == "{\"media_mode\": \"on\"}"@,
{
    "{\"media_mode\": \"on\"}"
}

/// The command that sets the knob to volume haptics.
pub fn media_haptic_volume_command() -> (s: &'static str)
    ensures
        s@ == "{\"media_haptic\": \"volume\"}"@,
{
    "{\"media_haptic\": \"volume\"}"
}

/// The command that leaves the media screen.
pub fn media_mode_off_command() -> (s: &'static str)
    ensures
        s@ == "{\"media_mode\": \"off\"}"@,
{
    "{\"media_mode\": \"off\"}"
}

/// The command restoring the default profile when the controller exits:
/// 60 regular detents over 0..=255.
pub fn default_profile_command() -> (s: &'static str)
    ensures
        s@ == "{\"profile\":{\"name\":\"default\",\"haptic\":{\"mode\":\"regular\",\"start_pos\":0,\"end_pos\":255,\"detent_count\":60,\"vernier\":5,\"output_ramp\":0.0,\"detent_strength\":3.0}}}"@,
{
    "{\"profile\":{\"name\":\"default\",\"haptic\":{\"mode\":\"regular\",\"start_pos\":0,\"end_pos\":255,\"detent_count\":60,\"vernier\":5,\"output_ramp\":0.0,\"detent_strength\":3.0}}}"
}

/// The next thing the media controller sends to the device in one poll.
#[derive(Debug, Clone, PartialEq, Eq)]
pub enum MediaSend {
    /// Album art downloaded from this address.
    ArtFromUrl(String),
    /// The test gradient, in place of album art.
    TestPattern,
    /// The track's metadata; the last send of every poll.
    Meta,
}

/// First send of a poll that found a track: a new track gets its art first,
/// from the small version of its artwork when it has one and otherwise the
/// test pattern; an unchanged track only gets its metadata.
pub fn first_media_send(changed: bool, artwork_url: &Option<String>) -> (m: MediaSend)
    ensures
        !changed ==> m == MediaSend::Meta,
        changed && artwork_url is None ==> m == MediaSend::TestPattern,
        changed ==> (artwork_url matches Some(u) ==> m matches MediaSend::ArtFromUrl(small) && small@
            == replaced(u@, "ab67616d0000b273"@, "ab67616d00004851"@)),
{
    if !changed {
        return MediaSend::Meta;
    }
    match artwork_url {
        Some(url) => MediaSend::ArtFromUrl(small_art_url(url.as_str())),
        None => MediaSend::TestPattern,
    }
}

/// Send after trying art from its address: the test pattern when that art
/// did not reach the device, then the metadata.
pub fn after_url_art(sent: bool) -> (m: MediaSend)
    ensures
        m == (if sent { MediaSend::Meta } else { MediaSend::TestPattern }),
{
    if sent {
        MediaSend::Meta
    } else {
        MediaSend::TestPattern
    }
}

} // verus!
