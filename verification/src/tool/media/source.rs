//! Now-playing information from the host's media players: the player
//! scripts, the parsing of their `|`-separated answers, and the control
//! commands sent back.
use vstd::prelude::*;

use crate::strings::{parse_u32, parsed_u32, split_fields, splitn_spec};
use crate::text::{decimal, push_decimal, str_eq};

verus! {

/// Now Playing track information.
#[derive(Debug, Clone, PartialEq)]
pub struct NowPlaying {
    pub title: String,
    pub artist: String,
    pub album: String,
    pub duration_s: u32,
    pub position_s: u32,
    pub playing: bool,
    pub artwork_url: Option<String>,
}

/// The AppleScript that asks Spotify for its current track.
pub fn spotify_script() -> (s: &'static str)
    ensures
        s@ == SPOTIFY_LIT@,
{
    SPOTIFY_LIT
}

/// The AppleScript that asks Music for its current track.
pub fn music_script() -> (s: &'static str)
    ensures
        s@ == MUSIC_LIT@,
{
    MUSIC_LIT
}

pub const SPOTIFY_LIT: &'static str = r#"
                    tell application "Spotify"
                        if player state is playing or player state is paused then
                            set t to name of current track
                            set a to artist of current track
                            set al to album of current track
                            set d to (duration of current track) / 1000
                            set p to player position as integer
                            set s to player state as string
                            set art to artwork url of current track
                            return t & "|" & a & "|" & al & "|" & d & "|" & p & "|" & s & "|" & art
                        end if
                    end tell
                "#;

pub const MUSIC_LIT: &'static str = r#"
                    tell application "Music"
                        if player state is playing or player state is paused then
                            set t to name of current track
                            set a to artist of current track
                            set al to album of current track
                            set d to duration of current track as integer
                            set p to player position as integer
                            set s to player state as string
                            return t & "|" & a & "|" & al & "|" & d & "|" & p & "|" & s
                        end if
                    end tell
                "#;

/// The players looked for, in order of preference.
pub fn media_app_candidates() -> (apps: [&'static str; 3])
    ensures
        apps[0]@ == "Spotify"@,
        apps[1]@ == "Plexamp"@,
        apps[2]@ == "Music"@,
{
    ["Spotify", "Plexamp", "Music"]
}

/// The script asking whether a process named `app` runs.
pub fn process_check_script(app: &str) -> (s: String)
    ensures
        s@ == "tell application \"System Events\" to (name of processes) contains \""@ + app@
            + "\""@,
{
    let mut s = String::from_str("tell application \"System Events\" to (name of processes) contains \"");
    s.append(app);
    s.append("\"");
    s
}

/// A process check answered yes: the trimmed output is exactly `true`.
pub fn is_running_answer(output: &str) -> (b: bool)
    ensures
        b == (output@ == "true"@),
{
    str_eq(output, "true")
}

/// The script that reads the current track of `app`, for the players that
/// have one (Spotify and Music).
pub fn now_playing_script(app: &str) -> (s: Option<&'static str>)
    ensures
        app@ == "Spotify"@ ==> (s matches Some(t) && t@ == SPOTIFY_LIT@),
        app@ == "Music"@ ==> (s matches Some(t) && t@ == MUSIC_LIT@),
        app@ != "Spotify"@ && app@ != "Music"@ ==> s is None,
{
    proof {
        reveal_strlit("Spotify");
        reveal_strlit("Music");
        assert("Spotify"@.len() == 7 && "Music"@.len() == 5);
    }
    if str_eq(app, "Spotify") {
        Some(spotify_script())
    } else if str_eq(app, "Music") {
        Some(music_script())
    } else {
        None
    }
}

/// A numeric field of a player's answer: its value, or 0 when it does not
/// parse as an unsigned 32-bit number.
pub open spec fn field_number(f: Seq<char>) -> u32 {
    match parsed_u32(f) {
        Some(v) => v,
        None => 0,
    }
}

/// The track described by the fields of a player's answer, which has at
/// least six: title, artist, album, duration, position, state, and for
/// Spotify the artwork URL.
pub open spec fn track_of(parts: Seq<Seq<char>>, with_art: bool) -> (Seq<char>, Seq<char>, Seq<char>, u32, u32, bool, Option<Seq<char>>) {
    (
        parts[0],
        parts[1],
        parts[2],
        field_number(parts[3]),
        field_number(parts[4]),
        parts[5] == "playing"@,
        if with_art && parts.len() > 6 {
            Some(parts[6])
        } else {
            None
        },
    )
}

/// The view of a `NowPlaying` as plain sequences.
pub open spec fn now_playing_view(np: NowPlaying) -> (Seq<char>, Seq<char>, Seq<char>, u32, u32, bool, Option<Seq<char>>) {
    (
        np.title@,
        np.artist@,
        np.album@,
        np.duration_s,
        np.position_s,
        np.playing,
        match np.artwork_url {
            Some(u) => Some(u@),
            None => None,
        },
    )
}

/// Reads a player's answer. Spotify answers seven `|`-separated fields and
/// Music six; an empty answer or one with fewer than six fields means
/// nothing is playing, as does any other player.
pub fn parse_now_playing(app: &str, output: &str) -> (r: Option<NowPlaying>)
    ensures
        (app@ != "Spotify"@ && app@ != "Music"@) || output@.len() == 0 ==> r is None,
        app@ == "Spotify"@ && output@.len() > 0 ==> match r {
            None => splitn_spec(output@, 7, '|').len() < 6,
            Some(np) => splitn_spec(output@, 7, '|').len() >= 6 && now_playing_view(np) == track_of(
                splitn_spec(output@, 7, '|'),
                true,
            ),
        },
        app@ == "Music"@ && output@.len() > 0 ==> match r {
            None => splitn_spec(output@, 6, '|').len() < 6,
            Some(np) => splitn_spec(output@, 6, '|').len() >= 6 && now_playing_view(np) == track_of(
                splitn_spec(output@, 6, '|'),
                false,
            ),
        },
{
    proof {
        reveal_strlit("Spotify");
        reveal_strlit("Music");
        assert("Spotify"@.len() == 7 && "Music"@.len() == 5);
    }
    let is_spotify = str_eq(app, "Spotify");
    if !is_spotify && !str_eq(app, "Music") {
        return None;
    }
    if output.unicode_len() == 0 {
        return None;
    }
    let limit: usize = if is_spotify {
        7
    } else {
        6
    };
    let parts = split_fields(output, limit, '|');
    if parts.len() < 6 {
        return None;
    }
    let duration_s = match parse_u32(parts[3].as_str()) {
        Some(v) => v,
        None => 0,
    };
    let position_s = match parse_u32(parts[4].as_str()) {
        Some(v) => v,
        None => 0,
    };
    let playing = str_eq(parts[5].as_str(), "playing");
    let artwork_url = if is_spotify && parts.len() > 6 {
        Some(parts[6].clone())
    } else {
        None
    };
    Some(
        NowPlaying {
            title: parts[0].clone(),
            artist: parts[1].clone(),
            album: parts[2].clone(),
            duration_s,
            position_s,
            playing,
            artwork_url,
        },
    )
}

/// The media source of macOS, which talks to the players through
/// AppleScript and remembers the player it last found.
pub struct MacOsSource {
    pub last_app: Option<String>,
}

/// A command to the remembered player: `tell application "<app>" to <verb>`.
pub open spec fn tell_script(app: Seq<char>, verb: Seq<char>) -> Seq<char> {
    "tell application \""@ + app + "\" to "@ + verb
}

impl MacOsSource {
    /// No player found yet.
    pub fn new() -> (s: Self)
        ensures
            s.last_app is None,
    {
        MacOsSource { last_app: None }
    }

    /// Remembers `app` as the running player.
    pub fn remember_app(&mut self, app: &str)
        ensures
            final(self).last_app matches Some(a) && a@ == app@,
    {
        self.last_app = Some(app.to_string());
    }

    fn tell(&self, verb: &str) -> (s: Option<String>)
        ensures
            match self.last_app {
                Some(a) => s matches Some(t) && t@ == tell_script(a@, verb@),
                None => s is None,
            },
    {
        match &self.last_app {
            Some(app) => {
                let mut s = String::from_str("tell application \"");
                s.append(app.as_str());
                s.append("\" to ");
                s.append(verb);
                Some(s)
            },
            None => None,
        }
    }

    /// The play/pause command for the remembered player, if any.
    pub fn play_pause_script(&self) -> (s: Option<String>)
        ensures
            match self.last_app {
                Some(a) => s matches Some(t) && t@ == tell_script(a@, "playpause"@),
                None => s is None,
            },
    {
        self.tell("playpause")
    }

    /// The next-track command for the remembered player, if any.
    pub fn next_track_script(&self) -> (s: Option<String>)
        ensures
            match self.last_app {
                Some(a) => s matches Some(t) && t@ == tell_script(a@, "next track"@),
                None => s is None,
            },
    {
        self.tell("next track")
    }

    /// The previous-track command for the remembered player, if any.
    pub fn prev_track_script(&self) -> (s: Option<String>)
        ensures
            match self.last_app {
                Some(a) => s matches Some(t) && t@ == tell_script(a@, "previous track"@),
                None => s is None,
            },
    {
        self.tell("previous track")
    }

    /// The seek command for the remembered player, if any.
    pub fn seek_script(&self, position_s: u32) -> (s: Option<String>)
        ensures
            match self.last_app {
                Some(a) => s matches Some(t) && t@ == tell_script(
                    a@,
                    "set player position to "@ + decimal(position_s as nat),
                ),
                None => s is None,
            },
    {
        let mut verb = String::from_str("set player position to ");
        push_decimal(&mut verb, position_s as u64);
        self.tell(verb.as_str())
    }
}

/// The command setting the system output volume to `percent`.
pub fn volume_script(percent: u32) -> (s: String)
    ensures
        s@ == "set volume output volume "@ + decimal(percent as nat),
{
    let mut s = String::from_str("set volume output volume ");
    push_decimal(&mut s, percent as u64);
    s
}

/// The media source of Linux, which has no player integration yet.
pub struct LinuxSource;

impl LinuxSource {
    pub fn new() -> (s: Self) {
        LinuxSource
    }

    /// Why now-playing information is unavailable.
    pub fn now_playing_error() -> (s: &'static str)
        ensures
            s@ == "Linux MPRIS integration not yet implemented"@,
    {
        "Linux MPRIS integration not yet implemented"
    }
}

/// The media source of Windows, which has no player integration yet.
pub struct WindowsSource;

impl WindowsSource {
    pub fn new() -> (s: Self) {
        WindowsSource
    }

    /// Why now-playing information is unavailable.
    pub fn now_playing_error() -> (s: &'static str)
        ensures
            s@ == "Windows SMTC integration not yet implemented"@,
    {
        "Windows SMTC integration not yet implemented"
    }
}

/// Why a player control is unavailable where there is no integration.
pub fn control_unavailable_error() -> (s: &'static str)
    ensures
        s@ == "not implemented"@,
{
    "not implemented"
}

} // verus!
