//! Decisions of the COM thread: when the input holds a command line, where
//! each dispatcher action goes, and the storage paths of persisted profiles
//! and settings.
use vstd::prelude::*;

use crate::firmware::dispatch::Action;
use crate::firmware::ipc::{DisplayCommand, FocCommand, HmiCommand};
use crate::protocol::command::Event;
use crate::strings::{trim_str, trimmed};

verus! {

/// Where the COM thread sends the result of one action.
pub enum Outgoing {
    /// Serialize and write this event to the serial line.
    Serial(Event),
    /// Send to the motor thread.
    Foc(FocCommand),
    /// Send to the HMI thread.
    Hmi(HmiCommand),
    /// Send to the display thread.
    Display(DisplayCommand),
    /// Tell the display a transfer starts, acknowledge, then read this many
    /// raw art bytes from the serial line.
    ReceiveArt(u32),
    /// Write the changed profiles and the settings to flash.
    Persist,
    /// Nothing to do.
    Nothing,
}

/// The destination of each action.
pub open spec fn routed(a: Action) -> Outgoing {
    match a {
        Action::Respond(e) => Outgoing::Serial(e),
        Action::UpdateHaptic(p) => Outgoing::Foc(FocCommand::UpdateHaptic(p)),
        Action::UpdateLedConfig(c) => Outgoing::Hmi(HmiCommand::UpdateLedConfig(c)),
        Action::UpdateSettings { brightness, orientation } => Outgoing::Hmi(
            HmiCommand::UpdateSettings { brightness, orientation },
        ),
        Action::Recalibrate => Outgoing::Foc(FocCommand::Recalibrate),
        Action::Display(d) => Outgoing::Display(d),
        Action::BinaryArtReceive(size) => Outgoing::ReceiveArt(size),
        Action::Save => Outgoing::Persist,
        Action::NoAction => Outgoing::Nothing,
    }
}

/// Routes one dispatcher action to the thread or channel that carries it out.
pub fn route_action(a: Action) -> (o: Outgoing)
    ensures
        o == routed(a),
{
    match a {
        Action::Respond(e) => Outgoing::Serial(e),
        Action::UpdateHaptic(p) => Outgoing::Foc(FocCommand::UpdateHaptic(p)),
        Action::UpdateLedConfig(c) => Outgoing::Hmi(HmiCommand::UpdateLedConfig(c)),
        Action::UpdateSettings { brightness, orientation } => Outgoing::Hmi(
            HmiCommand::UpdateSettings { brightness, orientation },
        ),
        Action::Recalibrate => Outgoing::Foc(FocCommand::Recalibrate),
        Action::Display(d) => Outgoing::Display(d),
        Action::BinaryArtReceive(size) => Outgoing::ReceiveArt(size),
        Action::Save => Outgoing::Persist,
        Action::NoAction => Outgoing::Nothing,
    }
}

/// The line that tells the host to start streaming raw art bytes.
pub fn art_ack_line() -> (s: &'static str)
    ensures
        s@ == "{\"ack\":\"art_bin\"}\n"@,
{
    "{\"ack\":\"art_bin\"}\n"
}

/// Flash path of a stored profile: `/spiffs/profiles/<name>.json`.
pub fn profile_storage_path(name: &str) -> (path: String)
    ensures
        path@ == "/spiffs/profiles/"@ + name@ + ".json"@,
{
    let mut path = String::from_str("/spiffs/profiles/");
    path.append(name);
    path.append(".json");
    path
}

/// Flash path of the device settings.
pub fn settings_storage_path() -> (path: &'static str)
    ensures
        path@ == "/spiffs/device_settings.json"@,
{
    "/spiffs/device_settings.json"
}

/// What the bytes read so far from the serial line hold.
#[derive(Debug, PartialEq, Eq)]
pub enum InputLine {
    /// No line break yet: keep reading, a long command comes in several packets.
    Incomplete,
    /// A line with nothing but white space: drop it.
    Blank,
    /// A command line, without its surrounding white space.
    Complete(String),
}

/// Whether the input read so far ends a line, and the command it holds:
/// a line is complete once the input ends with a line break; its command
/// is the line with leading and trailing white space taken off.
pub fn complete_line(input: &str) -> (r: InputLine)
    ensures
        !(input@.len() > 0 && input@.last() == '\n') ==> r == InputLine::Incomplete,
        input@.len() > 0 && input@.last() == '\n' && trimmed(input@).len() == 0 ==> r
            == InputLine::Blank,
        input@.len() > 0 && input@.last() == '\n' && trimmed(input@).len() > 0 ==> (r matches InputLine::Complete(line) && line@ == trimmed(input@)),
{
    let n = input.unicode_len();
    if n == 0 || input.get_char(n - 1) != '\n' {
        return InputLine::Incomplete;
    }
    let line = trim_str(input);
    if line.unicode_len() == 0 {
        InputLine::Blank
    } else {
        InputLine::Complete(line.to_string())
    }
}

} // verus!
