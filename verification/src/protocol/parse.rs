use vstd::prelude::*;

use super::command::{Command, MotorCommand, ProfilePayload, ScreenCommand, SettingsPayload};

verus! {

#[derive(Debug, Clone, PartialEq)]
pub enum ParseError {
    InvalidJson(String),
    InvalidFormat(String),
    InvalidField(String),
    UnknownCommand,
}

/// Human-readable description of a parse error.
pub open spec fn parse_error_text(e: ParseError) -> Seq<char> {
    match e {
        ParseError::InvalidJson(s) => "invalid JSON: "@ + s@,
        ParseError::InvalidFormat(s) => "invalid format: "@ + s@,
        ParseError::InvalidField(s) => "invalid field: "@ + s@,
        ParseError::UnknownCommand => "unknown command"@,
    }
}

impl ParseError {
    /// Human-readable description of the error.
    pub fn message(&self) -> (s: String)
        ensures
            s@ == parse_error_text(*self),
    {
        match self {
            ParseError::InvalidJson(e) => String::from_str("invalid JSON: ").concat(e.as_str()),
            ParseError::InvalidFormat(e) => String::from_str("invalid format: ").concat(e.as_str()),
            ParseError::InvalidField(e) => String::from_str("invalid field: ").concat(e.as_str()),
            ParseError::UnknownCommand => String::from_str("unknown command"),
        }
    }
}

/// How one top-level field of a command object decoded.
#[derive(Debug, PartialEq)]
pub enum FieldDecode<T> {
    /// The key is not present.
    Absent,
    /// The key is present and its value decoded.
    Decoded(T),
    /// The key is present but its value did not decode; the decoder's message.
    Invalid(String),
}

/// The value under the `load` key.
#[derive(Debug, PartialEq)]
pub enum LoadArgument {
    /// A JSON object; `name` holds its `name` member when that is a string.
    Object { name: Option<String> },
    /// A JSON string.
    Text(String),
    /// Any other JSON value.
    Other,
}

/// The top-level members of a command object that routing looks at.
#[derive(Debug, PartialEq)]
pub struct CommandDocument {
    pub profile: FieldDecode<ProfilePayload>,
    pub settings: FieldDecode<SettingsPayload>,
    pub motor: FieldDecode<MotorCommand>,
    pub screen: FieldDecode<ScreenCommand>,
    pub save: bool,
    pub load: Option<LoadArgument>,
    pub list: bool,
    pub get: bool,
    pub get_settings: bool,
}

/// A command line as read from JSON.
#[derive(Debug, PartialEq)]
pub enum JsonCommand {
    /// The text is not JSON; the JSON parser's message.
    Malformed(String),
    /// Valid JSON, but not an object.
    NotObject,
    /// A JSON object.
    Object(CommandDocument),
}

/// `r` is the given error variant carrying exactly `text`.
pub open spec fn field_error(r: Result<Command, ParseError>, text: Seq<char>) -> bool {
    r matches Err(ParseError::InvalidField(s)) && s@ == text
}

/// Routing of a decoded command line. The first member present in the order
/// profile, settings, motor, screen, save, load, list, get, get_settings
/// decides the command; a member whose value did not decode is an
/// invalid-field error, and an object with none of them is unknown.
pub open spec fn routes_to(input: JsonCommand, r: Result<Command, ParseError>) -> bool {
    match input {
        JsonCommand::Malformed(msg) => r matches Err(ParseError::InvalidJson(s)) && s@ == msg@,
        JsonCommand::NotObject => r matches Err(ParseError::InvalidFormat(s)) && s@
            == "expected JSON object"@,
        JsonCommand::Object(doc) => {
            if !(doc.profile is Absent) {
                match doc.profile {
                    FieldDecode::Decoded(p) => r == Ok::<Command, ParseError>(Command::SetProfile(p)),
                    FieldDecode::Invalid(m) => field_error(r, m@),
                    FieldDecode::Absent => false,
                }
            } else if !(doc.settings is Absent) {
                match doc.settings {
                    FieldDecode::Decoded(p) => r == Ok::<Command, ParseError>(Command::SetSettings(p)),
                    FieldDecode::Invalid(m) => field_error(r, m@),
                    FieldDecode::Absent => false,
                }
            } else if !(doc.motor is Absent) {
                match doc.motor {
                    FieldDecode::Decoded(p) => r == Ok::<Command, ParseError>(Command::Motor(p)),
                    FieldDecode::Invalid(m) => field_error(r, m@),
                    FieldDecode::Absent => false,
                }
            } else if !(doc.screen is Absent) {
                match doc.screen {
                    FieldDecode::Decoded(p) => r == Ok::<Command, ParseError>(Command::Screen(p)),
                    FieldDecode::Invalid(m) => field_error(r, m@),
                    FieldDecode::Absent => false,
                }
            } else if doc.save {
                r == Ok::<Command, ParseError>(Command::Save)
            } else if doc.load is Some {
                match doc.load->0 {
                    LoadArgument::Object { name: Some(n) } => r matches Ok(Command::Load(s)) && s@
                        == n@,
                    LoadArgument::Text(n) => r matches Ok(Command::Load(s)) && s@ == n@,
                    _ => field_error(r, "load requires a name"@),
                }
            } else if doc.list {
                r == Ok::<Command, ParseError>(Command::List)
            } else if doc.get {
                r == Ok::<Command, ParseError>(Command::Get)
            } else if doc.get_settings {
                r == Ok::<Command, ParseError>(Command::GetSettings)
            } else {
                r == Err::<Command, ParseError>(ParseError::UnknownCommand)
            }
        },
    }
}

/// Route a decoded command line to the command it asks for.
pub fn route_command(input: JsonCommand) -> (r: Result<Command, ParseError>)
    ensures
        routes_to(input, r),
{
    let doc = match input {
        JsonCommand::Malformed(msg) => return Err(ParseError::InvalidJson(msg)),
        JsonCommand::NotObject => {
            return Err(ParseError::InvalidFormat(String::from_str("expected JSON object")));
        },
        JsonCommand::Object(doc) => doc,
    };
    match doc.profile {
        FieldDecode::Decoded(p) => return Ok(Command::SetProfile(p)),
        FieldDecode::Invalid(m) => return Err(ParseError::InvalidField(m)),
        FieldDecode::Absent => {},
    }
    match doc.settings {
        FieldDecode::Decoded(p) => return Ok(Command::SetSettings(p)),
        FieldDecode::Invalid(m) => return Err(ParseError::InvalidField(m)),
        FieldDecode::Absent => {},
    }
    match doc.motor {
        FieldDecode::Decoded(p) => return Ok(Command::Motor(p)),
        FieldDecode::Invalid(m) => return Err(ParseError::InvalidField(m)),
        FieldDecode::Absent => {},
    }
    match doc.screen {
        FieldDecode::Decoded(p) => return Ok(Command::Screen(p)),
        FieldDecode::Invalid(m) => return Err(ParseError::InvalidField(m)),
        FieldDecode::Absent => {},
    }
    if doc.save {
        return Ok(Command::Save);
    }
    match doc.load {
        Some(LoadArgument::Object { name: Some(n) }) => return Ok(Command::Load(n)),
        Some(LoadArgument::Text(n)) => return Ok(Command::Load(n)),
        Some(_) => return Err(ParseError::InvalidField(String::from_str("load requires a name"))),
        None => {},
    }
    if doc.list {
        return Ok(Command::List);
    }
    if doc.get {
        return Ok(Command::Get);
    }
    if doc.get_settings {
        return Ok(Command::GetSettings);
    }
    Err(ParseError::UnknownCommand)
}

} // verus!
