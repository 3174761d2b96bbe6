//! The command line of the host tool, as plain data.
use vstd::prelude::*;

verus! {

/// The parsed command line: a subcommand and the options shared by all.
#[derive(Debug, Clone, PartialEq, Eq)]
pub struct Cli {
    pub command: Commands,
    /// Serial port (auto-detected if omitted)
    pub port: Option<String>,
    /// Verbose output
    pub verbose: bool,
}

/// The subcommands; file arguments are paths as given.
#[derive(Debug, Clone, PartialEq, Eq)]
pub enum Commands {
    /// Validate a firmware binary without flashing
    Validate { firmware: String },
    /// Flash firmware to the app0 partition
    Flash { firmware: String, skip_validate: bool },
    /// Backup full flash contents to a file
    Backup { output: String },
    /// Restore a full flash image (overwrites everything)
    Restore { image: String, force: bool },
    /// Flash firmware when device is already in ROM download mode
    Recover { firmware: String },
    /// Open a serial monitor
    Monitor { baud: Option<u32> },
    /// Run the media controller
    Media { baud: Option<u32> },
    /// Run hardware test suites over serial
    Test { suite: String, baud: Option<u32> },
}

/// The suite run when none is named.
pub fn default_suite() -> (s: &'static str)
    ensures
        s@ == "all"@,
{
    "all"
}

/// The baud rate of a serial session: the one given, else `default`.
pub fn baud_or(baud: Option<u32>, default: u32) -> (b: u32)
    ensures
        b == (match baud {
            Some(x) => x,
            None => default,
        }),
{
    match baud {
        Some(x) => x,
        None => default,
    }
}

} // verus!
