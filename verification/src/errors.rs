//! The command-level error taxonomy.
//!
//! Every failure of a single command falls in one of these variants; an
//! error never tears the engine down, and the retained sink and source are
//! left exactly as they were before the failed command.

use vstd::prelude::*;
use vstd::string::StringExecFns;

verus! {

/// Why a single command failed.
///
/// Each variant carries the minimal context a caller-facing diagnostic
/// needs: the offending argument text, the unrecognized command name, or the
/// reason reported by the host for its part of the work.
#[derive(Debug, Clone, PartialEq, Eq)]
pub enum CommandError {
    /// The `SET_VOLUME` argument is not a non-negative decimal numeral.
    ParseFloatError { argument: String },
    /// The `SEEK` argument is not an unsigned decimal integer.
    ParseIntError { argument: String },
    /// The decoder rejected the requested seek target.
    SeekError { reason: String },
    /// The command name is not one the interpreter knows.
    InvalidCommand { name: String },
    /// The source file could not be opened or read.
    IoError { reason: String },
    /// The source file could not be decoded as audio.
    DecodeError { reason: String },
    /// The source decoded, but its total duration is unknown, which this
    /// single-track player does not support.
    DurationUnknown,
}

impl CommandError {
    /// The caller-facing diagnostic text of this error.
    pub open spec fn spec_message(self) -> Seq<char> {
        match self {
            CommandError::ParseFloatError { argument } => "volume is not a number: "@ + argument@,
            CommandError::ParseIntError { argument } => "position is not an unsigned integer: "@
                + argument@,
            CommandError::SeekError { reason } => "seek rejected: "@ + reason@,
            CommandError::InvalidCommand { name } => "invalid command: "@ + name@,
            CommandError::IoError { reason } => "cannot open source: "@ + reason@,
            CommandError::DecodeError { reason } => "cannot decode source: "@ + reason@,
            CommandError::DurationUnknown => "source duration is unknown"@,
        }
    }

    /// Renders the error as a human-readable diagnostic string.
    pub fn message(&self) -> (r: String)
        ensures
            r@ == self.spec_message(),
    {
        match self {
            CommandError::ParseFloatError { argument } => {
                let mut m = String::from_str("volume is not a number: ");
                m.append(argument.as_str());
                m
            },
            CommandError::ParseIntError { argument } => {
                let mut m = String::from_str("position is not an unsigned integer: ");
                m.append(argument.as_str());
                m
            },
            CommandError::SeekError { reason } => {
                let mut m = String::from_str("seek rejected: ");
                m.append(reason.as_str());
                m
            },
            CommandError::InvalidCommand { name } => {
                let mut m = String::from_str("invalid command: ");
                m.append(name.as_str());
                m
            },
            CommandError::IoError { reason } => {
                let mut m = String::from_str("cannot open source: ");
                m.append(reason.as_str());
                m
            },
            CommandError::DecodeError { reason } => {
                let mut m = String::from_str("cannot decode source: ");
                m.append(reason.as_str());
                m
            },
            CommandError::DurationUnknown => String::from_str("source duration is unknown"),
        }
    }
}

} // verus!
