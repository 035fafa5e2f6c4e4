//! The command interpreter: maps one `(command name, argument)` pair,
//! together with the retained sink and source and the host's outcome of the
//! command's outside work, to a new sink state, an optional new source
//! descriptor, and an optional numeric result — or to a command-level
//! error.
//!
//! The interpreter is pure: it holds no state of its own, and an error
//! leaves the sink and source it was handed untouched.

use vstd::prelude::*;
use vstd::string::StringExecFns;

use crate::errors::CommandError;
use crate::parse::{
    parse_u64, parse_volume_micros, u64_numeral_ok, u64_numeral_value, volume_micros_value,
    volume_numeral_ok,
};
use crate::sink::{SinkState, SourceInfo};

verus! {

/// What a command hands back: the sink after the command, the new source
/// descriptor if the command loaded one, and the numeric result if the
/// command has one.
pub type CommandReturnValue = Result<(SinkState, Option<SourceInfo>, Option<u64>), CommandError>;

/// What the host's attempt to open and decode a source file came to.
#[derive(Debug, Clone, PartialEq, Eq)]
pub enum DecodeOutcome {
    /// The file decoded as audio; its total duration in milliseconds, when
    /// the format reports one.
    Decoded { duration_ms: Option<u64> },
    /// The file could not be opened or read.
    OpenFailed { reason: String },
    /// The file opened but could not be decoded as audio.
    Undecodable { reason: String },
}

/// What the decoder said to a requested seek.
#[derive(Debug, Clone, PartialEq, Eq)]
pub enum SeekOutcome {
    /// The decoder repositioned playback to the requested offset.
    Seeked,
    /// The decoder rejected the request (target out of range, or the format
    /// is not seekable).
    Rejected { reason: String },
}

/// The host-supplied outcome of the outside work a command needs: decoding
/// for `SET_SRC`, the elapsed-time reading for `GET_POSITION`, the seek
/// attempt for `SEEK` once its argument parses, and nothing for every other
/// command.
#[derive(Debug, Clone, PartialEq, Eq)]
pub enum HostEvent {
    /// The command needs no outside work.
    Nothing,
    /// The outcome of opening and decoding the file named by the argument.
    SourceLoaded { outcome: DecodeOutcome },
    /// The elapsed playback time of the current source, if the decoder
    /// could report one.
    PositionRead { elapsed_ms: Option<u64> },
    /// The outcome of asking the decoder to reposition playback.
    SeekFinished { outcome: SeekOutcome },
}

/// The outside work, if any, that a command asks of the host before it can
/// be interpreted.
#[derive(Debug, Clone, Copy, PartialEq, Eq, Structural)]
pub enum Action {
    /// Open and decode the file named by the argument, then report a
    /// [`HostEvent::SourceLoaded`].
    LoadSource,
    /// Read the elapsed playback time of the current source, then report a
    /// [`HostEvent::PositionRead`].
    ReadPosition,
    /// Ask the decoder to reposition playback to `target_ms` milliseconds,
    /// then report a [`HostEvent::SeekFinished`].
    SeekTo { target_ms: u64 },
    /// None: the command is interpreted directly.
    Internal,
}

/// Which outside work each command needs, and the errors that are known
/// before any outside work: a malformed argument, an unknown command name.
pub open spec fn spec_plan(command: String, arg: String) -> Result<Action, CommandError> {
    if command@ == "SET_SRC"@ {
        Ok(Action::LoadSource)
    } else if command@ == "PLAY"@ || command@ == "PAUSE"@ || command@ == "STOP"@ || command@
        == "GET_VOLUME"@ {
        Ok(Action::Internal)
    } else if command@ == "SET_VOLUME"@ {
        if volume_numeral_ok(arg@) {
            Ok(Action::Internal)
        } else {
            Err(CommandError::ParseFloatError { argument: arg })
        }
    } else if command@ == "GET_POSITION"@ {
        Ok(Action::ReadPosition)
    } else if command@ == "SEEK"@ {
        if u64_numeral_ok(arg@) {
            Ok(Action::SeekTo { target_ms: u64_numeral_value(arg@) as u64 })
        } else {
            Err(CommandError::ParseIntError { argument: arg })
        }
    } else {
        Err(CommandError::InvalidCommand { name: command })
    }
}

/// The event kind that fits each command: the engine hands the interpreter
/// exactly the outcome of the outside work that [`spec_plan`] asked for.
pub open spec fn event_fits(command: String, arg: String, event: HostEvent) -> bool {
    if command@ == "SET_SRC"@ {
        event is SourceLoaded
    } else if command@ == "GET_POSITION"@ {
        event is PositionRead
    } else if command@ == "SEEK"@ {
        if u64_numeral_ok(arg@) {
            event is SeekFinished
        } else {
            event is Nothing
        }
    } else {
        event is Nothing
    }
}

/// `SET_SRC`: clearing the pending playback suspends the sink and empties
/// its queue; the new source is then queued and its duration returned.
pub open spec fn spec_set_src(sink: SinkState, outcome: DecodeOutcome) -> CommandReturnValue {
    match outcome {
        DecodeOutcome::Decoded { duration_ms } => match duration_ms {
            Some(d) => {
                let info = SourceInfo { duration_ms: d };
                Ok(
                    (
                        SinkState {
                            paused: true,
                            volume_micros: sink.volume_micros,
                            queued: Some(info),
                        },
                        Some(info),
                        Some(d),
                    ),
                )
            },
            None => Err(CommandError::DurationUnknown),
        },
        DecodeOutcome::OpenFailed { reason } => Err(CommandError::IoError { reason }),
        DecodeOutcome::Undecodable { reason } => Err(CommandError::DecodeError { reason }),
    }
}

/// `PLAY`: playback resumes; everything else is untouched.
pub open spec fn spec_play(sink: SinkState) -> CommandReturnValue {
    Ok(
        (
            SinkState { paused: false, volume_micros: sink.volume_micros, queued: sink.queued },
            None,
            None,
        ),
    )
}

/// `PAUSE`: playback is suspended, position retained.
pub open spec fn spec_pause(sink: SinkState) -> CommandReturnValue {
    Ok(
        (
            SinkState { paused: true, volume_micros: sink.volume_micros, queued: sink.queued },
            None,
            None,
        ),
    )
}

/// `STOP`: the queue is emptied; the sink then plays nothing.
pub open spec fn spec_stop(sink: SinkState) -> CommandReturnValue {
    Ok(
        (
            SinkState { paused: sink.paused, volume_micros: sink.volume_micros, queued: None },
            None,
            None,
        ),
    )
}

/// `SET_VOLUME`: the argument read as a decimal numeral in micro-units
/// becomes the gain; a malformed argument is a parse error and changes
/// nothing.
pub open spec fn spec_set_volume(sink: SinkState, arg: String) -> CommandReturnValue {
    if volume_numeral_ok(arg@) {
        Ok(
            (
                SinkState {
                    paused: sink.paused,
                    volume_micros: volume_micros_value(arg@) as u64,
                    queued: sink.queued,
                },
                None,
                None,
            ),
        )
    } else {
        Err(CommandError::ParseFloatError { argument: arg })
    }
}

/// `GET_VOLUME`: a pure read of the current gain.
pub open spec fn spec_get_volume(sink: SinkState) -> CommandReturnValue {
    Ok((sink, None, Some(sink.volume_micros)))
}

/// `GET_POSITION`: a pure read; the elapsed reading counts only while a
/// source descriptor is retained and the sink still has its source queued
/// — a stopped sink is playing nothing and reports no position — and
/// absence of a reading is absence of a result, never an error.
pub open spec fn spec_get_postion(
    sink: SinkState,
    old_src: Option<SourceInfo>,
    elapsed_ms: Option<u64>,
) -> CommandReturnValue {
    if old_src is Some && !sink.is_stopped() && elapsed_ms is Some {
        Ok((sink, None, elapsed_ms))
    } else {
        Ok((sink, None, None))
    }
}

/// `SEEK`: a malformed argument is a parse error; otherwise the decoder's
/// answer decides, and either way the sink is untouched.
pub open spec fn spec_seek(sink: SinkState, arg: String, outcome: SeekOutcome) -> CommandReturnValue {
    if u64_numeral_ok(arg@) {
        match outcome {
            SeekOutcome::Seeked => Ok((sink, None, None)),
            SeekOutcome::Rejected { reason } => Err(CommandError::SeekError { reason }),
        }
    } else {
        Err(CommandError::ParseIntError { argument: arg })
    }
}

/// One command's full interpretation, as a function of the retained state
/// and the host's event.  Only the cases [`event_fits`] admits are ever
/// reached.
pub open spec fn spec_handle(
    sink: SinkState,
    command: String,
    arg: String,
    old_src: Option<SourceInfo>,
    event: HostEvent,
) -> CommandReturnValue {
    if command@ == "SET_SRC"@ {
        match event {
            HostEvent::SourceLoaded { outcome } => spec_set_src(sink, outcome),
            _ => Err(CommandError::InvalidCommand { name: command }),
        }
    } else if command@ == "PLAY"@ {
        spec_play(sink)
    } else if command@ == "PAUSE"@ {
        spec_pause(sink)
    } else if command@ == "STOP"@ {
        spec_stop(sink)
    } else if command@ == "SET_VOLUME"@ {
        spec_set_volume(sink, arg)
    } else if command@ == "GET_VOLUME"@ {
        spec_get_volume(sink)
    } else if command@ == "GET_POSITION"@ {
        match event {
            HostEvent::PositionRead { elapsed_ms } => spec_get_postion(sink, old_src, elapsed_ms),
            _ => Err(CommandError::InvalidCommand { name: command }),
        }
    } else if command@ == "SEEK"@ {
        match event {
            HostEvent::SeekFinished { outcome } => spec_seek(sink, arg, outcome),
            HostEvent::Nothing => Err(CommandError::ParseIntError { argument: arg }),
            _ => Err(CommandError::InvalidCommand { name: command }),
        }
    } else {
        Err(CommandError::InvalidCommand { name: command })
    }
}

/// The command names are pairwise distinct, so each branch of
/// [`spec_handle`] and [`spec_plan`] excludes the ones before it.
pub proof fn lemma_command_names_distinct()
    ensures
        "STOP"@ != "SET_SRC"@,
        "STOP"@ != "PLAY"@,
        "STOP"@ != "PAUSE"@,
        "SET_VOLUME"@ != "SET_SRC"@,
        "SET_VOLUME"@ != "PLAY"@,
        "SET_VOLUME"@ != "PAUSE"@,
        "SET_VOLUME"@ != "STOP"@,
        "GET_VOLUME"@ != "SET_SRC"@,
        "GET_VOLUME"@ != "PLAY"@,
        "GET_VOLUME"@ != "PAUSE"@,
        "GET_VOLUME"@ != "STOP"@,
        "GET_VOLUME"@ != "SET_VOLUME"@,
        "GET_POSITION"@ != "SET_SRC"@,
        "GET_POSITION"@ != "PLAY"@,
        "GET_POSITION"@ != "PAUSE"@,
        "GET_POSITION"@ != "STOP"@,
        "GET_POSITION"@ != "SET_VOLUME"@,
        "GET_POSITION"@ != "GET_VOLUME"@,
{
    reveal_strlit("SET_SRC");
    reveal_strlit("PLAY");
    reveal_strlit("PAUSE");
    reveal_strlit("STOP");
    reveal_strlit("SET_VOLUME");
    reveal_strlit("GET_VOLUME");
    reveal_strlit("GET_POSITION");
    assert(("SET_SRC"@)[0] == 'S');
    assert(("SET_SRC"@)[1] == 'E');
    assert(("SET_SRC"@)[4] == 'S');
    assert(("PLAY"@)[0] == 'P');
    assert(("PAUSE"@)[0] == 'P');
    assert(("STOP"@)[0] == 'S');
    assert(("STOP"@)[1] == 'T');
    assert(("SET_VOLUME"@)[0] == 'S');
    assert(("SET_VOLUME"@)[1] == 'E');
    assert(("SET_VOLUME"@)[4] == 'V');
    assert(("GET_VOLUME"@)[0] == 'G');
    assert(("GET_VOLUME"@)[4] == 'V');
    assert(("GET_POSITION"@)[0] == 'G');
    assert(("GET_POSITION"@)[4] == 'P');
}

/// Loads a new source into the sink from the host's decode outcome.
pub fn set_src(sink: &SinkState, outcome: DecodeOutcome) -> (r: CommandReturnValue)
    ensures
        r == spec_set_src(*sink, outcome),
{
    match outcome {
        DecodeOutcome::Decoded { duration_ms } => match duration_ms {
            Some(d) => {
                let info = SourceInfo { duration_ms: d };
                Ok(
                    (
                        SinkState {
                            paused: true,
                            volume_micros: sink.volume_micros,
                            queued: Some(info),
                        },
                        Some(info),
                        Some(d),
                    ),
                )
            },
            None => Err(CommandError::DurationUnknown),
        },
        DecodeOutcome::OpenFailed { reason } => Err(CommandError::IoError { reason }),
        DecodeOutcome::Undecodable { reason } => Err(CommandError::DecodeError { reason }),
    }
}

/// Resumes playback.
pub fn play(sink: &SinkState) -> (r: CommandReturnValue)
    ensures
        r == spec_play(*sink),
{
    Ok(
        (
            SinkState { paused: false, volume_micros: sink.volume_micros, queued: sink.queued },
            None,
            None,
        ),
    )
}

/// Suspends playback; position is retained.
pub fn pause(sink: &SinkState) -> (r: CommandReturnValue)
    ensures
        r == spec_pause(*sink),
{
    Ok(
        (
            SinkState { paused: true, volume_micros: sink.volume_micros, queued: sink.queued },
            None,
            None,
        ),
    )
}

/// Halts playback; the sink becomes empty.
pub fn stop(sink: &SinkState) -> (r: CommandReturnValue)
    ensures
        r == spec_stop(*sink),
{
    Ok(
        (
            SinkState { paused: sink.paused, volume_micros: sink.volume_micros, queued: None },
            None,
            None,
        ),
    )
}

/// Sets the gain from the textual argument.
pub fn set_volume(sink: &SinkState, arg: &String) -> (r: CommandReturnValue)
    ensures
        r == spec_set_volume(*sink, *arg),
{
    match parse_volume_micros(arg.as_str()) {
        Some(v) => Ok(
            (
                SinkState { paused: sink.paused, volume_micros: v, queued: sink.queued },
                None,
                None,
            ),
        ),
        None => Err(CommandError::ParseFloatError { argument: arg.clone() }),
    }
}

/// Reads the current gain.
pub fn get_volume(sink: &SinkState) -> (r: CommandReturnValue)
    ensures
        r == spec_get_volume(*sink),
{
    Ok((*sink, None, Some(sink.volume_micros)))
}

/// Reads the elapsed playback time of the source that was current before
/// this command ran; a stopped sink reports no position.
pub fn get_postion(sink: &SinkState, old_src: Option<SourceInfo>, elapsed_ms: Option<u64>) -> (r:
    CommandReturnValue)
    ensures
        r == spec_get_postion(*sink, old_src, elapsed_ms),
{
    if old_src.is_some() && sink.queued.is_some() && elapsed_ms.is_some() {
        Ok((*sink, None, elapsed_ms))
    } else {
        Ok((*sink, None, None))
    }
}

/// Repositions playback from the textual argument and the decoder's answer.
pub fn seek(sink: &SinkState, arg: &String, outcome: SeekOutcome) -> (r: CommandReturnValue)
    ensures
        r == spec_seek(*sink, *arg, outcome),
{
    match parse_u64(arg.as_str()) {
        Some(_) => match outcome {
            SeekOutcome::Seeked => Ok((*sink, None, None)),
            SeekOutcome::Rejected { reason } => Err(CommandError::SeekError { reason }),
        },
        None => Err(CommandError::ParseIntError { argument: arg.clone() }),
    }
}

/// Names the outside work the command needs, or the error that is already
/// certain: a malformed argument or an unknown command name.
pub fn plan_command(command: &String, arg: &String) -> (r: Result<Action, CommandError>)
    ensures
        r == spec_plan(*command, *arg),
{
    if *command == String::from_str("SET_SRC") {
        Ok(Action::LoadSource)
    } else if *command == String::from_str("PLAY") || *command == String::from_str("PAUSE")
        || *command == String::from_str("STOP") || *command == String::from_str("GET_VOLUME") {
        Ok(Action::Internal)
    } else if *command == String::from_str("SET_VOLUME") {
        match parse_volume_micros(arg.as_str()) {
            Some(_) => Ok(Action::Internal),
            None => Err(CommandError::ParseFloatError { argument: arg.clone() }),
        }
    } else if *command == String::from_str("GET_POSITION") {
        Ok(Action::ReadPosition)
    } else if *command == String::from_str("SEEK") {
        match parse_u64(arg.as_str()) {
            Some(t) => Ok(Action::SeekTo { target_ms: t }),
            None => Err(CommandError::ParseIntError { argument: arg.clone() }),
        }
    } else {
        Err(CommandError::InvalidCommand { name: command.clone() })
    }
}

/// Interprets one command against the retained sink and source.
///
/// `old_src` is the source descriptor captured before this command runs, so
/// that a position query reflects what is actually sounding, not a source
/// mid-replacement.  `event` carries the host's outcome of the command's
/// outside work; [`event_fits`] says which kind fits which command.
pub fn handle_command(
    sink: &SinkState,
    command: &String,
    arg: &String,
    old_src: Option<SourceInfo>,
    event: HostEvent,
) -> (r: CommandReturnValue)
    requires
        event_fits(*command, *arg, event),
    ensures
        r == spec_handle(*sink, *command, *arg, old_src, event),
{
    if *command == String::from_str("SET_SRC") {
        match event {
            HostEvent::SourceLoaded { outcome } => set_src(sink, outcome),
            _ => vstd::pervasive::unreached(),
        }
    } else if *command == String::from_str("PLAY") {
        play(sink)
    } else if *command == String::from_str("PAUSE") {
        pause(sink)
    } else if *command == String::from_str("STOP") {
        stop(sink)
    } else if *command == String::from_str("SET_VOLUME") {
        set_volume(sink, arg)
    } else if *command == String::from_str("GET_VOLUME") {
        get_volume(sink)
    } else if *command == String::from_str("GET_POSITION") {
        match event {
            HostEvent::PositionRead { elapsed_ms } => get_postion(sink, old_src, elapsed_ms),
            _ => vstd::pervasive::unreached(),
        }
    } else if *command == String::from_str("SEEK") {
        match event {
            HostEvent::SeekFinished { outcome } => seek(sink, arg, outcome),
            HostEvent::Nothing => Err(CommandError::ParseIntError { argument: arg.clone() }),
            _ => vstd::pervasive::unreached(),
        }
    } else {
        Err(CommandError::InvalidCommand { name: command.clone() })
    }
}

} // verus!
