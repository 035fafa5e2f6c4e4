//! The engine loop's verified core: the state it retains, its per-command
//! transition, and the laws that hold of runs of the loop.
//!
//! The host owns the actual worker thread and queue; it dequeues one
//! command at a time, performs the outside work the command plans, and
//! calls [`engine_step`] with the outcome.  Everything the loop decides —
//! how the retained sink and source change, and what each command's
//! completion notifier is invoked with — is decided here.

use vstd::prelude::*;

use crate::command_handler::{
    event_fits, handle_command, spec_handle, DecodeOutcome, HostEvent,
};
use crate::errors::CommandError;
use crate::sink::{SinkState, SourceInfo};

verus! {

/// The state the engine loop retains across commands: the one playback
/// sink and the descriptor of the currently loaded source.
#[derive(Debug, Clone, Copy, PartialEq, Eq, Structural)]
pub struct EngineState {
    pub sink: SinkState,
    pub src: Option<SourceInfo>,
}

/// What one command's completion notifier is invoked with: a numeric value
/// (0 where the command has no result of its own) or the command's error.
/// Each command gets exactly one of the two.
#[derive(Debug, Clone, PartialEq, Eq)]
pub enum Delivery {
    Value { value: u64 },
    Failure { error: CommandError },
}

/// One enqueued command as the engine sees it when dequeued: its name, its
/// textual argument, and the host's outcome of its outside work.
#[derive(Debug, Clone, PartialEq, Eq)]
pub struct QueuedCommand {
    pub command: String,
    pub argument: String,
    pub event: HostEvent,
}

/// One dequeue-interpret-deliver turn of the engine loop.
pub open spec fn spec_engine_step(
    state: EngineState,
    command: String,
    arg: String,
    event: HostEvent,
) -> (EngineState, Delivery) {
    match spec_handle(state.sink, command, arg, state.src, event) {
        Ok((sink2, new_src, ret)) => (
            EngineState {
                sink: sink2,
                src: if new_src is Some {
                    new_src
                } else {
                    state.src
                },
            },
            Delivery::Value {
                value: match ret {
                    Some(v) => v,
                    None => 0,
                },
            },
        ),
        Err(e) => (state, Delivery::Failure { error: e }),
    }
}

/// A fresh engine: nothing queued, unity gain, no source loaded.
pub fn engine_init() -> (r: EngineState)
    ensures
        r.sink.queued is None,
        !r.sink.paused,
        r.sink.volume_micros == crate::MICROS_PER_UNIT,
        r.src is None,
{
    EngineState { sink: SinkState::new(), src: None }
}

/// Executes one dequeued command: interprets it against the retained
/// state, adopts the new sink, adopts the new source descriptor if one was
/// produced (replacing, never merging, the previous one), and returns the
/// one delivery for the command's completion notifier.  On an error the
/// retained state is exactly what it was: a command-level error never
/// tears the engine down.
pub fn engine_step(state: &EngineState, command: &String, arg: &String, event: HostEvent) -> (r: (
    EngineState,
    Delivery,
))
    requires
        event_fits(*command, *arg, event),
    ensures
        r == spec_engine_step(*state, *command, *arg, event),
{
    match handle_command(&state.sink, command, arg, state.src, event) {
        Ok((sink2, new_src, ret)) => {
            let src2 = if new_src.is_some() {
                new_src
            } else {
                state.src
            };
            let value = match ret {
                Some(v) => v,
                None => 0,
            };
            (EngineState { sink: sink2, src: src2 }, Delivery::Value { value })
        },
        Err(e) => (*state, Delivery::Failure { error: e }),
    }
}

/// A run of the engine loop over a queue of commands, first to last: the
/// final retained state and the deliveries, in queue order.
pub open spec fn spec_run(state: EngineState, cmds: Seq<QueuedCommand>) -> (
    EngineState,
    Seq<Delivery>,
)
    decreases cmds.len(),
{
    if cmds.len() == 0 {
        (state, Seq::<Delivery>::empty())
    } else {
        let first = spec_engine_step(state, cmds[0].command, cmds[0].argument, cmds[0].event);
        let rest = spec_run(first.0, cmds.drop_first());
        (rest.0, seq![first.1] + rest.1)
    }
}

/// Exactly-once delivery: a run over any queue of commands produces one
/// delivery per command — a value or an error, never both, never neither.
pub proof fn lemma_exactly_once_delivery(state: EngineState, cmds: Seq<QueuedCommand>)
    ensures
        spec_run(state, cmds).1.len() == cmds.len(),
    decreases cmds.len(),
{
    if cmds.len() > 0 {
        let first = spec_engine_step(state, cmds[0].command, cmds[0].argument, cmds[0].event);
        lemma_exactly_once_delivery(first.0, cmds.drop_first());
    }
}

/// FIFO ordering: command `i` of a run observes exactly the state left by
/// the first `i` commands, in queue order, and its delivery is computed
/// from that state; no command is reordered, dropped, or run twice.
pub proof fn lemma_fifo_order(state: EngineState, cmds: Seq<QueuedCommand>, i: int)
    requires
        0 <= i < cmds.len(),
    ensures
        ({
            let before = spec_run(state, cmds.take(i)).0;
            let step = spec_engine_step(before, cmds[i].command, cmds[i].argument, cmds[i].event);
            &&& spec_run(state, cmds.take(i + 1)).0 == step.0
            &&& spec_run(state, cmds).1[i] == step.1
        }),
    decreases cmds.len(),
{
    reveal_with_fuel(spec_run, 3);
    lemma_exactly_once_delivery(state, cmds);
    let first = spec_engine_step(state, cmds[0].command, cmds[0].argument, cmds[0].event);
    lemma_exactly_once_delivery(first.0, cmds.drop_first());
    if i == 0 {
        assert(cmds.take(0) =~= Seq::<QueuedCommand>::empty());
        assert(cmds.take(1) =~= seq![cmds[0]]);
        assert(cmds.take(1).drop_first() =~= Seq::<QueuedCommand>::empty());
    } else {
        lemma_fifo_order(first.0, cmds.drop_first(), i - 1);
        assert(cmds.take(i)[0] == cmds[0]);
        assert(cmds.take(i).drop_first() =~= cmds.drop_first().take(i - 1));
        assert(cmds.take(i + 1)[0] == cmds[0]);
        assert(cmds.take(i + 1).drop_first() =~= cmds.drop_first().take(i));
        assert(cmds.drop_first()[i - 1] == cmds[i]);
        assert(spec_run(state, cmds).1[i] == spec_run(first.0, cmds.drop_first()).1[i - 1]);
    }
}

/// Error isolation: whenever a step delivers a failure, the retained sink
/// and source are exactly what they were before the failed command.
pub proof fn lemma_error_isolation(
    state: EngineState,
    command: String,
    arg: String,
    event: HostEvent,
)
    ensures
        spec_engine_step(state, command, arg, event).1 is Failure ==> spec_engine_step(
            state,
            command,
            arg,
            event,
        ).0 == state,
{
}

/// Replace semantics: loading source B after source A leaves the engine
/// holding and queueing B alone, at the volume it already had; nothing of
/// A remains anywhere in the state.
pub proof fn lemma_set_src_replaces(
    state: EngineState,
    cmd: String,
    path_a: String,
    path_b: String,
    dur_a: u64,
    dur_b: u64,
)
    requires
        cmd@ == "SET_SRC"@,
    ensures
        ({
            let ev_a = HostEvent::SourceLoaded {
                outcome: DecodeOutcome::Decoded { duration_ms: Some(dur_a) },
            };
            let ev_b = HostEvent::SourceLoaded {
                outcome: DecodeOutcome::Decoded { duration_ms: Some(dur_b) },
            };
            let s1 = spec_engine_step(state, cmd, path_a, ev_a).0;
            let s2 = spec_engine_step(s1, cmd, path_b, ev_b).0;
            &&& s2.src == Some(SourceInfo { duration_ms: dur_b })
            &&& s2.sink.queued == Some(SourceInfo { duration_ms: dur_b })
            &&& s2.sink.volume_micros == state.sink.volume_micros
        }),
{
}

/// Position monotonicity: with a source loaded and still queued — as it is
/// under uninterrupted playback — two position queries whose elapsed
/// readings do not decrease deliver non-decreasing values, and neither
/// query changes the retained state in any way.
pub proof fn lemma_position_monotone(
    state: EngineState,
    cmd: String,
    arg1: String,
    arg2: String,
    e1: u64,
    e2: u64,
)
    requires
        cmd@ == "GET_POSITION"@,
        state.src is Some,
        state.sink.queued is Some,
        e1 <= e2,
    ensures
        ({
            let r1 = spec_engine_step(state, cmd, arg1, HostEvent::PositionRead {
                elapsed_ms: Some(e1) });
            let r2 = spec_engine_step(r1.0, cmd, arg2, HostEvent::PositionRead {
                elapsed_ms: Some(e2) });
            &&& r1.0 == state
            &&& r2.0 == state
            &&& r1.1 == (Delivery::Value { value: e1 })
            &&& r2.1 == (Delivery::Value { value: e2 })
        }),
{
    crate::command_handler::lemma_command_names_distinct();
}

/// Position after stop: once `STOP` has emptied the sink, a position
/// query delivers the default 0, whatever stale elapsed reading the host
/// hands it — never the halted source's last position — until a new
/// source is loaded.
pub proof fn lemma_position_default_after_stop(
    state: EngineState,
    stop_cmd: String,
    get_cmd: String,
    arg1: String,
    arg2: String,
    reading: Option<u64>,
)
    requires
        stop_cmd@ == "STOP"@,
        get_cmd@ == "GET_POSITION"@,
    ensures
        ({
            let s1 = spec_engine_step(state, stop_cmd, arg1, HostEvent::Nothing).0;
            let r2 = spec_engine_step(s1, get_cmd, arg2, HostEvent::PositionRead {
                elapsed_ms: reading });
            &&& s1.sink.queued is None
            &&& r2.0 == s1
            &&& r2.1 == (Delivery::Value { value: 0 })
        }),
{
    crate::command_handler::lemma_command_names_distinct();
}

/// Parse-error isolation: a malformed `SET_VOLUME` argument fails that one
/// command and changes nothing; a following `GET_VOLUME` still reads the
/// gain from before the error.
pub proof fn lemma_parse_error_isolation(
    state: EngineState,
    set_cmd: String,
    get_cmd: String,
    bad: String,
    any: String,
)
    requires
        set_cmd@ == "SET_VOLUME"@,
        get_cmd@ == "GET_VOLUME"@,
        !crate::parse::volume_numeral_ok(bad@),
    ensures
        ({
            let r1 = spec_engine_step(state, set_cmd, bad, HostEvent::Nothing);
            let r2 = spec_engine_step(r1.0, get_cmd, any, HostEvent::Nothing);
            &&& r1.0 == state
            &&& r1.1 == (Delivery::Failure {
                error: CommandError::ParseFloatError { argument: bad },
            })
            &&& r2.0 == state
            &&& r2.1 == (Delivery::Value { value: state.sink.volume_micros })
        }),
{
    crate::command_handler::lemma_command_names_distinct();
}

/// The queries are pure reads: neither `GET_POSITION` nor `GET_VOLUME`
/// changes the retained sink or source, whatever event comes with them.
pub proof fn lemma_queries_pure(state: EngineState, cmd: String, arg: String, event: HostEvent)
    requires
        cmd@ == "GET_POSITION"@ || cmd@ == "GET_VOLUME"@,
    ensures
        spec_engine_step(state, cmd, arg, event).0 == state,
{
    crate::command_handler::lemma_command_names_distinct();
}

} // verus!
