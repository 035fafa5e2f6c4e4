//! The data model of the playback channel.
//!
//! The engine owns exactly one [`SinkState`] — the live playback channel —
//! and at most one [`SourceInfo`] — the descriptor of the currently loaded
//! audio source.  Both are plain values: the host keeps the actual audio
//! device in step with this model.

use vstd::prelude::*;

verus! {

/// Descriptor of a successfully decoded audio source: its total duration in
/// whole milliseconds.  Created by `SET_SRC`; replaced, never merged, when a
/// new source is loaded.
#[derive(Debug, Clone, Copy, PartialEq, Eq, Structural)]
pub struct SourceInfo {
    /// Total duration of the source, in milliseconds.
    pub duration_ms: u64,
}

/// The single playback channel: play/pause state, gain, and a queue of at
/// most one pending decoded source (`None` means the sink is stopped and
/// playing nothing).
#[derive(Debug, Clone, Copy, PartialEq, Eq, Structural)]
pub struct SinkState {
    /// Playback is suspended; position is retained while paused.
    pub paused: bool,
    /// Gain in micro-units: 0 is silence, 1_000_000 is unity, unbounded above.
    pub volume_micros: u64,
    /// The one pending decoded source, if any.
    pub queued: Option<SourceInfo>,
}

impl SinkState {
    /// The sink is stopped: nothing is queued for playback.
    pub open spec fn is_stopped(self) -> bool {
        self.queued is None
    }

    /// A freshly created sink: playing state, unity gain, empty queue.
    pub fn new() -> (r: SinkState)
        ensures
            !r.paused,
            r.volume_micros == crate::MICROS_PER_UNIT,
            r.queued is None,
    {
        SinkState { paused: false, volume_micros: crate::MICROS_PER_UNIT, queued: None }
    }
}

} // verus!
