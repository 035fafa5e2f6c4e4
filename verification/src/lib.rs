//! Core of a single-track audio playback engine driven by textual commands.
//!
//! A long-lived worker owns the one playback sink and the descriptor of the
//! currently loaded source.  Callers submit commands (`SET_SRC`, `PLAY`,
//! `PAUSE`, `STOP`, `SET_VOLUME`, `GET_VOLUME`, `GET_POSITION`, `SEEK`) as a
//! name plus a textual argument; each command resolves exactly once, with a
//! numeric result or with an error.  This crate holds the verified part of
//! that engine: the data model of the sink and source, argument parsing, the
//! command interpreter, and the engine's per-command state transition.  The
//! host process wires these to the actual audio device and to its callers.
//!
//! Volumes are carried in micro-units (1_000_000 is unity gain) and times in
//! whole milliseconds, so that every quantity the logic touches is a plain
//! integer.

pub mod command_handler;
pub mod engine;
pub mod errors;
pub mod parse;
pub mod sink;

use vstd::prelude::*;

verus! {

/// Micro-units per unit of gain: a volume of `MICROS_PER_UNIT` is unity.
pub const MICROS_PER_UNIT: u64 = 1_000_000;

} // verus!
