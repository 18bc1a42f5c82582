//! Verified core of a desktop macro recorder.
//!
//! The library models keyboard/mouse input as a timestamped event sequence,
//! and proves the logic that surrounds it: a byte codec for persisted
//! recordings (an exact inverse pair), a modifier tracker with edge-triggered
//! hotkey detection, the recording state machine, the playback timing engine
//! with speed scaling, repeats and cooperative cancellation, and the
//! supervisor that coordinates worker processes. All I/O — the global input
//! hook, event injection, files, timers and child processes — lives outside
//! the library and drives these state machines with plain values.

use vstd::prelude::*;

pub mod codec;
pub mod config;
pub mod event;
pub mod hotkey;
pub mod player;
pub mod recorder;
pub mod supervisor;

verus! {

/// The error taxonomy of the library.
///
/// `HookUnavailable` is fatal at startup (the input hook could not be
/// acquired); `MalformedRecording` is a decode failure; `IoFailure` is a
/// file-level failure; `ConflictError` rejects an operation while a mutually
/// exclusive one is active; `EmitFailure` is a single failed synthetic event
/// (playback continues); `ProcessSpawnFailure` means a worker could not be
/// started.
#[derive(Clone, Copy, Debug, PartialEq, Eq, Structural)]
pub enum MacroError {
    HookUnavailable,
    MalformedRecording,
    IoFailure,
    ConflictError,
    EmitFailure,
    ProcessSpawnFailure,
}

impl MacroError {
    /// A short human-readable description, for hosts that report errors.
    pub fn describe(&self) -> (r: &'static str)
        ensures
            r@.len() > 0,
    {
        proof {
            reveal_strlit("input hook unavailable");
            reveal_strlit("malformed recording");
            reveal_strlit("file operation failed");
            reveal_strlit("conflicting operation is active");
            reveal_strlit("event emission failed");
            reveal_strlit("worker process could not be spawned");
        }
        match self {
            MacroError::HookUnavailable => "input hook unavailable",
            MacroError::MalformedRecording => "malformed recording",
            MacroError::IoFailure => "file operation failed",
            MacroError::ConflictError => "conflicting operation is active",
            MacroError::EmitFailure => "event emission failed",
            MacroError::ProcessSpawnFailure => "worker process could not be spawned",
        }
    }
}

} // verus!
