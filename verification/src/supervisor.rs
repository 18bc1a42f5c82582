//! The supervisor's state machine.
//!
//! The long-lived supervisor owns the four-way UI state — recording, playing,
//! a recording loaded, or idle — and the at-most-one-active-worker invariant.
//! It never does its own I/O: every operation here updates [`AppState`] and
//! returns what the host must perform (spawn a worker, stop one, open a
//! dialog), and the host reports back what happened (a spawn's outcome, a
//! worker's exit). [`StopProtocol`] is the graceful-stop schedule for a
//! recording worker: poll for voluntary exit up to a bounded timeout, then
//! escalate to a termination signal and block until exit.

use vstd::prelude::*;
use crate::MacroError;

verus! {

/// The work a spawned worker performs.
#[derive(Clone, Copy, Debug, PartialEq, Eq, Structural)]
pub enum WorkerKind {
    Recording,
    Playback,
}

/// Ownership of one spawned worker process: the host's process token and the
/// worker's kind.
#[derive(Clone, Copy, Debug, PartialEq, Eq, Structural)]
pub struct WorkerHandle {
    pub pid: u32,
    pub kind: WorkerKind,
}

/// The four-way UI state.
#[derive(Clone, Copy, Debug, PartialEq, Eq, Structural)]
pub enum UiState {
    Idle,
    Recording,
    Playing,
    Loaded,
}

/// The supervisor's shared state: the active workers, the playback settings,
/// the loaded recording, and the per-hotkey edge latches.
///
/// Speed is a thousandths multiplier and the repeat interval is in
/// milliseconds, as the player takes them; `repeat_count == 0` is infinite.
#[derive(Debug)]
pub struct AppState {
    pub is_recording: bool,
    pub recording_process: Option<WorkerHandle>,
    pub playback_process: Option<WorkerHandle>,
    pub playback_speed_milli: u64,
    pub repeat_count: u32,
    pub repeat_interval_ms: u64,
    pub pending_playback: Option<String>,
    pub current_recording_path: Option<String>,
    pub last_record_hotkey_pressed: bool,
    pub last_playback_hotkey_pressed: bool,
    pub last_load_hotkey_pressed: bool,
}

/// The UI state an [`AppState`] presents, in the fixed precedence
/// recording over playing over loaded over idle.
pub open spec fn ui_state(s: AppState) -> UiState {
    if s.is_recording {
        UiState::Recording
    } else if s.playback_process is Some {
        UiState::Playing
    } else if s.pending_playback is Some {
        UiState::Loaded
    } else {
        UiState::Idle
    }
}

/// What the tray menu shows: which action is permitted, which label each
/// item carries, and which icon stands in the tray.
#[derive(Clone, Copy, Debug, PartialEq, Eq, Structural)]
pub struct MenuModel {
    pub record_enabled: bool,
    pub record_shows_stop: bool,
    pub play_enabled: bool,
    pub play_shows_stop: bool,
    pub load_enabled: bool,
    pub load_shows_unload: bool,
    pub settings_enabled: bool,
    pub icon: UiState,
}

/// The menu for each UI state: while recording only "stop recording" is
/// permitted; while playing only "stop playback"; with a recording loaded,
/// a fresh recording (which drops the selection), playback, unloading and
/// the settings are permitted; idle permits recording and loading.
pub open spec fn menu_model_spec(u: UiState) -> MenuModel {
    match u {
        UiState::Recording => MenuModel {
            record_enabled: true,
            record_shows_stop: true,
            play_enabled: false,
            play_shows_stop: false,
            load_enabled: false,
            load_shows_unload: false,
            settings_enabled: false,
            icon: UiState::Recording,
        },
        UiState::Playing => MenuModel {
            record_enabled: false,
            record_shows_stop: false,
            play_enabled: true,
            play_shows_stop: true,
            load_enabled: false,
            load_shows_unload: false,
            settings_enabled: false,
            icon: UiState::Playing,
        },
        UiState::Loaded => MenuModel {
            record_enabled: true,
            record_shows_stop: false,
            play_enabled: true,
            play_shows_stop: false,
            load_enabled: true,
            load_shows_unload: true,
            settings_enabled: true,
            icon: UiState::Loaded,
        },
        UiState::Idle => MenuModel {
            record_enabled: true,
            record_shows_stop: false,
            play_enabled: false,
            play_shows_stop: false,
            load_enabled: true,
            load_shows_unload: false,
            settings_enabled: false,
            icon: UiState::Idle,
        },
    }
}

/// What the host performs after a recording toggle.
///
/// `Spawn`: start a recording worker in immediate mode against the temporary
/// path the state now holds. `Stop`: run the graceful-stop protocol on
/// `worker` (if any), then offer to persist the file at `temp_path` to a
/// user-chosen destination — rename, falling back to copy-and-delete — or
/// discard it.
#[derive(Debug)]
pub enum RecordingToggle {
    Spawn,
    Stop { worker: Option<WorkerHandle>, temp_path: Option<String> },
}

/// What the host performs after a playback toggle.
///
/// `Stop`: terminate the playback worker and wait for its exit. `Spawn`:
/// start a playback worker in immediate mode with these settings against the
/// loaded recording. `NothingLoaded`: no recording is loaded; warn and do
/// nothing.
#[derive(Debug)]
pub enum PlaybackToggle {
    Stop { worker: WorkerHandle },
    Spawn { path: String, speed_milli: u64, repeat_count: u32, interval_ms: u64 },
    NothingLoaded,
}

/// The load action's two directions.
#[derive(Clone, Copy, Debug, PartialEq, Eq, Structural)]
pub enum LoadToggle {
    Unload,
    OpenPicker,
}

/// The hotkeys the supervisor listens for.
#[derive(Clone, Copy, Debug, PartialEq, Eq, Structural)]
pub enum HotkeyKind {
    Record,
    Playback,
    Load,
}

/// What a hotkey event asks the host to do next.
#[derive(Clone, Copy, Debug, PartialEq, Eq, Structural)]
pub enum HotkeyDecision {
    Nothing,
    ToggleRecording,
    TogglePlayback,
    UnloadRecording,
    OpenLoadDialog,
}

/// The action a hotkey event provokes: only the press edge acts (the latch
/// must be clear), and the load hotkey is refused while recording. The
/// record hotkey acts from idle and loaded alike — the recording toggle
/// itself clears a loaded-but-unplayed selection — and its conflict with an
/// active playback worker is the toggle's to reject.
pub open spec fn hotkey_decision_spec(s: AppState, kind: HotkeyKind, pressed: bool) -> HotkeyDecision {
    match kind {
        HotkeyKind::Record => if pressed && !s.last_record_hotkey_pressed {
            HotkeyDecision::ToggleRecording
        } else {
            HotkeyDecision::Nothing
        },
        HotkeyKind::Playback => if pressed && !s.last_playback_hotkey_pressed {
            HotkeyDecision::TogglePlayback
        } else {
            HotkeyDecision::Nothing
        },
        HotkeyKind::Load => if pressed && !s.last_load_hotkey_pressed {
            if s.is_recording {
                HotkeyDecision::Nothing
            } else if s.pending_playback is Some {
                HotkeyDecision::UnloadRecording
            } else {
                HotkeyDecision::OpenLoadDialog
            }
        } else {
            HotkeyDecision::Nothing
        },
    }
}

/// The state after a hotkey event: the latch follows the press/release edge,
/// and the unload decision clears the loaded recording.
pub open spec fn hotkey_state_after(s: AppState, kind: HotkeyKind, pressed: bool) -> AppState {
    match kind {
        HotkeyKind::Record => if pressed && !s.last_record_hotkey_pressed {
            AppState { last_record_hotkey_pressed: true, ..s }
        } else if !pressed {
            AppState { last_record_hotkey_pressed: false, ..s }
        } else {
            s
        },
        HotkeyKind::Playback => if pressed && !s.last_playback_hotkey_pressed {
            AppState { last_playback_hotkey_pressed: true, ..s }
        } else if !pressed {
            AppState { last_playback_hotkey_pressed: false, ..s }
        } else {
            s
        },
        HotkeyKind::Load => if pressed && !s.last_load_hotkey_pressed {
            if !s.is_recording && s.pending_playback is Some {
                AppState { last_load_hotkey_pressed: true, pending_playback: None, ..s }
            } else {
                AppState { last_load_hotkey_pressed: true, ..s }
            }
        } else if !pressed {
            AppState { last_load_hotkey_pressed: false, ..s }
        } else {
            s
        },
    }
}

impl AppState {
    /// A positive speed multiplier; every operation preserves it.
    pub open spec fn wf(self) -> bool {
        self.playback_speed_milli > 0
    }

    /// The supervisor's initial state: idle, recorded-speed playback, one
    /// pass, no interval.
    pub fn new() -> (r: Self)
        ensures
            r.wf(),
            !r.is_recording,
            r.recording_process is None,
            r.playback_process is None,
            r.playback_speed_milli == 1000u64,
            r.repeat_count == 1u32,
            r.repeat_interval_ms == 0u64,
            r.pending_playback is None,
            r.current_recording_path is None,
            !r.last_record_hotkey_pressed,
            !r.last_playback_hotkey_pressed,
            !r.last_load_hotkey_pressed,
    {
        AppState {
            is_recording: false,
            recording_process: None,
            playback_process: None,
            playback_speed_milli: 1000,
            repeat_count: 1,
            repeat_interval_ms: 0,
            pending_playback: None,
            current_recording_path: None,
            last_record_hotkey_pressed: false,
            last_playback_hotkey_pressed: false,
            last_load_hotkey_pressed: false,
        }
    }

    /// The UI state this state presents.
    pub fn current_ui_state(&self) -> (r: UiState)
        ensures
            r == ui_state(*self),
    {
        if self.is_recording {
            UiState::Recording
        } else if self.playback_process.is_some() {
            UiState::Playing
        } else if self.pending_playback.is_some() {
            UiState::Loaded
        } else {
            UiState::Idle
        }
    }

    /// The menu the host must show for the current state; recomputed after
    /// every state-changing operation.
    pub fn menu_model(&self) -> (m: MenuModel)
        ensures
            m == menu_model_spec(ui_state(*self)),
    {
        match self.current_ui_state() {
            UiState::Recording => MenuModel {
                record_enabled: true,
                record_shows_stop: true,
                play_enabled: false,
                play_shows_stop: false,
                load_enabled: false,
                load_shows_unload: false,
                settings_enabled: false,
                icon: UiState::Recording,
            },
            UiState::Playing => MenuModel {
                record_enabled: false,
                record_shows_stop: false,
                play_enabled: true,
                play_shows_stop: true,
                load_enabled: false,
                load_shows_unload: false,
                settings_enabled: false,
                icon: UiState::Playing,
            },
            UiState::Loaded => MenuModel {
                record_enabled: true,
                record_shows_stop: false,
                play_enabled: true,
                play_shows_stop: false,
                load_enabled: true,
                load_shows_unload: true,
                settings_enabled: true,
                icon: UiState::Loaded,
            },
            UiState::Idle => MenuModel {
                record_enabled: true,
                record_shows_stop: false,
                play_enabled: false,
                play_shows_stop: false,
                load_enabled: true,
                load_shows_unload: false,
                settings_enabled: false,
                icon: UiState::Idle,
            },
        }
    }

    /// Starts or stops recording.
    ///
    /// Rejected with `ConflictError`, the state unchanged, while a playback
    /// worker is active. Otherwise: if idle or loaded, the loaded selection
    /// is cleared, `temp_path` becomes the fresh recording destination, and
    /// the host must spawn a recording worker; if recording, the worker
    /// handle and temporary path are surrendered for the host to stop and
    /// offer to persist.
    pub fn handle_toggle_recording(&mut self, temp_path: String) -> (r: Result<
        RecordingToggle,
        MacroError,
    >)
        ensures
            final(self).wf() == old(self).wf(),
            old(self).playback_process is Some ==> {
                &&& r matches Err(e) && e == MacroError::ConflictError
                &&& *final(self) == *old(self)
            },
            old(self).playback_process is None && old(self).is_recording ==> {
                &&& r matches Ok(t)
                &&& t matches RecordingToggle::Stop { worker, temp_path: tp }
                &&& worker == old(self).recording_process
                &&& tp == old(self).current_recording_path
                &&& *final(self) == (AppState {
                    is_recording: false,
                    recording_process: None,
                    current_recording_path: None,
                    ..*old(self)
                })
            },
            old(self).playback_process is None && !old(self).is_recording ==> {
                &&& r matches Ok(t)
                &&& t matches RecordingToggle::Spawn
                &&& *final(self) == (AppState {
                    is_recording: true,
                    pending_playback: None,
                    current_recording_path: Some(temp_path),
                    ..*old(self)
                })
            },
    {
        if self.playback_process.is_some() {
            return Err(MacroError::ConflictError);
        }
        if self.is_recording {
            self.is_recording = false;
            let worker = self.recording_process.take();
            let tp = self.current_recording_path.take();
            Ok(RecordingToggle::Stop { worker, temp_path: tp })
        } else {
            self.is_recording = true;
            self.pending_playback = None;
            self.current_recording_path = Some(temp_path);
            Ok(RecordingToggle::Spawn)
        }
    }

    /// Commits or reverts a recording spawn. On failure the state returns to
    /// its pre-attempt shape: not recording, no worker, no destination.
    pub fn recording_spawn_result(&mut self, worker: Option<WorkerHandle>)
        ensures
            final(self).wf() == old(self).wf(),
            worker matches Some(h) ==> *final(self) == (AppState {
                recording_process: Some(h),
                ..*old(self)
            }),
            worker is None ==> *final(self) == (AppState {
                is_recording: false,
                recording_process: None,
                current_recording_path: None,
                ..*old(self)
            }),
    {
        match worker {
            Some(h) => {
                self.recording_process = Some(h);
            },
            None => {
                self.is_recording = false;
                self.recording_process = None;
                self.current_recording_path = None;
            },
        }
    }

    /// Starts or stops playback.
    ///
    /// Rejected with `ConflictError`, the state unchanged, while recording.
    /// If a playback worker is active, its handle is surrendered for the
    /// host to terminate. Otherwise, with a recording loaded, the host must
    /// spawn a playback worker with the current settings against that path;
    /// with none loaded this is a no-op the host reports as a warning.
    pub fn handle_toggle_playback(&mut self) -> (r: Result<PlaybackToggle, MacroError>)
        ensures
            final(self).wf() == old(self).wf(),
            old(self).is_recording ==> {
                &&& r matches Err(e) && e == MacroError::ConflictError
                &&& *final(self) == *old(self)
            },
            !old(self).is_recording && old(self).playback_process is Some ==> {
                &&& r matches Ok(t)
                &&& t matches PlaybackToggle::Stop { worker } && worker == old(
                    self,
                ).playback_process.unwrap()
                &&& *final(self) == (AppState { playback_process: None, ..*old(self) })
            },
            !old(self).is_recording && old(self).playback_process is None && old(
                self,
            ).pending_playback is Some ==> {
                &&& r matches Ok(t)
                &&& t matches PlaybackToggle::Spawn { path, speed_milli, repeat_count, interval_ms }
                &&& path == old(self).pending_playback.unwrap()
                &&& speed_milli == old(self).playback_speed_milli
                &&& repeat_count == old(self).repeat_count
                &&& interval_ms == old(self).repeat_interval_ms
                &&& *final(self) == *old(self)
            },
            !old(self).is_recording && old(self).playback_process is None && old(
                self,
            ).pending_playback is None ==> {
                &&& r matches Ok(t)
                &&& t matches PlaybackToggle::NothingLoaded
                &&& *final(self) == *old(self)
            },
    {
        if self.is_recording {
            return Err(MacroError::ConflictError);
        }
        if self.playback_process.is_some() {
            let worker = self.playback_process.take().unwrap();
            return Ok(PlaybackToggle::Stop { worker });
        }
        match &self.pending_playback {
            Some(p) => Ok(
                PlaybackToggle::Spawn {
                    path: p.clone(),
                    speed_milli: self.playback_speed_milli,
                    repeat_count: self.repeat_count,
                    interval_ms: self.repeat_interval_ms,
                },
            ),
            None => Ok(PlaybackToggle::NothingLoaded),
        }
    }

    /// Commits a playback spawn; a failed spawn leaves the state untouched.
    pub fn playback_spawn_result(&mut self, worker: Option<WorkerHandle>)
        ensures
            final(self).wf() == old(self).wf(),
            worker matches Some(h) ==> *final(self) == (AppState {
                playback_process: Some(h),
                ..*old(self)
            }),
            worker is None ==> *final(self) == *old(self),
    {
        if let Some(h) = worker {
            self.playback_process = Some(h);
        }
    }

    /// Reaps a finished playback worker. The host polls the worker without
    /// blocking and passes whether it has exited (a poll error counts as an
    /// exit); the handle is cleared exactly then, so no handle ever refers to
    /// an already-exited process.
    pub fn check_playback_status(&mut self, exited: bool) -> (finished: bool)
        ensures
            final(self).wf() == old(self).wf(),
            finished == (old(self).playback_process is Some && exited),
            finished ==> *final(self) == (AppState { playback_process: None, ..*old(self) }),
            !finished ==> *final(self) == *old(self),
    {
        if self.playback_process.is_some() && exited {
            self.playback_process = None;
            true
        } else {
            false
        }
    }

    /// Loads a recording the user picked.
    pub fn handle_file_selected(&mut self, path: String)
        ensures
            final(self).wf() == old(self).wf(),
            *final(self) == (AppState { pending_playback: Some(path), ..*old(self) }),
    {
        self.pending_playback = Some(path);
    }

    /// The load action: with a recording loaded it unloads it; otherwise the
    /// host must open the file picker (and report the choice through
    /// [`AppState::handle_file_selected`]).
    pub fn handle_toggle_load(&mut self) -> (r: LoadToggle)
        ensures
            final(self).wf() == old(self).wf(),
            old(self).pending_playback is Some ==> r == LoadToggle::Unload && *final(self) == (
            AppState { pending_playback: None, ..*old(self) }),
            old(self).pending_playback is None ==> r == LoadToggle::OpenPicker && *final(self)
                == *old(self),
    {
        if self.pending_playback.is_some() {
            self.pending_playback = None;
            LoadToggle::Unload
        } else {
            LoadToggle::OpenPicker
        }
    }

    /// Applies the settings the user confirmed; returns whether the host
    /// should start playback at once.
    pub fn handle_settings_applied(
        &mut self,
        speed_milli: u64,
        repeat: u32,
        interval_ms: u64,
        should_play: bool,
    ) -> (play: bool)
        requires
            speed_milli > 0,
        ensures
            final(self).wf(),
            play == should_play,
            *final(self) == (AppState {
                playback_speed_milli: speed_milli,
                repeat_count: repeat,
                repeat_interval_ms: interval_ms,
                ..*old(self)
            }),
    {
        self.playback_speed_milli = speed_milli;
        self.repeat_count = repeat;
        self.repeat_interval_ms = interval_ms;
        should_play
    }

    /// Feeds one global-hotkey event (press or release) through the
    /// supervisor's per-hotkey latches and returns what the host should do.
    /// A held hotkey delivers repeated press events; the latch makes the
    /// action fire once per physical press.
    pub fn handle_hotkey(&mut self, kind: HotkeyKind, pressed: bool) -> (d: HotkeyDecision)
        ensures
            final(self).wf() == old(self).wf(),
            d == hotkey_decision_spec(*old(self), kind, pressed),
            *final(self) == hotkey_state_after(*old(self), kind, pressed),
    {
        match kind {
            HotkeyKind::Record => {
                if pressed && !self.last_record_hotkey_pressed {
                    self.last_record_hotkey_pressed = true;
                    HotkeyDecision::ToggleRecording
                } else {
                    if !pressed {
                        self.last_record_hotkey_pressed = false;
                    }
                    HotkeyDecision::Nothing
                }
            },
            HotkeyKind::Playback => {
                if pressed && !self.last_playback_hotkey_pressed {
                    self.last_playback_hotkey_pressed = true;
                    HotkeyDecision::TogglePlayback
                } else {
                    if !pressed {
                        self.last_playback_hotkey_pressed = false;
                    }
                    HotkeyDecision::Nothing
                }
            },
            HotkeyKind::Load => {
                if pressed && !self.last_load_hotkey_pressed {
                    self.last_load_hotkey_pressed = true;
                    if self.is_recording {
                        HotkeyDecision::Nothing
                    } else if self.pending_playback.is_some() {
                        self.pending_playback = None;
                        HotkeyDecision::UnloadRecording
                    } else {
                        HotkeyDecision::OpenLoadDialog
                    }
                } else {
                    if !pressed {
                        self.last_load_hotkey_pressed = false;
                    }
                    HotkeyDecision::Nothing
                }
            },
        }
    }
}

/// How long a recording worker is given to exit on its own before the
/// supervisor escalates.
pub const GRACEFUL_STOP_TIMEOUT_MS: u64 = 1000;

/// The polling cadence of the graceful-stop protocol.
pub const STOP_POLL_MS: u64 = 50;

/// The graceful-stop schedule of one worker: how long it has been polled and
/// whether the supervisor already escalated.
#[derive(Clone, Copy, Debug, PartialEq, Eq, Structural)]
pub struct StopProtocol {
    pub elapsed_ms: u64,
    pub escalated: bool,
}

/// What the host performs next while stopping a worker.
///
/// `Poll`: sleep `wait_ms`, poll the worker without blocking, step again.
/// `Escalate`: send the graceful-termination signal (the worker persists its
/// capture and exits on it). `BlockWait`: block until the worker exits.
/// `Done`: the worker has exited.
#[derive(Clone, Copy, Debug, PartialEq, Eq, Structural)]
pub enum StopStep {
    Done,
    Poll { wait_ms: u64 },
    Escalate,
    BlockWait,
}

/// The protocol's transition: done once the worker exited; a bounded run of
/// short polls; one escalation when the timeout has elapsed; then a blocking
/// wait.
pub open spec fn stop_step_spec(p: StopProtocol, exited: bool) -> (StopProtocol, StopStep) {
    if exited {
        (p, StopStep::Done)
    } else if p.escalated {
        (p, StopStep::BlockWait)
    } else if p.elapsed_ms < GRACEFUL_STOP_TIMEOUT_MS {
        let w = if GRACEFUL_STOP_TIMEOUT_MS - p.elapsed_ms < STOP_POLL_MS {
            (GRACEFUL_STOP_TIMEOUT_MS - p.elapsed_ms) as u64
        } else {
            STOP_POLL_MS
        };
        (StopProtocol { elapsed_ms: (p.elapsed_ms + w) as u64, ..p }, StopStep::Poll { wait_ms: w })
    } else {
        (StopProtocol { escalated: true, ..p }, StopStep::Escalate)
    }
}

impl StopProtocol {
    /// A stop that has just been requested.
    pub fn new() -> (r: Self)
        ensures
            r.elapsed_ms == 0u64,
            !r.escalated,
    {
        StopProtocol { elapsed_ms: 0, escalated: false }
    }

    /// Advances the protocol. `exited` is whether the non-blocking poll saw
    /// the worker gone. Escalation happens exactly once, and only after the
    /// worker was given the full timeout to exit voluntarily.
    pub fn step(&mut self, exited: bool) -> (a: StopStep)
        requires
            old(self).elapsed_ms <= GRACEFUL_STOP_TIMEOUT_MS,
        ensures
            (*final(self), a) == stop_step_spec(*old(self), exited),
            final(self).elapsed_ms <= GRACEFUL_STOP_TIMEOUT_MS,
            a == StopStep::Escalate ==> old(self).elapsed_ms >= GRACEFUL_STOP_TIMEOUT_MS
                && !old(self).escalated,
            a matches StopStep::Poll { wait_ms } ==> wait_ms <= STOP_POLL_MS,
            exited <==> a == StopStep::Done,
    {
        if exited {
            StopStep::Done
        } else if self.escalated {
            StopStep::BlockWait
        } else if self.elapsed_ms < GRACEFUL_STOP_TIMEOUT_MS {
            let w = if GRACEFUL_STOP_TIMEOUT_MS - self.elapsed_ms < STOP_POLL_MS {
                GRACEFUL_STOP_TIMEOUT_MS - self.elapsed_ms
            } else {
                STOP_POLL_MS
            };
            self.elapsed_ms = self.elapsed_ms + w;
            StopStep::Poll { wait_ms: w }
        } else {
            self.escalated = true;
            StopStep::Escalate
        }
    }
}

} // verus!
