use macro_lib::supervisor::{
    AppState, HotkeyDecision, HotkeyKind, LoadToggle, MenuModel, PlaybackToggle, RecordingToggle,
    StopProtocol, StopStep, UiState, WorkerHandle, WorkerKind,
};
use macro_lib::MacroError;

fn handle(pid: u32, kind: WorkerKind) -> WorkerHandle {
    WorkerHandle { pid, kind }
}

fn state_with_playback_running() -> AppState {
    let mut s = AppState::new();
    s.handle_file_selected("session.macrec".to_string());
    match s.handle_toggle_playback().unwrap() {
        PlaybackToggle::Spawn { .. } => {}
        other => panic!("expected a spawn, got {:?}", other),
    }
    s.playback_spawn_result(Some(handle(41, WorkerKind::Playback)));
    s
}

#[test]
fn recording_while_playing_is_a_conflict() {
    let mut s = state_with_playback_running();
    let r = s.handle_toggle_recording("tmp.macrec".to_string());
    assert_eq!(r.unwrap_err(), MacroError::ConflictError);
    // No state change: still playing, the worker still held.
    assert_eq!(s.current_ui_state(), UiState::Playing);
    assert_eq!(s.playback_process, Some(handle(41, WorkerKind::Playback)));
    assert!(!s.is_recording);
    assert_eq!(s.pending_playback.as_deref(), Some("session.macrec"));
}

#[test]
fn playback_while_recording_is_a_conflict() {
    let mut s = AppState::new();
    assert!(matches!(
        s.handle_toggle_recording("tmp.macrec".to_string()).unwrap(),
        RecordingToggle::Spawn
    ));
    s.recording_spawn_result(Some(handle(7, WorkerKind::Recording)));
    assert_eq!(s.current_ui_state(), UiState::Recording);

    let r = s.handle_toggle_playback();
    assert_eq!(r.unwrap_err(), MacroError::ConflictError);
    assert_eq!(s.current_ui_state(), UiState::Recording);
    assert_eq!(s.recording_process, Some(handle(7, WorkerKind::Recording)));
}

#[test]
fn toggle_recording_starts_and_stops() {
    let mut s = AppState::new();
    s.handle_file_selected("old.macrec".to_string());
    assert!(matches!(
        s.handle_toggle_recording("fresh.macrec".to_string()).unwrap(),
        RecordingToggle::Spawn
    ));
    // Starting a recording clears the loaded selection and notes the path.
    assert!(s.pending_playback.is_none());
    assert_eq!(s.current_recording_path.as_deref(), Some("fresh.macrec"));
    s.recording_spawn_result(Some(handle(9, WorkerKind::Recording)));
    assert_eq!(s.current_ui_state(), UiState::Recording);

    match s.handle_toggle_recording("unused.macrec".to_string()).unwrap() {
        RecordingToggle::Stop { worker, temp_path } => {
            assert_eq!(worker, Some(handle(9, WorkerKind::Recording)));
            assert_eq!(temp_path.as_deref(), Some("fresh.macrec"));
        }
        other => panic!("expected a stop, got {:?}", other),
    }
    assert_eq!(s.current_ui_state(), UiState::Idle);
    assert!(s.recording_process.is_none());
    assert!(s.current_recording_path.is_none());
}

#[test]
fn failed_recording_spawn_reverts_the_state() {
    let mut s = AppState::new();
    s.handle_toggle_recording("tmp.macrec".to_string()).unwrap();
    s.recording_spawn_result(None);
    assert_eq!(s.current_ui_state(), UiState::Idle);
    assert!(!s.is_recording);
    assert!(s.recording_process.is_none());
    assert!(s.current_recording_path.is_none());
}

#[test]
fn toggle_playback_spawns_with_current_settings() {
    let mut s = AppState::new();
    s.handle_settings_applied(2000, 3, 1500, false);
    s.handle_file_selected("run.macrec".to_string());
    match s.handle_toggle_playback().unwrap() {
        PlaybackToggle::Spawn { path, speed_milli, repeat_count, interval_ms } => {
            assert_eq!(path, "run.macrec");
            assert_eq!(speed_milli, 2000);
            assert_eq!(repeat_count, 3);
            assert_eq!(interval_ms, 1500);
        }
        other => panic!("expected a spawn, got {:?}", other),
    }
    // The recording stays loaded until the spawn is committed.
    assert_eq!(s.pending_playback.as_deref(), Some("run.macrec"));
}

#[test]
fn toggle_playback_with_nothing_loaded_is_a_warning_noop() {
    let mut s = AppState::new();
    assert!(matches!(s.handle_toggle_playback().unwrap(), PlaybackToggle::NothingLoaded));
    assert_eq!(s.current_ui_state(), UiState::Idle);
}

#[test]
fn toggle_playback_stops_a_running_worker() {
    let mut s = state_with_playback_running();
    match s.handle_toggle_playback().unwrap() {
        PlaybackToggle::Stop { worker } => {
            assert_eq!(worker, handle(41, WorkerKind::Playback));
        }
        other => panic!("expected a stop, got {:?}", other),
    }
    assert!(s.playback_process.is_none());
    // The recording is still loaded, so the state falls back to Loaded.
    assert_eq!(s.current_ui_state(), UiState::Loaded);
}

#[test]
fn finished_playback_is_reaped_and_handle_cleared() {
    let mut s = state_with_playback_running();
    // Still running: nothing changes.
    assert!(!s.check_playback_status(false));
    assert!(s.playback_process.is_some());
    // Exited on its own (all repeats done): the handle must be cleared so it
    // never refers to a dead process.
    assert!(s.check_playback_status(true));
    assert!(s.playback_process.is_none());
    assert_eq!(s.current_ui_state(), UiState::Loaded);
    // Reaping twice is harmless.
    assert!(!s.check_playback_status(true));
}

#[test]
fn ui_state_precedence_is_recording_playing_loaded_idle() {
    let mut s = AppState::new();
    assert_eq!(s.current_ui_state(), UiState::Idle);
    s.handle_file_selected("a.macrec".to_string());
    assert_eq!(s.current_ui_state(), UiState::Loaded);
    s.playback_spawn_result(Some(handle(1, WorkerKind::Playback)));
    assert_eq!(s.current_ui_state(), UiState::Playing);
    s.is_recording = true;
    assert_eq!(s.current_ui_state(), UiState::Recording);
}

#[test]
fn menu_model_follows_the_state_table() {
    let mut s = AppState::new();
    let idle = s.menu_model();
    assert_eq!(
        idle,
        MenuModel {
            record_enabled: true,
            record_shows_stop: false,
            play_enabled: false,
            play_shows_stop: false,
            load_enabled: true,
            load_shows_unload: false,
            settings_enabled: false,
            icon: UiState::Idle,
        }
    );

    s.handle_file_selected("a.macrec".to_string());
    let loaded = s.menu_model();
    // Recording is permitted from the loaded state (it drops the selection),
    // alongside playback, unloading and the settings.
    assert!(loaded.play_enabled && loaded.record_enabled && !loaded.record_shows_stop);
    assert!(loaded.load_enabled && loaded.load_shows_unload);
    assert!(loaded.settings_enabled);
    assert_eq!(loaded.icon, UiState::Loaded);

    s.playback_spawn_result(Some(handle(1, WorkerKind::Playback)));
    let playing = s.menu_model();
    assert!(playing.play_enabled && playing.play_shows_stop);
    assert!(!playing.record_enabled && !playing.load_enabled && !playing.settings_enabled);
    assert_eq!(playing.icon, UiState::Playing);

    s.is_recording = true;
    let recording = s.menu_model();
    assert!(recording.record_enabled && recording.record_shows_stop);
    assert!(!recording.play_enabled && !recording.load_enabled && !recording.settings_enabled);
    assert_eq!(recording.icon, UiState::Recording);
}

#[test]
fn hotkey_acts_once_per_physical_press() {
    let mut s = AppState::new();
    assert_eq!(s.handle_hotkey(HotkeyKind::Record, true), HotkeyDecision::ToggleRecording);
    // The OS re-delivers the press while the combination is held.
    assert_eq!(s.handle_hotkey(HotkeyKind::Record, true), HotkeyDecision::Nothing);
    assert_eq!(s.handle_hotkey(HotkeyKind::Record, true), HotkeyDecision::Nothing);
    // Release re-arms, the next press acts again.
    assert_eq!(s.handle_hotkey(HotkeyKind::Record, false), HotkeyDecision::Nothing);
    assert_eq!(s.handle_hotkey(HotkeyKind::Record, true), HotkeyDecision::ToggleRecording);
}

#[test]
fn record_hotkey_acts_from_loaded_and_clears_the_selection() {
    let mut s = AppState::new();
    s.handle_file_selected("a.macrec".to_string());
    assert_eq!(s.current_ui_state(), UiState::Loaded);
    // The record hotkey acts from the loaded state too; the toggle it
    // provokes clears the loaded-but-unplayed selection and starts recording.
    assert_eq!(s.handle_hotkey(HotkeyKind::Record, true), HotkeyDecision::ToggleRecording);
    assert!(matches!(
        s.handle_toggle_recording("tmp.macrec".to_string()).unwrap(),
        RecordingToggle::Spawn
    ));
    assert!(s.pending_playback.is_none());
    assert_eq!(s.current_ui_state(), UiState::Recording);
}

#[test]
fn load_hotkey_loads_unloads_and_respects_recording() {
    let mut s = AppState::new();
    assert_eq!(s.handle_hotkey(HotkeyKind::Load, true), HotkeyDecision::OpenLoadDialog);
    s.handle_hotkey(HotkeyKind::Load, false);
    s.handle_file_selected("a.macrec".to_string());
    assert_eq!(s.handle_hotkey(HotkeyKind::Load, true), HotkeyDecision::UnloadRecording);
    assert!(s.pending_playback.is_none());
    s.handle_hotkey(HotkeyKind::Load, false);
    s.is_recording = true;
    assert_eq!(s.handle_hotkey(HotkeyKind::Load, true), HotkeyDecision::Nothing);
}

#[test]
fn playback_hotkey_toggles() {
    let mut s = AppState::new();
    assert_eq!(s.handle_hotkey(HotkeyKind::Playback, true), HotkeyDecision::TogglePlayback);
    assert_eq!(s.handle_hotkey(HotkeyKind::Playback, true), HotkeyDecision::Nothing);
}

#[test]
fn menu_load_toggles_between_load_and_unload() {
    let mut s = AppState::new();
    assert_eq!(s.handle_toggle_load(), LoadToggle::OpenPicker);
    s.handle_file_selected("a.macrec".to_string());
    assert_eq!(s.handle_toggle_load(), LoadToggle::Unload);
    assert!(s.pending_playback.is_none());
}

#[test]
fn settings_applied_updates_and_reports_should_play() {
    let mut s = AppState::new();
    assert!(!s.handle_settings_applied(1500, 0, 250, false));
    assert_eq!(s.playback_speed_milli, 1500);
    assert_eq!(s.repeat_count, 0);
    assert_eq!(s.repeat_interval_ms, 250);
    assert!(s.handle_settings_applied(1000, 1, 0, true));
}

#[test]
fn stop_protocol_polls_then_escalates_then_blocks() {
    let mut p = StopProtocol::new();
    // The worker never exits on its own: twenty 50 ms polls fill the one
    // second timeout, then exactly one escalation, then a blocking wait.
    let mut polls = 0u32;
    loop {
        match p.step(false) {
            StopStep::Poll { wait_ms } => {
                assert_eq!(wait_ms, 50);
                polls += 1;
                assert!(polls <= 20);
            }
            StopStep::Escalate => break,
            other => panic!("expected polling or escalation, got {:?}", other),
        }
    }
    assert_eq!(polls, 20);
    assert_eq!(p.step(false), StopStep::BlockWait);
    assert_eq!(p.step(true), StopStep::Done);
}

#[test]
fn stop_protocol_ends_on_voluntary_exit() {
    let mut p = StopProtocol::new();
    assert!(matches!(p.step(false), StopStep::Poll { .. }));
    // The worker caught the request and exited by itself: done, no
    // escalation.
    assert_eq!(p.step(true), StopStep::Done);
    assert!(!p.escalated);
}
