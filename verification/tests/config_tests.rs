use macro_lib::config::{KeyMaps, Modifier, KEY_CODE_NUM1, KEY_CODE_NUM2};
use macro_lib::event::Key;
use macro_lib::MacroError;

#[test]
fn default_keymaps_use_cmd_shift_digits() {
    let km = KeyMaps::default();
    assert_eq!(km.start_recording.modifiers, vec![Modifier::Cmd, Modifier::Shift]);
    assert_eq!(km.start_recording.trigger, Key::Other(KEY_CODE_NUM1));
    assert_eq!(km.stop_recording.modifiers, vec![Modifier::Cmd, Modifier::Shift]);
    assert_eq!(km.stop_recording.trigger, Key::Other(KEY_CODE_NUM1));
    assert_eq!(km.start_playback.modifiers, vec![Modifier::Cmd, Modifier::Shift]);
    assert_eq!(km.start_playback.trigger, Key::Other(KEY_CODE_NUM2));
    assert_eq!(km.stop_playback.modifiers, vec![Modifier::Cmd, Modifier::Shift]);
    assert_eq!(km.stop_playback.trigger, Key::Other(KEY_CODE_NUM2));
}

#[test]
fn errors_describe_themselves() {
    let all = [
        MacroError::HookUnavailable,
        MacroError::MalformedRecording,
        MacroError::IoFailure,
        MacroError::ConflictError,
        MacroError::EmitFailure,
        MacroError::ProcessSpawnFailure,
    ];
    for e in all {
        assert!(!e.describe().is_empty());
    }
    assert_eq!(MacroError::MalformedRecording.describe(), "malformed recording");
}
