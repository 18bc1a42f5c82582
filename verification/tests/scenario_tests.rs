//! End-to-end scenarios: a capture flows through the recorder, the codec's
//! persisted form, and back into the player.

use macro_lib::codec::{decode, encode};
use macro_lib::config::KeyMaps;
use macro_lib::event::{Key, SerializableEventType};
use macro_lib::player::{PlaybackConfig, Player, PlayerAction};
use macro_lib::recorder::RecorderState;

#[test]
fn record_persist_load_play_round_trip() {
    // Record a press and, 50 ms later, a release.
    let km = KeyMaps::default();
    let mut rec = RecorderState::start(true, 0);
    let press = SerializableEventType::KeyPress(Key::Other(65));
    let release = SerializableEventType::KeyRelease(Key::Other(65));
    rec.handle_event(&km, press, 0);
    rec.handle_event(&km, release, 50);

    // Persist and reload the capture byte-for-byte.
    let file_contents = encode(&rec.events);
    let loaded = decode(&file_contents).expect("the persisted capture must load");
    assert_eq!(loaded, rec.events);

    // Play the loaded capture at recorded speed, one pass: the press goes out
    // immediately, the release after its 50 ms delay, then completion.
    let config = PlaybackConfig { speed_milli: 1000, repeat_count: 1, interval_ms: 0 };
    let mut player = Player::new(loaded, config);
    match player.step(false) {
        PlayerAction::Emit { wait_ms, event } => {
            assert_eq!(wait_ms, 0);
            assert_eq!(event.event_type, press);
        }
        other => panic!("expected the press, got {:?}", other),
    }
    match player.step(false) {
        PlayerAction::Emit { wait_ms, event } => {
            assert_eq!(wait_ms, 50);
            assert_eq!(event.event_type, release);
        }
        other => panic!("expected the release, got {:?}", other),
    }
    assert_eq!(player.step(false), PlayerAction::Finished { cancelled: false });
}

#[test]
fn hotkey_started_capture_plays_back_scaled() {
    // Arm the recorder, start it by hotkey, capture two waits, stop by
    // hotkey, and replay everything at double speed.
    let km = KeyMaps::default();
    let mut rec = RecorderState::start(false, 0);
    rec.handle_event(&km, SerializableEventType::KeyPress(Key::MetaLeft), 1);
    rec.handle_event(&km, SerializableEventType::KeyPress(Key::ShiftLeft), 2);
    rec.handle_event(&km, SerializableEventType::KeyPress(Key::Other(49)), 3);
    assert!(rec.is_recording);
    // Releasing the trigger re-arms the hotkey and is captured like any
    // other input.
    rec.handle_event(&km, SerializableEventType::KeyRelease(Key::Other(49)), 3);
    rec.handle_event(&km, SerializableEventType::KeyPress(Key::Other(66)), 103);
    rec.handle_event(&km, SerializableEventType::KeyRelease(Key::Other(66)), 303);
    // Release the hotkey modifiers mid-capture; they are recorded like any
    // other events.
    rec.handle_event(&km, SerializableEventType::KeyRelease(Key::MetaLeft), 303);
    rec.handle_event(&km, SerializableEventType::KeyRelease(Key::ShiftLeft), 304);
    rec.handle_event(&km, SerializableEventType::KeyPress(Key::MetaLeft), 400);
    rec.handle_event(&km, SerializableEventType::KeyPress(Key::ShiftLeft), 401);
    rec.handle_event(&km, SerializableEventType::KeyPress(Key::Other(49)), 402);
    assert!(!rec.is_recording);

    let loaded = decode(&encode(&rec.events)).unwrap();
    let config = PlaybackConfig { speed_milli: 2000, repeat_count: 1, interval_ms: 0 };
    let mut player = Player::new(loaded, config);
    let mut waits = Vec::new();
    loop {
        match player.step(false) {
            PlayerAction::Emit { wait_ms, .. } => waits.push(wait_ms),
            PlayerAction::Finished { cancelled } => {
                assert!(!cancelled);
                break;
            }
            other => panic!("unexpected action {:?}", other),
        }
    }
    // Recorded delays 0, 100, 200, 0, 1, 96, 1 at double speed.
    assert_eq!(waits, vec![0, 50, 100, 0, 0, 48, 0]);
}
