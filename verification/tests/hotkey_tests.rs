use macro_lib::config::{KeyCombo, Modifier};
use macro_lib::event::{Key, SerializableEventType};
use macro_lib::hotkey::{ModifierState, TriggerLatch};

fn cmd_shift_combo(trigger: Key) -> KeyCombo {
    KeyCombo { modifiers: vec![Modifier::Cmd, Modifier::Shift], trigger }
}

#[test]
fn left_and_right_variants_collapse() {
    let mut mods = ModifierState::new();
    mods.observe(SerializableEventType::KeyPress(Key::MetaLeft));
    assert!(mods.cmd);
    mods.observe(SerializableEventType::KeyPress(Key::MetaRight));
    assert!(mods.cmd);
    mods.observe(SerializableEventType::KeyRelease(Key::MetaRight));
    assert!(!mods.cmd);
    mods.observe(SerializableEventType::KeyPress(Key::AltGr));
    assert!(mods.alt);
    mods.observe(SerializableEventType::KeyRelease(Key::Alt));
    assert!(!mods.alt);
}

#[test]
fn unmatched_release_is_tolerated() {
    let mut mods = ModifierState::new();
    mods.observe(SerializableEventType::KeyRelease(Key::ControlRight));
    assert!(!mods.ctrl);
    assert!(!mods.cmd && !mods.alt && !mods.shift);
}

#[test]
fn non_modifier_keys_leave_state_alone() {
    let mut mods = ModifierState::new();
    mods.observe(SerializableEventType::KeyPress(Key::ShiftLeft));
    mods.observe(SerializableEventType::KeyPress(Key::Other(42)));
    mods.observe(SerializableEventType::KeyRelease(Key::Other(42)));
    assert!(mods.shift);
    assert!(!mods.cmd && !mods.alt && !mods.ctrl);
}

#[test]
fn combo_matches_only_with_all_modifiers() {
    let combo = cmd_shift_combo(Key::Other(49));
    let mut mods = ModifierState::new();
    assert!(!mods.matches_combo(&combo));
    mods.observe(SerializableEventType::KeyPress(Key::MetaLeft));
    assert!(!mods.matches_combo(&combo));
    mods.observe(SerializableEventType::KeyPress(Key::ShiftLeft));
    assert!(mods.matches_combo(&combo));
    // Extra held modifiers do not hurt.
    mods.observe(SerializableEventType::KeyPress(Key::Alt));
    assert!(mods.matches_combo(&combo));
}

#[test]
fn empty_modifier_list_always_matches() {
    let combo = KeyCombo { modifiers: vec![], trigger: Key::Other(1) };
    let mods = ModifierState::new();
    assert!(mods.matches_combo(&combo));
}

#[test]
fn held_trigger_fires_exactly_once() {
    let combo = cmd_shift_combo(Key::Other(49));
    let mut mods = ModifierState::new();
    mods.observe(SerializableEventType::KeyPress(Key::MetaLeft));
    mods.observe(SerializableEventType::KeyPress(Key::ShiftLeft));

    let mut latch = TriggerLatch::new();
    let press = SerializableEventType::KeyPress(combo.trigger);
    // The OS re-delivers the press while the key is held down.
    assert!(latch.on_event(&combo, &mods, press));
    assert!(!latch.on_event(&combo, &mods, press));
    assert!(!latch.on_event(&combo, &mods, press));
}

#[test]
fn trigger_release_rearms_the_latch() {
    let combo = cmd_shift_combo(Key::Other(49));
    let mut mods = ModifierState::new();
    mods.observe(SerializableEventType::KeyPress(Key::MetaLeft));
    mods.observe(SerializableEventType::KeyPress(Key::ShiftLeft));

    let mut latch = TriggerLatch::new();
    let press = SerializableEventType::KeyPress(combo.trigger);
    let release = SerializableEventType::KeyRelease(combo.trigger);
    assert!(latch.on_event(&combo, &mods, press));
    assert!(!latch.on_event(&combo, &mods, press));
    assert!(!latch.on_event(&combo, &mods, release));
    assert!(latch.on_event(&combo, &mods, press));
}

#[test]
fn trigger_without_modifiers_does_not_fire() {
    let combo = cmd_shift_combo(Key::Other(49));
    let mods = ModifierState::new();
    let mut latch = TriggerLatch::new();
    assert!(!latch.on_event(&combo, &mods, SerializableEventType::KeyPress(combo.trigger)));
}

#[test]
fn other_keys_do_not_fire_or_rearm() {
    let combo = cmd_shift_combo(Key::Other(49));
    let mut mods = ModifierState::new();
    mods.observe(SerializableEventType::KeyPress(Key::MetaLeft));
    mods.observe(SerializableEventType::KeyPress(Key::ShiftLeft));
    let mut latch = TriggerLatch::new();
    assert!(latch.on_event(&combo, &mods, SerializableEventType::KeyPress(combo.trigger)));
    // A different key's release does not re-arm the latch.
    assert!(!latch.on_event(&combo, &mods, SerializableEventType::KeyRelease(Key::Other(50))));
    assert!(!latch.on_event(&combo, &mods, SerializableEventType::KeyPress(combo.trigger)));
}
