//! Hotkey configuration: logical modifiers, key combinations, and the keymap
//! that names the start/stop combinations for recording and playback.

use vstd::prelude::*;
use crate::event::Key;

verus! {

/// The code the host's key mapping assigns to the digit-row 1 key
/// (the ASCII code of the digit).
pub const KEY_CODE_NUM1: u32 = 49;

/// The code the host's key mapping assigns to the digit-row 2 key
/// (the ASCII code of the digit).
pub const KEY_CODE_NUM2: u32 = 50;

/// A logical modifier. The left/right physical variants of each modifier key
/// collapse to one of these.
#[derive(Clone, Copy, Debug, PartialEq, Eq, Structural)]
pub enum Modifier {
    Cmd,
    Alt,
    Ctrl,
    Shift,
}

/// A hotkey: a set of required modifiers plus exactly one trigger key.
/// The combination is satisfied while every listed modifier is held; the
/// press of the trigger key is the edge that fires the action.
#[derive(Clone, Debug)]
pub struct KeyCombo {
    pub modifiers: Vec<Modifier>,
    pub trigger: Key,
}

/// The four configured hotkey combinations.
#[derive(Clone, Debug)]
pub struct KeyMaps {
    pub start_recording: KeyCombo,
    pub stop_recording: KeyCombo,
    pub start_playback: KeyCombo,
    pub stop_playback: KeyCombo,
}

/// The default combination gating recording: Cmd+Shift plus the digit-1 key.
pub open spec fn default_recording_combo(c: KeyCombo) -> bool {
    &&& c.modifiers@ == seq![Modifier::Cmd, Modifier::Shift]
    &&& c.trigger == Key::Other(KEY_CODE_NUM1)
}

/// The default combination gating playback: Cmd+Shift plus the digit-2 key.
pub open spec fn default_playback_combo(c: KeyCombo) -> bool {
    &&& c.modifiers@ == seq![Modifier::Cmd, Modifier::Shift]
    &&& c.trigger == Key::Other(KEY_CODE_NUM2)
}

impl Default for KeyMaps {
    /// The defaults used when no configuration is found: Cmd+Shift+1 both
    /// starts and stops recording, Cmd+Shift+2 both starts and stops playback.
    fn default() -> (r: Self)
        ensures
            default_recording_combo(r.start_recording),
            default_recording_combo(r.stop_recording),
            default_playback_combo(r.start_playback),
            default_playback_combo(r.stop_playback),
    {
        let mut m1: Vec<Modifier> = Vec::new();
        m1.push(Modifier::Cmd);
        m1.push(Modifier::Shift);
        let mut m2: Vec<Modifier> = Vec::new();
        m2.push(Modifier::Cmd);
        m2.push(Modifier::Shift);
        let mut m3: Vec<Modifier> = Vec::new();
        m3.push(Modifier::Cmd);
        m3.push(Modifier::Shift);
        let mut m4: Vec<Modifier> = Vec::new();
        m4.push(Modifier::Cmd);
        m4.push(Modifier::Shift);
        proof {
            assert(m1@ =~= seq![Modifier::Cmd, Modifier::Shift]);
            assert(m2@ =~= seq![Modifier::Cmd, Modifier::Shift]);
            assert(m3@ =~= seq![Modifier::Cmd, Modifier::Shift]);
            assert(m4@ =~= seq![Modifier::Cmd, Modifier::Shift]);
        }
        KeyMaps {
            start_recording: KeyCombo { modifiers: m1, trigger: Key::Other(KEY_CODE_NUM1) },
            stop_recording: KeyCombo { modifiers: m2, trigger: Key::Other(KEY_CODE_NUM1) },
            start_playback: KeyCombo { modifiers: m3, trigger: Key::Other(KEY_CODE_NUM2) },
            stop_playback: KeyCombo { modifiers: m4, trigger: Key::Other(KEY_CODE_NUM2) },
        }
    }
}

} // verus!
