//! The event data model: one captured keyboard/mouse action together with the
//! time elapsed since the previous event of the same sequence.
//!
//! Keys and buttons are the library's own vocabulary. The eight physical
//! modifier keys are named variants, because the hotkey tracker reads them;
//! every other key carries a numeric code assigned by the host's key mapping.
//! Pointer coordinates are carried as the bit patterns of the host's
//! double-precision values, so a recording round-trips without precision loss.

use vstd::prelude::*;

verus! {

/// A keyboard key. The eight modifier variants mirror the left/right physical
/// modifier keys; `Other` is any further key, under a host-assigned code.
#[derive(Clone, Copy, Debug, PartialEq, Eq, Structural)]
pub enum Key {
    MetaLeft,
    MetaRight,
    Alt,
    AltGr,
    ControlLeft,
    ControlRight,
    ShiftLeft,
    ShiftRight,
    Other(u32),
}

/// A pointer button.
#[derive(Clone, Copy, Debug, PartialEq, Eq, Structural)]
pub enum Button {
    Left,
    Right,
    Middle,
    Other(u8),
}

/// One input action, without its delay. Pointer coordinates are the raw bit
/// patterns of the host's double-precision values (`x_bits`, `y_bits`), kept
/// exactly as captured.
#[derive(Clone, Copy, Debug, PartialEq, Eq, Structural)]
pub enum SerializableEventType {
    KeyPress(Key),
    KeyRelease(Key),
    ButtonPress(Button),
    ButtonRelease(Button),
    MouseMove { x_bits: u64, y_bits: u64 },
    Wheel { delta_x: i64, delta_y: i64 },
}

/// One event of a recording: an action plus the milliseconds elapsed since
/// the previous stored event (for the first event, since recording began).
#[derive(Clone, Copy, Debug, PartialEq, Eq, Structural)]
pub struct SerializableEvent {
    pub event_type: SerializableEventType,
    pub delay_ms: u64,
}

} // verus!
