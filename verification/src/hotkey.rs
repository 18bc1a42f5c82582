//! Live modifier tracking and edge-triggered hotkey detection.
//!
//! [`ModifierState`] follows the four logical modifiers through the live
//! event stream: a press of either physical variant of a modifier key sets
//! the logical modifier, a release clears it, and a release without a
//! matching press is tolerated (the modifier is simply forced false).
//! [`TriggerLatch`] is the per-hotkey de-duplication boolean: the action
//! fires once per physical press of the trigger key, however many repeated
//! press events the host delivers, and re-arms on the trigger's release.

use vstd::prelude::*;
use crate::config::{KeyCombo, Modifier};
use crate::event::{Key, SerializableEventType};

verus! {

/// The logical modifier a key stands for, if any. Left/right physical
/// variants collapse to the same logical modifier.
pub open spec fn modifier_of(k: Key) -> Option<Modifier> {
    match k {
        Key::MetaLeft => Some(Modifier::Cmd),
        Key::MetaRight => Some(Modifier::Cmd),
        Key::Alt => Some(Modifier::Alt),
        Key::AltGr => Some(Modifier::Alt),
        Key::ControlLeft => Some(Modifier::Ctrl),
        Key::ControlRight => Some(Modifier::Ctrl),
        Key::ShiftLeft => Some(Modifier::Shift),
        Key::ShiftRight => Some(Modifier::Shift),
        Key::Other(_) => None,
    }
}

/// The modifier a key stands for, executably.
pub fn modifier_key(k: Key) -> (r: Option<Modifier>)
    ensures
        r == modifier_of(k),
{
    match k {
        Key::MetaLeft | Key::MetaRight => Some(Modifier::Cmd),
        Key::Alt | Key::AltGr => Some(Modifier::Alt),
        Key::ControlLeft | Key::ControlRight => Some(Modifier::Ctrl),
        Key::ShiftLeft | Key::ShiftRight => Some(Modifier::Shift),
        Key::Other(_) => None,
    }
}

/// The four logical modifiers that are currently held.
#[derive(Clone, Copy, Debug, PartialEq, Eq, Structural)]
pub struct ModifierState {
    pub cmd: bool,
    pub alt: bool,
    pub ctrl: bool,
    pub shift: bool,
}

/// Whether the given logical modifier is held in `s`.
pub open spec fn holds_modifier(s: ModifierState, m: Modifier) -> bool {
    match m {
        Modifier::Cmd => s.cmd,
        Modifier::Alt => s.alt,
        Modifier::Ctrl => s.ctrl,
        Modifier::Shift => s.shift,
    }
}

/// `s` with one logical modifier set to `v`.
pub open spec fn set_modifier(s: ModifierState, m: Modifier, v: bool) -> ModifierState {
    match m {
        Modifier::Cmd => ModifierState { cmd: v, ..s },
        Modifier::Alt => ModifierState { alt: v, ..s },
        Modifier::Ctrl => ModifierState { ctrl: v, ..s },
        Modifier::Shift => ModifierState { shift: v, ..s },
    }
}

/// The modifier state after observing one event: a press of a modifier key
/// sets its logical modifier, a release clears it, anything else changes
/// nothing.
pub open spec fn observe_spec(s: ModifierState, et: SerializableEventType) -> ModifierState {
    match et {
        SerializableEventType::KeyPress(k) => match modifier_of(k) {
            Some(m) => set_modifier(s, m, true),
            None => s,
        },
        SerializableEventType::KeyRelease(k) => match modifier_of(k) {
            Some(m) => set_modifier(s, m, false),
            None => s,
        },
        _ => s,
    }
}

/// All modifiers of the combination are currently held.
pub open spec fn satisfies(s: ModifierState, mods: Seq<Modifier>) -> bool {
    forall|i: int| 0 <= i < mods.len() ==> holds_modifier(s, mods[i])
}

impl ModifierState {
    /// No modifier held; the state a listener starts from.
    pub fn new() -> (r: Self)
        ensures
            r == (ModifierState { cmd: false, alt: false, ctrl: false, shift: false }),
    {
        ModifierState { cmd: false, alt: false, ctrl: false, shift: false }
    }

    /// Updates the state from one observed event. The tracker never fails:
    /// an unmatched release merely forces the modifier false.
    pub fn observe(&mut self, et: SerializableEventType)
        ensures
            *final(self) == observe_spec(*old(self), et),
    {
        match et {
            SerializableEventType::KeyPress(k) => {
                match modifier_key(k) {
                    Some(Modifier::Cmd) => self.cmd = true,
                    Some(Modifier::Alt) => self.alt = true,
                    Some(Modifier::Ctrl) => self.ctrl = true,
                    Some(Modifier::Shift) => self.shift = true,
                    None => {},
                }
            },
            SerializableEventType::KeyRelease(k) => {
                match modifier_key(k) {
                    Some(Modifier::Cmd) => self.cmd = false,
                    Some(Modifier::Alt) => self.alt = false,
                    Some(Modifier::Ctrl) => self.ctrl = false,
                    Some(Modifier::Shift) => self.shift = false,
                    None => {},
                }
            },
            _ => {},
        }
    }

    /// True iff every modifier the combination requires is currently held.
    /// A pure read; the state is not changed.
    pub fn matches_combo(&self, combo: &KeyCombo) -> (r: bool)
        ensures
            r == satisfies(*self, combo.modifiers@),
    {
        let mut i: usize = 0;
        while i < combo.modifiers.len()
            invariant
                i <= combo.modifiers@.len(),
                forall|j: int| 0 <= j < i ==> holds_modifier(*self, combo.modifiers@[j]),
            decreases combo.modifiers@.len() - i,
        {
            let held = match combo.modifiers[i] {
                Modifier::Cmd => self.cmd,
                Modifier::Alt => self.alt,
                Modifier::Ctrl => self.ctrl,
                Modifier::Shift => self.shift,
            };
            if !held {
                return false;
            }
            i = i + 1;
        }
        true
    }
}

/// The caller-owned de-duplication state of one hotkey: whether the previous
/// press of the trigger already fired the action.
#[derive(Clone, Copy, Debug, PartialEq, Eq, Structural)]
pub struct TriggerLatch {
    pub fired: bool,
}

/// The event is a hotkey press: a press of the combination's trigger key
/// with every required modifier held.
pub open spec fn hotkey_press(combo: KeyCombo, mods: ModifierState, et: SerializableEventType) -> bool {
    &&& et matches SerializableEventType::KeyPress(k)
    &&& k == combo.trigger
    &&& satisfies(mods, combo.modifiers@)
}

/// The trigger fires: the event is a hotkey press and the latch has not
/// fired yet.
pub open spec fn latch_fires(
    l: TriggerLatch,
    combo: KeyCombo,
    mods: ModifierState,
    et: SerializableEventType,
) -> bool {
    hotkey_press(combo, mods, et) && !l.fired
}

/// The latch after one event: set when the trigger fires, re-armed on the
/// trigger key's release, otherwise unchanged.
pub open spec fn latch_next(
    l: TriggerLatch,
    combo: KeyCombo,
    mods: ModifierState,
    et: SerializableEventType,
) -> TriggerLatch {
    if latch_fires(l, combo, mods, et) {
        TriggerLatch { fired: true }
    } else if et matches SerializableEventType::KeyRelease(k) && k == combo.trigger {
        TriggerLatch { fired: false }
    } else {
        l
    }
}

impl TriggerLatch {
    /// A fresh latch, armed.
    pub fn new() -> (r: Self)
        ensures
            !r.fired,
    {
        TriggerLatch { fired: false }
    }

    /// Feeds one event through the latch. `mods` is the modifier state after
    /// the event was observed. Returns whether the hotkey's action fires.
    pub fn on_event(
        &mut self,
        combo: &KeyCombo,
        mods: &ModifierState,
        et: SerializableEventType,
    ) -> (fired: bool)
        ensures
            fired == latch_fires(*old(self), *combo, *mods, et),
            *final(self) == latch_next(*old(self), *combo, *mods, et),
    {
        match et {
            SerializableEventType::KeyPress(k) => {
                if k == combo.trigger && mods.matches_combo(combo) && !self.fired {
                    self.fired = true;
                    true
                } else {
                    false
                }
            },
            SerializableEventType::KeyRelease(k) => {
                if k == combo.trigger {
                    self.fired = false;
                }
                false
            },
            _ => false,
        }
    }
}

/// Folds a run of repeated presses of the trigger key (no intervening
/// release) through the latch: the final latch and how many presses fired.
/// `mods` gives the modifier state at each press.
pub open spec fn run_trigger_presses(
    l: TriggerLatch,
    combo: KeyCombo,
    mods: Seq<ModifierState>,
) -> (TriggerLatch, nat)
    decreases mods.len(),
{
    if mods.len() == 0 {
        (l, 0nat)
    } else {
        let et = SerializableEventType::KeyPress(combo.trigger);
        let f = latch_fires(l, combo, mods[0], et);
        let l2 = latch_next(l, combo, mods[0], et);
        let rest = run_trigger_presses(l2, combo, mods.skip(1));
        (rest.0, rest.1 + if f {
            1nat
        } else {
            0nat
        })
    }
}

/// The edge-once law: holding the trigger key down — a run of repeated press
/// events with no intervening release — fires the bound action at most once,
/// and not at all if the latch was already set.
pub proof fn lemma_edge_once(l: TriggerLatch, combo: KeyCombo, mods: Seq<ModifierState>)
    ensures
        run_trigger_presses(l, combo, mods).1 <= 1,
        l.fired ==> run_trigger_presses(l, combo, mods).1 == 0,
    decreases mods.len(),
{
    if mods.len() == 0 {
    } else {
        let et = SerializableEventType::KeyPress(combo.trigger);
        let l2 = latch_next(l, combo, mods[0], et);
        lemma_edge_once(l2, combo, mods.skip(1));
    }
}

/// The complementary direction of the edge-once law: if the latch is armed
/// and the required modifiers are held at every press, a non-empty run of
/// repeated presses fires exactly once — on its first press.
pub proof fn lemma_edge_fires_once(l: TriggerLatch, combo: KeyCombo, mods: Seq<ModifierState>)
    requires
        !l.fired,
        mods.len() >= 1,
        forall|i: int| 0 <= i < mods.len() ==> satisfies(mods[i], combo.modifiers@),
    ensures
        run_trigger_presses(l, combo, mods).1 == 1,
{
    let et = SerializableEventType::KeyPress(combo.trigger);
    let l2 = latch_next(l, combo, mods[0], et);
    assert(latch_fires(l, combo, mods[0], et));
    assert(l2.fired);
    lemma_edge_once(l2, combo, mods.skip(1));
}

} // verus!
