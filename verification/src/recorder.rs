//! The recording state machine.
//!
//! A recorder worker feeds every event of the live input stream through
//! [`RecorderState::handle_event`], together with a monotonic timestamp. The
//! machine tracks modifier state, reacts to the configured start/stop hotkeys
//! through one edge latch per combination — so a held-down hotkey acts once
//! per physical press, however many repeated press events the host delivers,
//! and re-arms on the trigger key's release — and while recording converts
//! each observed event into a stored event whose delay is the time elapsed
//! since the previous stored event. Hotkey presses themselves are never
//! appended. The returned action tells the host what to do: persist the
//! grown buffer, or persist and exit.

use vstd::prelude::*;
use crate::config::KeyMaps;
use crate::event::{SerializableEvent, SerializableEventType};
use crate::hotkey::{hotkey_press, latch_fires, latch_next, observe_spec, ModifierState,
    TriggerLatch};

verus! {

/// What the host must do after one observed event.
///
/// `Started`: the start hotkey fired; the buffer was cleared and the delay
/// clock reset, and the hotkey event itself was discarded. `Recorded`: the
/// event was appended; a durability-minded host persists the buffer now.
/// `StopRequested`: the stop hotkey fired; the host persists the buffer and
/// exits. `Ignored`: nothing to do (not recording, a bare modifier change,
/// or a hotkey press that is discarded rather than captured).
#[derive(Clone, Copy, Debug, PartialEq, Eq, Structural)]
pub enum RecorderAction {
    Ignored,
    Started,
    Recorded,
    StopRequested,
}

/// One recording session: the live modifier state, the per-hotkey edge
/// latches, the accumulated sequence, and the delay clock (the timestamp of
/// the previous stored event, or of entering the recording state).
#[derive(Debug)]
pub struct RecorderState {
    pub is_recording: bool,
    pub mods: ModifierState,
    pub start_latch: TriggerLatch,
    pub stop_latch: TriggerLatch,
    pub events: Vec<SerializableEvent>,
    pub last_time_ms: u64,
}

/// The start hotkey's edge: a press of the start trigger with its modifiers
/// held (as of this event), the start latch still armed, while not yet
/// recording.
pub open spec fn start_edge(st: RecorderState, km: KeyMaps, et: SerializableEventType) -> bool {
    &&& latch_fires(st.start_latch, km.start_recording, observe_spec(st.mods, et), et)
    &&& !st.is_recording
}

/// The stop hotkey's edge: a press of the stop trigger with its modifiers
/// held (as of this event), the stop latch still armed, while recording.
pub open spec fn stop_edge(st: RecorderState, km: KeyMaps, et: SerializableEventType) -> bool {
    &&& latch_fires(st.stop_latch, km.stop_recording, observe_spec(st.mods, et), et)
    &&& st.is_recording
}

/// The event is a press of either control hotkey (with its modifiers held).
/// Such presses are never captured, edge or repeat alike.
pub open spec fn control_hotkey_press(
    st: RecorderState,
    km: KeyMaps,
    et: SerializableEventType,
) -> bool {
    ||| hotkey_press(km.start_recording, observe_spec(st.mods, et), et)
    ||| hotkey_press(km.stop_recording, observe_spec(st.mods, et), et)
}

/// The action one event provokes. The two edges cannot both hold (one needs
/// the machine recording, the other not); a hotkey press that is no edge —
/// a key-repeat while the latch is set, or the wrong recording state — is
/// discarded; any other event is recorded while recording and ignored
/// otherwise.
pub open spec fn recorder_action_spec(
    st: RecorderState,
    km: KeyMaps,
    et: SerializableEventType,
) -> RecorderAction {
    if start_edge(st, km, et) {
        RecorderAction::Started
    } else if stop_edge(st, km, et) {
        RecorderAction::StopRequested
    } else if control_hotkey_press(st, km, et) {
        RecorderAction::Ignored
    } else if st.is_recording {
        RecorderAction::Recorded
    } else {
        RecorderAction::Ignored
    }
}

/// The delay stored with an event: time since the previous stored event,
/// clamped at zero should the clock ever step backwards.
pub open spec fn delay_spec(st: RecorderState, now_ms: u64) -> u64 {
    if now_ms >= st.last_time_ms {
        (now_ms - st.last_time_ms) as u64
    } else {
        0u64
    }
}

/// The buffer after one event: cleared on the start edge, extended by the
/// timestamped event while recording, otherwise unchanged.
pub open spec fn events_after(
    st: RecorderState,
    km: KeyMaps,
    et: SerializableEventType,
    now_ms: u64,
) -> Seq<SerializableEvent> {
    match recorder_action_spec(st, km, et) {
        RecorderAction::Started => Seq::empty(),
        RecorderAction::Recorded => st.events@.push(
            SerializableEvent { event_type: et, delay_ms: delay_spec(st, now_ms) },
        ),
        _ => st.events@,
    }
}

/// Whether the machine records after one event.
pub open spec fn recording_after(st: RecorderState, km: KeyMaps, et: SerializableEventType) -> bool {
    match recorder_action_spec(st, km, et) {
        RecorderAction::Started => true,
        RecorderAction::StopRequested => false,
        _ => st.is_recording,
    }
}

/// The delay clock after one event: reset to `now_ms` whenever the event
/// started the recording or was stored, otherwise unchanged.
pub open spec fn last_time_after(
    st: RecorderState,
    km: KeyMaps,
    et: SerializableEventType,
    now_ms: u64,
) -> u64 {
    match recorder_action_spec(st, km, et) {
        RecorderAction::Started => now_ms,
        RecorderAction::Recorded => now_ms,
        _ => st.last_time_ms,
    }
}

/// The start hotkey's latch after one event: set when its hotkey press
/// arrives armed, re-armed on the trigger key's release.
pub open spec fn start_latch_after(
    st: RecorderState,
    km: KeyMaps,
    et: SerializableEventType,
) -> TriggerLatch {
    latch_next(st.start_latch, km.start_recording, observe_spec(st.mods, et), et)
}

/// The stop hotkey's latch after one event, by the same rule.
pub open spec fn stop_latch_after(
    st: RecorderState,
    km: KeyMaps,
    et: SerializableEventType,
) -> TriggerLatch {
    latch_next(st.stop_latch, km.stop_recording, observe_spec(st.mods, et), et)
}

impl RecorderState {
    /// A fresh machine: not recording, nothing captured, no modifier held,
    /// both latches armed.
    pub fn new() -> (r: Self)
        ensures
            !r.is_recording,
            r.events@ == Seq::<SerializableEvent>::empty(),
            r.mods == (ModifierState { cmd: false, alt: false, ctrl: false, shift: false }),
            !r.start_latch.fired,
            !r.stop_latch.fired,
            r.last_time_ms == 0u64,
    {
        RecorderState {
            is_recording: false,
            mods: ModifierState::new(),
            start_latch: TriggerLatch::new(),
            stop_latch: TriggerLatch::new(),
            events: Vec::new(),
            last_time_ms: 0,
        }
    }

    /// A machine at listener startup. With `immediate` set it begins directly
    /// in the recording state (a supervisor already decided recording should
    /// start); otherwise it waits, armed, for the start hotkey. The delay
    /// clock starts at `now_ms`.
    pub fn start(immediate: bool, now_ms: u64) -> (r: Self)
        ensures
            r.is_recording == immediate,
            r.events@ == Seq::<SerializableEvent>::empty(),
            r.mods == (ModifierState { cmd: false, alt: false, ctrl: false, shift: false }),
            !r.start_latch.fired,
            !r.stop_latch.fired,
            r.last_time_ms == now_ms,
    {
        RecorderState {
            is_recording: immediate,
            mods: ModifierState::new(),
            start_latch: TriggerLatch::new(),
            stop_latch: TriggerLatch::new(),
            events: Vec::new(),
            last_time_ms: now_ms,
        }
    }

    /// Feeds one observed event through the machine. `now_ms` is the
    /// monotonic timestamp of the event. The modifier state and both latches
    /// are always updated; the returned action and the new buffer, recording
    /// flag and delay clock are exactly the specified ones.
    pub fn handle_event(&mut self, km: &KeyMaps, et: SerializableEventType, now_ms: u64) -> (a:
        RecorderAction)
        ensures
            a == recorder_action_spec(*old(self), *km, et),
            final(self).mods == observe_spec(old(self).mods, et),
            final(self).start_latch == start_latch_after(*old(self), *km, et),
            final(self).stop_latch == stop_latch_after(*old(self), *km, et),
            final(self).is_recording == recording_after(*old(self), *km, et),
            final(self).events@ == events_after(*old(self), *km, et, now_ms),
            final(self).last_time_ms == last_time_after(*old(self), *km, et, now_ms),
    {
        self.mods.observe(et);
        let mods = self.mods;
        let start_fired = self.start_latch.on_event(&km.start_recording, &mods, et);
        let stop_fired = self.stop_latch.on_event(&km.stop_recording, &mods, et);

        if start_fired && !self.is_recording {
            self.is_recording = true;
            self.events.clear();
            self.last_time_ms = now_ms;
            return RecorderAction::Started;
        }
        if stop_fired && self.is_recording {
            self.is_recording = false;
            return RecorderAction::StopRequested;
        }
        // A hotkey press that fired no edge — a latched key-repeat, or the
        // wrong recording state — is discarded, never captured.
        if let SerializableEventType::KeyPress(k) = et {
            let start_press = k == km.start_recording.trigger && mods.matches_combo(
                &km.start_recording,
            );
            let stop_press = k == km.stop_recording.trigger && mods.matches_combo(
                &km.stop_recording,
            );
            if start_press || stop_press {
                return RecorderAction::Ignored;
            }
        }
        if self.is_recording {
            let delay = if now_ms >= self.last_time_ms {
                now_ms - self.last_time_ms
            } else {
                0
            };
            self.last_time_ms = now_ms;
            self.events.push(SerializableEvent { event_type: et, delay_ms: delay });
            RecorderAction::Recorded
        } else {
            RecorderAction::Ignored
        }
    }

    /// The graceful-termination rule: on an external termination request the
    /// host persists the captured sequence exactly when the machine is
    /// recording, then exits.
    pub fn should_persist_on_termination(&self) -> (r: bool)
        ensures
            r == self.is_recording,
    {
        self.is_recording
    }
}

/// The recorder's edge-once law for a held hotkey: once a press has started
/// the recording, the machine carries the stop latch forward set (the start
/// and stop combinations being one and the same, as in the default keymaps),
/// so whatever event arrives next — a key-repeated press of the held hotkey
/// included, and whatever became of the modifiers — it neither stops nor
/// restarts the recording. Stopping takes a release of the trigger first.
pub proof fn lemma_held_hotkey_repeat_is_inert(
    st: RecorderState,
    st2: RecorderState,
    km: KeyMaps,
    et: SerializableEventType,
    et2: SerializableEventType,
)
    requires
        km.stop_recording.trigger == km.start_recording.trigger,
        km.stop_recording.modifiers@ == km.start_recording.modifiers@,
        recorder_action_spec(st, km, et) == RecorderAction::Started,
        st2.is_recording == recording_after(st, km, et),
        st2.stop_latch == stop_latch_after(st, km, et),
    ensures
        recorder_action_spec(st2, km, et2) != RecorderAction::Started,
        recorder_action_spec(st2, km, et2) != RecorderAction::StopRequested,
{
    assert(hotkey_press(km.stop_recording, observe_spec(st.mods, et), et));
    assert(st2.stop_latch.fired);
    assert(st2.is_recording);
}

/// An empty capture typically means the host lacks input-capture permission:
/// the sequence is persisted all the same, and the host surfaces a warning.
pub fn needs_permission_warning(events: &Vec<SerializableEvent>) -> (r: bool)
    ensures
        r == (events@.len() == 0),
{
    events.len() == 0
}

} // verus!
