//! The playback engine.
//!
//! Playback is a step machine: the host calls [`Player::step`] in a loop with
//! the current value of the cancel flag, performs the returned action (sleep
//! then inject an event, sleep a short interval chunk, or finish), and stops
//! at [`PlayerAction::Finished`]. All timing decisions are made here: each
//! event's effective wait is its recorded delay divided by the speed
//! multiplier, truncated toward zero; `repeat_count == 0` repeats forever;
//! between passes the configured interval is waited in short chunks so that
//! cancellation is honoured within one polling interval; and a set cancel
//! flag finishes playback before the next emission, never mid-pass beyond it.
//!
//! Speed is a thousandths multiplier: `1000` plays at recorded speed, `2000`
//! at double speed. The host converts its fractional speed setting once, at
//! the boundary.

use vstd::prelude::*;
use crate::event::SerializableEvent;

verus! {

/// How a sequence is replayed: speed in thousandths, number of passes
/// (zero meaning infinite), and the wait between passes.
#[derive(Clone, Copy, Debug, PartialEq, Eq, Structural)]
pub struct PlaybackConfig {
    pub speed_milli: u64,
    pub repeat_count: u32,
    pub interval_ms: u64,
}

/// What the host performs next.
///
/// `Emit`: sleep `wait_ms`, then inject `event` (an injection failure is
/// logged and playback continues). `WaitInterval`: sleep one short chunk of
/// the between-pass interval, then step again with the fresh cancel flag.
/// `PassCompleted`: a pass over an empty sequence finished; nothing to
/// inject. `Finished`: playback is over, naturally or by cancellation.
#[derive(Clone, Copy, Debug, PartialEq, Eq, Structural)]
pub enum PlayerAction {
    Emit { wait_ms: u64, event: SerializableEvent },
    WaitInterval { wait_ms: u64 },
    PassCompleted,
    Finished { cancelled: bool },
}

/// The effective wait before an event: `delay_ms` scaled by the thousandths
/// multiplier, truncated toward zero, saturating at the type's maximum.
pub open spec fn scaled_wait(delay_ms: u64, speed_milli: u64) -> u64
    recommends
        speed_milli > 0,
{
    let q = (delay_ms * 1000) / (speed_milli as int);
    if q > u64::MAX {
        u64::MAX
    } else {
        q as u64
    }
}

/// Computes [`scaled_wait`] executably.
pub fn scaled_wait_ms(delay_ms: u64, speed_milli: u64) -> (r: u64)
    requires
        speed_milli > 0,
    ensures
        r == scaled_wait(delay_ms, speed_milli),
{
    let q: u128 = (delay_ms as u128) * 1000 / (speed_milli as u128);
    if q > u64::MAX as u128 {
        u64::MAX
    } else {
        q as u64
    }
}

/// One saturating pass count increment (relevant only to unbounded repeats).
pub open spec fn sat_inc(c: u32) -> u32 {
    if c == u32::MAX {
        c
    } else {
        (c + 1) as u32
    }
}

/// A playback session: the loaded sequence, its configuration, and the
/// position within the run.
#[derive(Debug)]
pub struct Player {
    pub events: Vec<SerializableEvent>,
    pub config: PlaybackConfig,
    /// The next event of the current pass.
    pub idx: usize,
    /// Completed passes.
    pub passes_done: u32,
    /// What remains of the between-pass interval before the current pass.
    pub interval_left_ms: u64,
    pub finished: bool,
}

impl Player {
    /// The machine's invariant: a positive speed, and a position inside the
    /// sequence (or at zero, if the sequence is empty).
    pub open spec fn wf(self) -> bool {
        &&& self.config.speed_milli > 0
        &&& self.events@.len() <= usize::MAX
        &&& if self.events@.len() == 0 {
            self.idx == 0
        } else {
            self.idx < self.events@.len()
        }
    }

    /// A playback session about to begin its first pass.
    pub fn new(events: Vec<SerializableEvent>, config: PlaybackConfig) -> (r: Self)
        requires
            config.speed_milli > 0,
        ensures
            r.wf(),
            r.events == events,
            r.config == config,
            r.idx == 0usize,
            r.passes_done == 0u32,
            r.interval_left_ms == 0u64,
            !r.finished,
    {
        let n = events.len();
        proof {
            assert(n == events@.len());
        }
        Player { events, config, idx: 0, passes_done: 0, interval_left_ms: 0, finished: false }
    }
}

/// The machine's transition: the next state and the host's action, given
/// whether the cancel flag was set. Checks happen in this order: the cancel
/// flag (cancellation wins, nothing further is emitted), the repeat limit,
/// a pending interval wait (in chunks of at most 100 ms), then the emission
/// of the next event; finishing a pass re-arms the interval.
pub open spec fn step_spec(p: Player, cancelled: bool) -> (Player, PlayerAction) {
    if cancelled {
        (Player { finished: true, ..p }, PlayerAction::Finished { cancelled: true })
    } else if p.config.repeat_count > 0 && p.passes_done >= p.config.repeat_count {
        (Player { finished: true, ..p }, PlayerAction::Finished { cancelled: false })
    } else if p.interval_left_ms > 0 {
        let w = if p.interval_left_ms < 50 {
            p.interval_left_ms
        } else {
            50u64
        };
        (
            Player { interval_left_ms: (p.interval_left_ms - w) as u64, ..p },
            PlayerAction::WaitInterval { wait_ms: w },
        )
    } else if p.events@.len() == 0 {
        (
            Player {
                passes_done: sat_inc(p.passes_done),
                interval_left_ms: p.config.interval_ms,
                ..p
            },
            PlayerAction::PassCompleted,
        )
    } else {
        let e = p.events@[p.idx as int];
        let w = scaled_wait(e.delay_ms, p.config.speed_milli);
        if p.idx + 1 == p.events@.len() {
            (
                Player {
                    idx: 0usize,
                    passes_done: sat_inc(p.passes_done),
                    interval_left_ms: p.config.interval_ms,
                    ..p
                },
                PlayerAction::Emit { wait_ms: w, event: e },
            )
        } else {
            (Player { idx: (p.idx + 1) as usize, ..p }, PlayerAction::Emit { wait_ms: w, event: e })
        }
    }
}

impl Player {
    /// Advances the machine by one action. `cancelled` is the cancel flag as
    /// the host last read it; the machine only ever reads that flag.
    pub fn step(&mut self, cancelled: bool) -> (a: PlayerAction)
        requires
            old(self).wf(),
            !old(self).finished,
        ensures
            (*final(self), a) == step_spec(*old(self), cancelled),
            final(self).wf(),
            cancelled ==> a == (PlayerAction::Finished { cancelled: true }),
            a matches PlayerAction::WaitInterval { wait_ms } ==> wait_ms <= 100,
    {
        if cancelled {
            self.finished = true;
            return PlayerAction::Finished { cancelled: true };
        }
        if self.config.repeat_count > 0 && self.passes_done >= self.config.repeat_count {
            self.finished = true;
            return PlayerAction::Finished { cancelled: false };
        }
        if self.interval_left_ms > 0 {
            let w = if self.interval_left_ms < 50 {
                self.interval_left_ms
            } else {
                50
            };
            self.interval_left_ms = self.interval_left_ms - w;
            return PlayerAction::WaitInterval { wait_ms: w };
        }
        if self.events.len() == 0 {
            self.passes_done = if self.passes_done == u32::MAX {
                self.passes_done
            } else {
                self.passes_done + 1
            };
            self.interval_left_ms = self.config.interval_ms;
            return PlayerAction::PassCompleted;
        }
        let e = self.events[self.idx];
        let w = scaled_wait_ms(e.delay_ms, self.config.speed_milli);
        if self.idx + 1 == self.events.len() {
            self.idx = 0;
            self.passes_done = if self.passes_done == u32::MAX {
                self.passes_done
            } else {
                self.passes_done + 1
            };
            self.interval_left_ms = self.config.interval_ms;
        } else {
            self.idx = self.idx + 1;
        }
        PlayerAction::Emit { wait_ms: w, event: e }
    }
}

/// The machine stands at an emission point of a pass: well-formed, not
/// finished, no interval pending, events to play, and passes remaining.
pub open spec fn in_pass(p: Player) -> bool {
    &&& p.wf()
    &&& !p.finished
    &&& p.interval_left_ms == 0
    &&& p.events@.len() > 0
    &&& !(p.config.repeat_count > 0 && p.passes_done >= p.config.repeat_count)
}

/// The actions an uncancelled run takes from `p` to the end of the current
/// pass.
pub open spec fn pass_trace(p: Player) -> Seq<PlayerAction>
    decreases p.events@.len() - p.idx,
{
    if !in_pass(p) {
        Seq::empty()
    } else {
        let a = step_spec(p, false).1;
        let p2 = step_spec(p, false).0;
        if p2.idx == 0 {
            seq![a]
        } else {
            seq![a] + pass_trace(p2)
        }
    }
}

/// The wall-clock wait an action schedules.
pub open spec fn wait_of(a: PlayerAction) -> int {
    match a {
        PlayerAction::Emit { wait_ms, .. } => wait_ms as int,
        PlayerAction::WaitInterval { wait_ms } => wait_ms as int,
        _ => 0,
    }
}

/// The total wall-clock wait a run of actions schedules.
pub open spec fn total_wait(tr: Seq<PlayerAction>) -> int
    decreases tr.len(),
{
    if tr.len() == 0 {
        0
    } else {
        wait_of(tr[0]) + total_wait(tr.skip(1))
    }
}

/// The events a run of actions injects, in order.
pub open spec fn emitted_events(tr: Seq<PlayerAction>) -> Seq<SerializableEvent>
    decreases tr.len(),
{
    if tr.len() == 0 {
        Seq::empty()
    } else {
        let rest = emitted_events(tr.skip(1));
        match tr[0] {
            PlayerAction::Emit { event, .. } => seq![event] + rest,
            _ => rest,
        }
    }
}

/// The sum of the speed-scaled delays of a sequence: what one pass over it
/// must take, by the delay-fidelity law.
pub open spec fn pass_wait_sum(s: Seq<SerializableEvent>, speed_milli: u64) -> int
    decreases s.len(),
{
    if s.len() == 0 {
        0
    } else {
        scaled_wait(s[0].delay_ms, speed_milli) + pass_wait_sum(s.skip(1), speed_milli)
    }
}

/// The delay-fidelity law: an uncancelled pass injects exactly the remaining
/// events of the sequence, in captured order, and the total time it schedules
/// is the sum of the speed-scaled delays — `delay / speed` for each event,
/// each truncated toward zero.
pub proof fn lemma_delay_fidelity(p: Player)
    requires
        in_pass(p),
    ensures
        total_wait(pass_trace(p)) == pass_wait_sum(
            p.events@.skip(p.idx as int),
            p.config.speed_milli,
        ),
        emitted_events(pass_trace(p)) == p.events@.skip(p.idx as int),
    decreases p.events@.len() - p.idx,
{
    let rem = p.events@.skip(p.idx as int);
    let e = p.events@[p.idx as int];
    let a = step_spec(p, false).1;
    let p2 = step_spec(p, false).0;
    assert(rem[0] == e);
    assert(rem.skip(1) =~= p.events@.skip(p.idx as int + 1));
    let w = scaled_wait(e.delay_ms, p.config.speed_milli);
    assert(a == (PlayerAction::Emit { wait_ms: w, event: e }));
    assert(pass_wait_sum(rem, p.config.speed_milli) == w + pass_wait_sum(
        rem.skip(1),
        p.config.speed_milli,
    ));
    if p.idx + 1 == p.events@.len() {
        let tr = pass_trace(p);
        assert(tr == seq![a]);
        assert(tr.skip(1) =~= Seq::<PlayerAction>::empty());
        assert(rem.skip(1) =~= Seq::<SerializableEvent>::empty());
        assert(total_wait(tr) == wait_of(a) + total_wait(tr.skip(1)));
        assert(total_wait(tr.skip(1)) == 0);
        assert(pass_wait_sum(rem.skip(1), p.config.speed_milli) == 0);
        assert(emitted_events(tr) == seq![e] + emitted_events(tr.skip(1)));
        assert(emitted_events(tr.skip(1)) == Seq::<SerializableEvent>::empty());
        assert(seq![e] + Seq::<SerializableEvent>::empty() =~= rem);
    } else {
        assert(in_pass(p2));
        lemma_delay_fidelity(p2);
        let tr2 = pass_trace(p2);
        let tr = pass_trace(p);
        assert(tr == seq![a] + tr2);
        assert(tr[0] == a);
        assert(tr.skip(1) =~= tr2);
        assert(tr.len() > 0);
        assert(total_wait(tr) == wait_of(a) + total_wait(tr2));
        assert(emitted_events(tr) == seq![e] + emitted_events(tr2));
        assert(p2.events@.skip(p2.idx as int) =~= rem.skip(1));
        assert(total_wait(tr2) == pass_wait_sum(rem.skip(1), p.config.speed_milli));
        assert(seq![e] + emitted_events(tr2) =~= rem);
    }
}

/// The cancellation law: with the cancel flag set, the very next step
/// finishes playback — no further event is emitted, whatever state the
/// machine is in.
pub proof fn lemma_cancel_immediate(p: Player, cancelled: bool)
    requires
        cancelled,
    ensures
        step_spec(p, cancelled).1 == (PlayerAction::Finished { cancelled: true }),
        step_spec(p, cancelled).0.finished,
{
}

/// The bounded-latency law: every interval wait the machine schedules is a
/// chunk of at most 100 ms, so during a between-pass wait the cancel flag is
/// honoured within one such chunk.
pub proof fn lemma_interval_poll_bound(p: Player, cancelled: bool)
    ensures
        step_spec(p, cancelled).1 matches PlayerAction::WaitInterval { wait_ms } ==> wait_ms <= 100,
{
}

} // verus!
