//! Reactive rate-switching state machine for the visual indicator.
//!
//! The blinker races two events: arrival of a notification, which only
//! retargets the blink period, and expiry of the period timer, which toggles
//! the output. The surrounding runtime performs the actual dual wait and pin
//! write; every decision — which period to wait for next, what the new output
//! level is — is made here.

use vstd::prelude::*;

verus! {

/// Blink period, in milliseconds, while the last notified state is active.
pub const DELAY_SHORT: u64 = 100;

/// Blink period, in milliseconds, while the last notified state is idle.
pub const DELAY_LONG: u64 = 1000;

/// The period the blinker waits for, given its current target mode.
pub open spec fn period_of(active: bool) -> u64 {
    if active {
        DELAY_SHORT
    } else {
        DELAY_LONG
    }
}

/// The two things that can end one round of the blinker's dual wait.
#[derive(Clone, Copy)]
pub enum BlinkEvent {
    /// A notification arrived carrying the newly observed button state.
    Note(bool),
    /// The period timer elapsed before any notification arrived.
    Tick,
}

/// State owned exclusively by the blinker's loop.
pub struct Blinker {
    /// Current target mode: the payload of the last notification received.
    pub active: bool,
    /// Current output level; `true` is high.
    pub led_on: bool,
}

/// What one step does to the blinker's state: a notification retargets the
/// period and leaves the output alone; a tick toggles the output and keeps
/// the mode.
pub open spec fn spec_step(st: Blinker, ev: BlinkEvent) -> Blinker {
    match ev {
        BlinkEvent::Note(b) => Blinker { active: b, led_on: st.led_on },
        BlinkEvent::Tick => Blinker { active: st.active, led_on: !st.led_on },
    }
}

/// The state reached from `st` after servicing `evs` in order.
pub open spec fn spec_run(st: Blinker, evs: Seq<BlinkEvent>) -> Blinker
    decreases evs.len(),
{
    if evs.len() == 0 {
        st
    } else {
        spec_step(spec_run(st, evs.drop_last()), evs.last())
    }
}

/// The output levels written over a run, one per tick, in order: each tick
/// writes the toggle of the level current just before it; notifications
/// write nothing.
pub open spec fn spec_outputs(st: Blinker, evs: Seq<BlinkEvent>) -> Seq<bool>
    decreases evs.len(),
{
    if evs.len() == 0 {
        Seq::empty()
    } else {
        let prev = spec_outputs(st, evs.drop_last());
        match evs.last() {
            BlinkEvent::Note(_) => prev,
            BlinkEvent::Tick => prev.push(!spec_run(st, evs.drop_last()).led_on),
        }
    }
}

impl Blinker {
    /// Initial state: idle target (long period), output off.
    pub fn new() -> (r: Blinker)
        ensures
            !r.active,
            !r.led_on,
    {
        Blinker { active: false, led_on: false }
    }

    /// The period the next dual wait must use. A notification that arrives
    /// mid-wait thus takes effect on the next wait, not retroactively.
    pub fn target_period(&self) -> (p: u64)
        ensures
            p == period_of(self.active),
    {
        if self.active {
            DELAY_SHORT
        } else {
            DELAY_LONG
        }
    }

    /// Service one event. The result is the output level to write, present
    /// exactly when the event was a timer expiry: notifications never touch
    /// the output.
    pub fn step(&mut self, ev: BlinkEvent) -> (out: Option<bool>)
        ensures
            *final(self) == spec_step(*old(self), ev),
            match ev {
                BlinkEvent::Note(_) => out is None,
                BlinkEvent::Tick => out == Some(!old(self).led_on),
            },
    {
        match ev {
            BlinkEvent::Note(b) => {
                self.active = b;
                None
            }
            BlinkEvent::Tick => {
                self.led_on = !self.led_on;
                Some(self.led_on)
            }
        }
    }

    /// Service a whole run of events, returning the output levels written,
    /// in order (one per tick). Useful to exercise the blinker on simulated
    /// event histories.
    pub fn step_all(&mut self, evs: &Vec<BlinkEvent>) -> (outs: Vec<bool>)
        ensures
            *final(self) == spec_run(*old(self), evs@),
            outs@ == spec_outputs(*old(self), evs@),
    {
        let mut outs: Vec<bool> = Vec::new();
        let mut k: usize = 0;
        while k < evs.len()
            invariant
                k <= evs@.len(),
                *self == spec_run(*old(self), evs@.take(k as int)),
                outs@ == spec_outputs(*old(self), evs@.take(k as int)),
            decreases evs@.len() - k,
        {
            let ev = evs[k];
            proof {
                assert(evs@.take(k as int + 1).drop_last() =~= evs@.take(k as int));
                assert(evs@.take(k as int + 1).last() == evs@[k as int]);
            }
            if let Some(level) = self.step(ev) {
                outs.push(level);
            }
            k = k + 1;
        }
        proof {
            assert(evs@.take(evs@.len() as int) =~= evs@);
        }
        outs
    }
}

/// Whether every event of a run is a timer expiry (no notifications at all).
pub open spec fn all_ticks(evs: Seq<BlinkEvent>) -> bool {
    forall|i: int| 0 <= i < evs.len() ==> evs[i] is Tick
}

/// Whether every event of a run is a notification.
pub open spec fn all_notes(evs: Seq<BlinkEvent>) -> bool {
    forall|i: int| 0 <= i < evs.len() ==> evs[i] is Note
}

/// With no notifications, the blinker keeps blinking at the idle rate
/// indefinitely: after any prefix of the run its target is still the long
/// period, and every tick toggles the output, so the level after `n` ticks
/// is the initial level exactly when `n` is even.
pub proof fn lemma_idle_blink(st: Blinker, evs: Seq<BlinkEvent>)
    requires
        !st.active,
        all_ticks(evs),
    ensures
        forall|k: int|
            0 <= k <= evs.len() ==> !(#[trigger] spec_run(st, evs.take(k))).active,
        forall|k: int|
            0 <= k <= evs.len() ==> period_of(
                (#[trigger] spec_run(st, evs.take(k))).active,
            ) == DELAY_LONG,
        spec_run(st, evs).led_on == if evs.len() % 2 == 0 {
            st.led_on
        } else {
            !st.led_on
        },
    decreases evs.len(),
{
    if evs.len() > 0 {
        assert(all_ticks(evs.drop_last()));
        lemma_idle_blink(st, evs.drop_last());
        assert(evs[evs.len() - 1] is Tick);
        assert(evs.drop_last().take(evs.len() - 1) =~= evs.drop_last());
        assert forall|k: int| 0 <= k <= evs.len() implies !(#[trigger] spec_run(
            st,
            evs.take(k),
        )).active by {
            if k < evs.len() {
                assert(evs.take(k) =~= evs.drop_last().take(k));
                assert(!spec_run(st, evs.drop_last().take(k)).active);
            } else {
                assert(evs.take(k) =~= evs);
                assert(!spec_run(st, evs.drop_last().take(evs.len() - 1)).active);
                assert(spec_run(st, evs.drop_last().take(evs.len() - 1)) == spec_run(
                    st,
                    evs.drop_last(),
                ));
            }
        }
    } else {
        assert(evs.take(0) =~= evs);
    }
}

/// The period a notification leaves behind for the next wait: short after an
/// active notification, long after an idle one — whatever the state was
/// before.
pub proof fn lemma_note_sets_next_period(st: Blinker, b: bool)
    ensures
        period_of(spec_step(st, BlinkEvent::Note(b)).active) == if b {
            DELAY_SHORT
        } else {
            DELAY_LONG
        },
{
}

/// The payload of a notification event; arbitrary for a tick.
pub open spec fn note_payload(ev: BlinkEvent) -> bool {
    match ev {
        BlinkEvent::Note(b) => b,
        BlinkEvent::Tick => arbitrary(),
    }
}

/// Under a storm of notifications with no tick in between, the target period
/// ends up being that of the last notification received, and the output is
/// never touched.
pub proof fn lemma_storm_last_note_wins(st: Blinker, evs: Seq<BlinkEvent>)
    requires
        evs.len() > 0,
        all_notes(evs),
    ensures
        spec_run(st, evs).active == note_payload(evs.last()),
        spec_run(st, evs).led_on == st.led_on,
    decreases evs.len(),
{
    assert(evs[evs.len() - 1] is Note);
    if evs.len() > 1 {
        assert(all_notes(evs.drop_last()));
        lemma_storm_last_note_wins(st, evs.drop_last());
    } else {
        assert(evs.drop_last().len() == 0);
        assert(spec_run(st, evs.drop_last()) == st);
    }
}

} // verus!
