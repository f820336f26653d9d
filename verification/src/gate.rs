//! Edge-triggered one-shot request dispatcher.
//!
//! The trigger gate waits for notifications. An active (`true`) notification makes
//! it dispatch exactly one external request-response exchange; an idle
//! (`false`) one is a no-op. The trigger gate never overlaps exchanges: it consumes
//! the next notification only once the current exchange has completed, and
//! it returns to idle after every exchange, successful or not, so each
//! later rising edge causes one request of its own.

use vstd::prelude::*;

verus! {

/// State owned exclusively by the trigger gate's loop.
pub struct TriggerGate {
    /// Whether an active notification has been consumed whose exchange has
    /// not completed yet.
    pub pending: bool,
}

/// The number of active (`true`) notifications in a run — and therewith the
/// number of requests the trigger gate dispatches for it, one each.
pub open spec fn count_active(notes: Seq<bool>) -> nat
    decreases notes.len(),
{
    if notes.len() == 0 {
        0
    } else {
        count_active(notes.drop_last()) + if notes.last() {
            1nat
        } else {
            0nat
        }
    }
}

impl TriggerGate {
    /// Fresh gate: idle, no exchange in flight.
    pub fn new() -> (r: TriggerGate)
        ensures
            !r.pending,
    {
        TriggerGate { pending: false }
    }

    /// Whether an exchange is in flight.
    pub fn is_pending(&self) -> (r: bool)
        ensures
            r == self.pending,
    {
        self.pending
    }

    /// Consume one notification. The result says whether a request must be
    /// dispatched for it: exactly when the notification is active. The
    /// caller may consume the next notification only after completing the
    /// dispatched exchange — exchanges never overlap.
    pub fn on_note(&mut self, state: bool) -> (dispatch: bool)
        requires
            !old(self).pending,
        ensures
            dispatch == state,
            final(self).pending == state,
    {
        self.pending = state;
        state
    }

    /// Mark the in-flight exchange as completed — successfully or not — and
    /// return to idle, ready for the next notification. A failed exchange is
    /// only reported, never retried: a missed request is recovered by the
    /// next rising edge alone.
    pub fn complete(&mut self)
        requires
            old(self).pending,
        ensures
            !final(self).pending,
    {
        self.pending = false;
    }
}

/// Appending one notification to a run raises the dispatch count by one
/// exactly when it is active.
pub proof fn lemma_count_active_push(notes: Seq<bool>, state: bool)
    ensures
        count_active(notes.push(state)) == count_active(notes) + if state {
            1nat
        } else {
            0nat
        },
{
    assert(notes.push(state).drop_last() =~= notes);
}

/// A run never dispatches more requests than it has notifications.
pub proof fn lemma_count_active_le_len(notes: Seq<bool>)
    ensures
        count_active(notes) <= notes.len(),
    decreases notes.len(),
{
    if notes.len() > 0 {
        lemma_count_active_le_len(notes.drop_last());
    }
}

/// Drive the trigger gate through a whole run of notifications, completing each
/// dispatched exchange before the next notification is consumed (sequential,
/// never-concurrent dispatch), and return how many requests were dispatched:
/// exactly one per active notification, none for idle ones.
pub fn run_notes(gate: &mut TriggerGate, notes: &Vec<bool>) -> (dispatched: usize)
    requires
        !old(gate).pending,
    ensures
        !final(gate).pending,
        dispatched == count_active(notes@),
{
    let mut dispatched: usize = 0;
    let mut k: usize = 0;
    while k < notes.len()
        invariant
            !gate.pending,
            k <= notes@.len(),
            dispatched <= k,
            dispatched == count_active(notes@.take(k as int)),
        decreases notes@.len() - k,
    {
        proof {
            assert(notes@.take(k as int + 1).drop_last() =~= notes@.take(k as int));
            assert(notes@.take(k as int + 1).last() == notes@[k as int]);
        }
        if gate.on_note(notes[k]) {
            // The exchange runs here, synchronously from the trigger gate's view.
            gate.complete();
            dispatched = dispatched + 1;
        }
        k = k + 1;
    }
    proof {
        assert(notes@.take(notes@.len() as int) =~= notes@);
    }
    dispatched
}

} // verus!
