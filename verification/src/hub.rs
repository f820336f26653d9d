//! Fan-out of detector notifications to the two consumers.
//!
//! The detector never shares one queue between its consumers: each
//! notification is written independently into one FIFO queue per consumer,
//! so each consumer sees every notification exactly once, in send order,
//! regardless of how fast the other consumes. This module is the verified
//! model of that discipline: a journal of everything sent, and one pending
//! queue per consumer that is always a suffix of the journal.

use vstd::prelude::*;

verus! {

/// One producer, two independent unbounded FIFO queues.
pub struct Hub {
    /// Journal of every notification sent so far, in send order.
    pub sent: Ghost<Seq<bool>>,
    /// Sent but not yet taken by the blinker; the front is at index 0.
    pub to_blinker: Vec<bool>,
    /// Sent but not yet taken by the trigger gate; the front is at index 0.
    pub to_gate: Vec<bool>,
}

impl Hub {
    /// Each pending queue holds exactly the notifications sent since the
    /// respective consumer last caught up: a suffix of the journal.
    pub open spec fn wf(self) -> bool {
        &&& self.to_blinker@.len() <= self.sent@.len()
        &&& self.to_blinker@ == self.sent@.skip(self.sent@.len() - self.to_blinker@.len())
        &&& self.to_gate@.len() <= self.sent@.len()
        &&& self.to_gate@ == self.sent@.skip(self.sent@.len() - self.to_gate@.len())
    }

    /// What the blinker has observed so far: everything sent except what is
    /// still pending for it.
    pub open spec fn blinker_observed(self) -> Seq<bool> {
        self.sent@.take(self.sent@.len() - self.to_blinker@.len())
    }

    /// What the trigger gate has observed so far.
    pub open spec fn gate_observed(self) -> Seq<bool> {
        self.sent@.take(self.sent@.len() - self.to_gate@.len())
    }

    /// Fresh hub: nothing sent, nothing pending, nothing observed.
    pub fn new() -> (r: Hub)
        ensures
            r.wf(),
            r.sent@ =~= Seq::<bool>::empty(),
            r.to_blinker@.len() == 0,
            r.to_gate@.len() == 0,
    {
        let r = Hub { sent: Ghost(Seq::empty()), to_blinker: Vec::new(), to_gate: Vec::new() };
        proof {
            assert(r.to_blinker@ =~= r.sent@.skip(r.sent@.len() - r.to_blinker@.len()));
            assert(r.to_gate@ =~= r.sent@.skip(r.sent@.len() - r.to_gate@.len()));
        }
        r
    }

    /// Send one notification: it is appended to the journal and to both
    /// pending queues, and what either consumer has already observed does
    /// not change.
    pub fn send(&mut self, state: bool)
        requires
            old(self).wf(),
        ensures
            final(self).wf(),
            final(self).sent@ == old(self).sent@.push(state),
            final(self).to_blinker@ == old(self).to_blinker@.push(state),
            final(self).to_gate@ == old(self).to_gate@.push(state),
            final(self).blinker_observed() == old(self).blinker_observed(),
            final(self).gate_observed() == old(self).gate_observed(),
    {
        self.to_blinker.push(state);
        self.to_gate.push(state);
        proof {
            let s = self.sent@;
            self.sent@ = s.push(state);
            assert(self.to_blinker@ =~= self.sent@.skip(
                self.sent@.len() - self.to_blinker@.len(),
            ));
            assert(self.to_gate@ =~= self.sent@.skip(self.sent@.len() - self.to_gate@.len()));
            assert(self.blinker_observed() =~= old(self).blinker_observed());
            assert(self.gate_observed() =~= old(self).gate_observed());
        }
    }

    /// Take the next notification for the blinker, if any: exactly the one
    /// the journal holds right after those it already observed, which it
    /// then counts as observed. The trigger gate's view is untouched.
    pub fn recv_blinker(&mut self) -> (r: Option<bool>)
        requires
            old(self).wf(),
        ensures
            final(self).wf(),
            final(self).sent@ == old(self).sent@,
            final(self).to_gate@ == old(self).to_gate@,
            final(self).gate_observed() == old(self).gate_observed(),
            match r {
                Some(b) => {
                    &&& old(self).to_blinker@.len() > 0
                    &&& b == old(self).to_blinker@[0]
                    &&& b == old(self).sent@[old(self).blinker_observed().len() as int]
                    &&& final(self).to_blinker@ == old(self).to_blinker@.skip(1)
                    &&& final(self).blinker_observed() == old(self).blinker_observed().push(b)
                },
                None => {
                    &&& old(self).to_blinker@.len() == 0
                    &&& final(self).to_blinker@ == old(self).to_blinker@
                },
            },
    {
        if self.to_blinker.len() == 0 {
            None
        } else {
            let b = self.to_blinker.remove(0);
            proof {
                assert(self.to_blinker@ =~= self.sent@.skip(
                    self.sent@.len() - self.to_blinker@.len(),
                ));
                assert(self.blinker_observed() =~= old(self).blinker_observed().push(b));
                assert(self.gate_observed() =~= old(self).gate_observed());
            }
            Some(b)
        }
    }

    /// Take the next notification for the trigger gate, if any; symmetric to
    /// `recv_blinker`.
    pub fn recv_gate(&mut self) -> (r: Option<bool>)
        requires
            old(self).wf(),
        ensures
            final(self).wf(),
            final(self).sent@ == old(self).sent@,
            final(self).to_blinker@ == old(self).to_blinker@,
            final(self).blinker_observed() == old(self).blinker_observed(),
            match r {
                Some(b) => {
                    &&& old(self).to_gate@.len() > 0
                    &&& b == old(self).to_gate@[0]
                    &&& b == old(self).sent@[old(self).gate_observed().len() as int]
                    &&& final(self).to_gate@ == old(self).to_gate@.skip(1)
                    &&& final(self).gate_observed() == old(self).gate_observed().push(b)
                },
                None => {
                    &&& old(self).to_gate@.len() == 0
                    &&& final(self).to_gate@ == old(self).to_gate@
                },
            },
    {
        if self.to_gate.len() == 0 {
            None
        } else {
            let b = self.to_gate.remove(0);
            proof {
                assert(self.to_gate@ =~= self.sent@.skip(self.sent@.len() - self.to_gate@.len()));
                assert(self.gate_observed() =~= old(self).gate_observed().push(b));
                assert(self.blinker_observed() =~= old(self).blinker_observed());
            }
            Some(b)
        }
    }
}

/// No loss and no duplication, per consumer: at any point, what a consumer
/// has observed followed by what is still pending for it is exactly the
/// journal of notifications sent, in send order. In particular a consumer
/// that has drained its queue has observed every notification sent, in
/// order, exactly once.
pub proof fn lemma_fanout_exact(h: Hub)
    requires
        h.wf(),
    ensures
        h.blinker_observed() + h.to_blinker@ == h.sent@,
        h.gate_observed() + h.to_gate@ == h.sent@,
        forall|k: int|
            0 <= k < h.blinker_observed().len() ==> h.blinker_observed()[k] == h.sent@[k],
        forall|k: int| 0 <= k < h.gate_observed().len() ==> h.gate_observed()[k] == h.sent@[k],
        h.to_blinker@.len() == 0 ==> h.blinker_observed() == h.sent@,
        h.to_gate@.len() == 0 ==> h.gate_observed() == h.sent@,
{
    assert(h.blinker_observed() + h.to_blinker@ =~= h.sent@);
    assert(h.gate_observed() + h.to_gate@ =~= h.sent@);
    if h.to_blinker@.len() == 0 {
        assert(h.blinker_observed() =~= h.sent@);
    }
    if h.to_gate@.len() == 0 {
        assert(h.gate_observed() =~= h.sent@);
    }
}

} // verus!
