//! Rising-edge detection over successive samples of a two-level input.
//!
//! The detector keeps the level seen at the previous poll and reports an
//! emission exactly when a low sample is immediately followed by a high one.
//! The surrounding runtime polls the pin and sends a notification on each
//! reported emission; the decision itself lives here.

use vstd::prelude::*;

verus! {

/// A rising edge: the previous sample was low and the current one is high.
pub open spec fn spec_rising_edge(prev: bool, cur: bool) -> bool {
    cur && !prev
}

/// Per-step emissions of a detector that starts with `init` as its
/// last-seen level and consumes `samples` in order: entry `i` is `true`
/// exactly when sample `i` completes a rising edge.
pub open spec fn spec_emissions(init: bool, samples: Seq<bool>) -> Seq<bool> {
    Seq::new(
        samples.len(),
        |i: int| spec_rising_edge(if i == 0 { init } else { samples[i - 1] }, samples[i]),
    )
}

/// Detects low-to-high transitions between consecutive polls of the input.
pub struct EdgeDetector {
    /// The level seen at the previous poll; `true` is high.
    pub last: bool,
}

impl EdgeDetector {
    /// A fresh detector; the input is taken to have been low so far, so an
    /// initially-high input counts as a rising edge at the first sample.
    pub fn new() -> (r: EdgeDetector)
        ensures
            !r.last,
    {
        EdgeDetector { last: false }
    }

    /// Consume one sample. The result says whether a notification must be
    /// emitted for it; the last-seen level is updated unconditionally.
    pub fn sample(&mut self, level: bool) -> (emit: bool)
        ensures
            emit == spec_rising_edge(old(self).last, level),
            final(self).last == level,
    {
        let emit = level && !self.last;
        self.last = level;
        emit
    }

    /// Consume a whole run of samples, returning the per-sample emission
    /// flags. Useful to exercise the detector on simulated input histories.
    pub fn sample_all(&mut self, samples: &Vec<bool>) -> (emits: Vec<bool>)
        ensures
            emits@ == spec_emissions(old(self).last, samples@),
            final(self).last == if samples@.len() == 0 {
                old(self).last
            } else {
                samples@.last()
            },
    {
        let ghost init = self.last;
        let mut emits: Vec<bool> = Vec::new();
        let mut k: usize = 0;
        while k < samples.len()
            invariant
                k <= samples@.len(),
                emits@ == spec_emissions(init, samples@.take(k as int)),
                self.last == if k == 0 {
                    init
                } else {
                    samples@[k as int - 1]
                },
            decreases samples@.len() - k,
        {
            let e = self.sample(samples[k]);
            emits.push(e);
            k = k + 1;
            proof {
                assert(emits@ =~= spec_emissions(init, samples@.take(k as int)));
            }
        }
        proof {
            assert(samples@.take(samples@.len() as int) =~= samples@);
        }
        emits
    }
}

/// A notification is emitted at step `i` if and only if the sample there is
/// high and the preceding one (or the initial level, at the first step) was
/// low.
pub proof fn lemma_emission_iff_rising_edge(init: bool, samples: Seq<bool>, i: int)
    requires
        0 <= i < samples.len(),
    ensures
        spec_emissions(init, samples)[i] == spec_rising_edge(
            if i == 0 { init } else { samples[i - 1] },
            samples[i],
        ),
{
}

/// A steady run of the initial level produces no notification at all.
pub proof fn lemma_steady_run_silent(init: bool, samples: Seq<bool>)
    requires
        forall|i: int| 0 <= i < samples.len() ==> samples[i] == init,
    ensures
        forall|i: int| 0 <= i < samples.len() ==> !spec_emissions(init, samples)[i],
{
}

} // verus!
