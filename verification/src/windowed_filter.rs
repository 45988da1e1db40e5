//! Sliding-window maximum filter.
//!
//! Tracks the largest value observed within the last `window_length` ticks of
//! a monotonically increasing tick (the controller keys it by round index).
//! The same structure backs both the bandwidth estimate and the
//! ack-aggregation ("extra acked") estimate.

use vstd::prelude::*;

verus! {

/// The samples of `s` that are still inside the window at `tick`: expired
/// samples form a prefix (ticks only grow), and a sample has expired once
/// `window_length` ticks have passed since it was recorded.
pub open spec fn prune(s: Seq<(u64, u64)>, window_length: u64, tick: u64) -> Seq<(u64, u64)>
    decreases s.len(),
{
    if s.len() > 0 && s[0].0 + window_length <= tick {
        prune(s.drop_first(), window_length, tick)
    } else {
        s
    }
}

/// The largest value among the samples, or 0 when there are none.
pub open spec fn seq_max(s: Seq<(u64, u64)>) -> u64
    decreases s.len(),
{
    if s.len() == 0 {
        0u64
    } else {
        let m = seq_max(s.drop_last());
        if s.last().1 > m {
            s.last().1
        } else {
            m
        }
    }
}

/// Pruning keeps only samples that were already present, so any per-sample
/// bound on ticks or values survives it.
pub proof fn lemma_prune_bounds(s: Seq<(u64, u64)>, window_length: u64, tick: u64, tick_bound: u64, value_bound: u64)
    requires
        forall|i: int| 0 <= i < s.len() ==> s[i].0 <= tick_bound,
        forall|i: int| 0 <= i < s.len() ==> s[i].1 <= value_bound,
    ensures
        forall|i: int| 0 <= i < prune(s, window_length, tick).len() ==> prune(s, window_length, tick)[i].0 <= tick_bound,
        forall|i: int| 0 <= i < prune(s, window_length, tick).len() ==> prune(s, window_length, tick)[i].1 <= value_bound,
    decreases s.len(),
{
    if s.len() > 0 && s[0].0 + window_length <= tick {
        assert(forall|i: int| 0 <= i < s.drop_first().len() ==> s.drop_first()[i] == s[i + 1]);
        lemma_prune_bounds(s.drop_first(), window_length, tick, tick_bound, value_bound);
        assert(prune(s, window_length, tick) == prune(s.drop_first(), window_length, tick));
    }
}

/// The window maximum is at least every retained sample, and is one of the
/// retained values whenever any sample remains.
pub proof fn lemma_seq_max_ge_all(s: Seq<(u64, u64)>)
    ensures
        forall|i: int| 0 <= i < s.len() ==> s[i].1 <= seq_max(s),
        s.len() > 0 ==> exists|i: int| 0 <= i < s.len() && s[i].1 == seq_max(s),
    decreases s.len(),
{
    if s.len() > 0 {
        lemma_seq_max_ge_all(s.drop_last());
        assert(forall|i: int| 0 <= i < s.len() - 1 ==> s[i] == s.drop_last()[i]);
        if s.last().1 > seq_max(s.drop_last()) {
            assert(s[s.len() - 1].1 == seq_max(s));
        } else if s.drop_last().len() > 0 {
            let j = choose|i: int|
                0 <= i < s.drop_last().len() && s.drop_last()[i].1 == seq_max(s.drop_last());
            assert(s[j].1 == seq_max(s));
        } else {
            assert(s[0].1 == seq_max(s));
        }
    }
}

/// If every sample's value is at most `value_bound`, so is the maximum.
pub proof fn lemma_seq_max_bound(s: Seq<(u64, u64)>, value_bound: u64)
    requires
        forall|i: int| 0 <= i < s.len() ==> s[i].1 <= value_bound,
    ensures
        seq_max(s) <= value_bound,
    decreases s.len(),
{
    if s.len() > 0 {
        assert(forall|i: int| 0 <= i < s.drop_last().len() ==> s.drop_last()[i].1 <= value_bound);
        lemma_seq_max_bound(s.drop_last(), value_bound);
    }
}

/// A maximum tracker over the samples recorded in the last `window_length`
/// ticks.
#[derive(Debug)]
pub struct WindowedMaxFilter {
    /// Retained samples as (tick, value), oldest first.
    pub samples: Vec<(u64, u64)>,
    /// How many ticks a sample stays relevant.
    pub window_length: u64,
    /// The largest tick seen so far; samples are only accepted in tick order.
    pub latest_tick: u64,
}

impl WindowedMaxFilter {
    /// Every recorded sample carries a tick no newer than the latest tick.
    pub open spec fn wf(self) -> bool {
        forall|i: int| 0 <= i < self.samples@.len() ==> self.samples@[i].0 <= self.latest_tick
    }

    /// All retained values are at most `value_bound`.
    pub open spec fn values_bounded(self, value_bound: u64) -> bool {
        forall|i: int| 0 <= i < self.samples@.len() ==> self.samples@[i].1 <= value_bound
    }

    /// The current window maximum.
    pub open spec fn spec_value(self) -> u64 {
        seq_max(self.samples@)
    }

    pub fn new(window_length: u64) -> (r: WindowedMaxFilter)
        ensures
            r.samples@ == Seq::<(u64, u64)>::empty(),
            r.window_length == window_length,
            r.latest_tick == 0,
            r.wf(),
    {
        let r = WindowedMaxFilter { samples: Vec::new(), window_length, latest_tick: 0 };
        proof {
            assert(r.samples@ =~= Seq::<(u64, u64)>::empty());
        }
        r
    }

    /// Records `value` at `tick`, dropping samples that have fallen out of
    /// the window.
    pub fn update(&mut self, value: u64, tick: u64)
        requires
            old(self).wf(),
            tick >= old(self).latest_tick,
        ensures
            final(self).samples@ == prune(old(self).samples@, old(self).window_length, tick).push((tick, value)),
            final(self).window_length == old(self).window_length,
            final(self).latest_tick == tick,
            final(self).wf(),
    {
        loop
            invariant
                self.window_length == old(self).window_length,
                self.latest_tick == old(self).latest_tick,
                tick >= self.latest_tick,
                self.wf(),
                prune(self.samples@, self.window_length, tick)
                    == prune(old(self).samples@, old(self).window_length, tick),
            ensures
                self.window_length == old(self).window_length,
                self.latest_tick == old(self).latest_tick,
                self.wf(),
                self.samples@ == prune(old(self).samples@, old(self).window_length, tick),
            decreases self.samples@.len(),
        {
            if self.samples.len() == 0 {
                break;
            }
            let head = self.samples[0];
            if tick - head.0 < self.window_length {
                break;
            }
            let ghost pre = self.samples@;
            self.samples.remove(0);
            proof {
                assert(self.samples@ =~= pre.drop_first());
            }
        }
        self.samples.push((tick, value));
        self.latest_tick = tick;
    }

    /// Returns the largest value recorded within the window.
    pub fn value(&self) -> (r: u64)
        ensures
            r == self.spec_value(),
    {
        let mut m: u64 = 0;
        let mut i: usize = 0;
        proof {
            assert(self.samples@.take(0) =~= Seq::<(u64, u64)>::empty());
        }
        while i < self.samples.len()
            invariant
                i <= self.samples@.len(),
                m == seq_max(self.samples@.take(i as int)),
            decreases self.samples@.len() - i,
        {
            let entry = self.samples[i];
            if entry.1 > m {
                m = entry.1;
            }
            proof {
                assert(self.samples@.take(i + 1).drop_last() =~= self.samples@.take(i as int));
                assert(self.samples@.take(i + 1).last() == self.samples@[i as int]);
            }
            i = i + 1;
        }
        proof {
            assert(self.samples@.take(self.samples@.len() as int) =~= self.samples@);
        }
        m
    }
}

} // verus!
