//! Data-rate model.
//!
//! The bottleneck-bandwidth estimate `bw`: a windowed maximum over the
//! delivery-rate samples of the last few rounds, so that one lucky burst
//! cannot inflate the estimate and a real capacity increase is not missed
//! once the window slides.

use vstd::prelude::*;

verus! {

use crate::bandwidth::MAX_BANDWIDTH;
use crate::round::spec_round_increment;
use crate::windowed_filter::{lemma_prune_bounds, lemma_seq_max_bound, seq_max, WindowedMaxFilter};

/// How many rounds a bandwidth sample stays in the maximum filter.
pub const BW_FILTER_LEN: u64 = 10;

/// The max-filtered bandwidth estimate.
#[derive(Debug)]
pub struct Model {
    /// Windowed maximum over recent delivery-rate samples, keyed by round.
    pub max_bw_filter: WindowedMaxFilter,
    /// The round index used to key new samples.
    pub round: u64,
}

impl Model {
    pub open spec fn wf(self) -> bool {
        &&& self.max_bw_filter.wf()
        &&& self.max_bw_filter.values_bounded(MAX_BANDWIDTH)
        &&& self.max_bw_filter.window_length == BW_FILTER_LEN
        &&& self.max_bw_filter.latest_tick <= self.round
    }

    /// The current bandwidth estimate.
    pub open spec fn spec_bw(self) -> u64 {
        seq_max(self.max_bw_filter.samples@)
    }

    pub fn new() -> (r: Model)
        ensures
            r.wf(),
            r.spec_bw() == 0,
            r.round == 0,
    {
        Model { max_bw_filter: WindowedMaxFilter::new(BW_FILTER_LEN), round: 0 }
    }

    /// The current bandwidth estimate, in bytes per second.
    pub fn bw(&self) -> (r: u64)
        requires
            self.wf(),
        ensures
            r == self.spec_bw(),
            r <= MAX_BANDWIDTH,
    {
        proof {
            lemma_seq_max_bound(self.max_bw_filter.samples@, MAX_BANDWIDTH);
        }
        self.max_bw_filter.value()
    }

    /// Feeds one delivery-rate sample into the filter, keyed by the current
    /// round.
    pub fn update(&mut self, rate: u64)
        requires
            old(self).wf(),
            rate <= MAX_BANDWIDTH,
        ensures
            final(self).wf(),
            final(self).round == old(self).round,
            final(self).max_bw_filter.samples@ == crate::windowed_filter::prune(
                old(self).max_bw_filter.samples@,
                BW_FILTER_LEN,
                old(self).round,
            ).push((old(self).round, rate)),
            final(self).spec_bw() >= rate,
    {
        proof {
            lemma_prune_bounds(
                self.max_bw_filter.samples@,
                BW_FILTER_LEN,
                self.round,
                self.round,
                MAX_BANDWIDTH,
            );
        }
        self.max_bw_filter.update(rate, self.round);
        proof {
            crate::windowed_filter::lemma_seq_max_ge_all(self.max_bw_filter.samples@);
        }
    }

    /// Advances the round index that keys new samples; called once per
    /// round so the filter's window spans `BW_FILTER_LEN` rounds.
    pub fn advance_round(&mut self)
        requires
            old(self).wf(),
        ensures
            final(self).wf(),
            final(self).max_bw_filter == old(self).max_bw_filter,
            final(self).round == spec_round_increment(old(self).round),
    {
        self.round = self.round.saturating_add(1);
    }
}

} // verus!
