//! Full-pipe estimation.
//!
//! Detects when Startup has stopped growing the bandwidth estimate: if the
//! estimate fails to grow by at least a quarter over a few consecutive
//! non-app-limited rounds, or too many loss bursts arrive while still
//! filling, the path's pipe is declared full. `filled_pipe` is a one-way
//! latch: once set it never clears for the life of the connection.

use vstd::prelude::*;

verus! {

use crate::bandwidth::MAX_BANDWIDTH;
use crate::gain::Gain;

/// Required per-round growth of the bandwidth estimate while filling:
/// 5/4 of the previous baseline.
pub const GROWTH_NUMER: u64 = 5;
pub const GROWTH_DENOM: u64 = 4;

/// Rounds without sufficient growth after which the pipe counts as full.
pub const FULL_BW_ROUNDS: u8 = 3;

/// Loss bursts while still filling after which the pipe counts as full.
pub const FULL_LOSS_BURSTS: u8 = 8;

/// The estimator's state after one once-per-round growth check.
pub open spec fn spec_after_round(pre: Estimator, max_bw: u64, is_app_limited: bool) -> Estimator {
    if pre.filled_pipe || is_app_limited {
        pre
    } else if max_bw >= (Gain { numer: GROWTH_NUMER, denom: GROWTH_DENOM }).spec_times(pre.full_bw) {
        Estimator { full_bw: max_bw, full_bw_count: 0, ..pre }
    } else if pre.full_bw_count + 1 == FULL_BW_ROUNDS {
        Estimator { filled_pipe: true, full_bw_count: FULL_BW_ROUNDS, ..pre }
    } else {
        Estimator { full_bw_count: (pre.full_bw_count + 1) as u8, ..pre }
    }
}

/// The estimator's state after one loss report.
pub open spec fn spec_after_loss(pre: Estimator, new_loss_burst: bool) -> Estimator {
    if pre.filled_pipe || !new_loss_burst {
        pre
    } else if pre.loss_bursts + 1 == FULL_LOSS_BURSTS {
        Estimator { filled_pipe: true, loss_bursts: FULL_LOSS_BURSTS, ..pre }
    } else {
        Estimator { loss_bursts: (pre.loss_bursts + 1) as u8, ..pre }
    }
}

/// Watches the bandwidth estimate for stalled growth during Startup.
#[derive(Clone, Copy, Debug)]
pub struct Estimator {
    /// The one-way latch: true once the bottleneck has been filled.
    pub filled_pipe: bool,
    /// Baseline bandwidth the growth check compares against.
    pub full_bw: u64,
    /// Consecutive rounds without sufficient growth.
    pub full_bw_count: u8,
    /// Loss bursts observed while still filling.
    pub loss_bursts: u8,
}

impl Estimator {
    /// The counters only run while the latch is clear, and stop one step
    /// before their thresholds because reaching a threshold sets the latch.
    pub open spec fn wf(self) -> bool {
        &&& self.full_bw <= MAX_BANDWIDTH
        &&& (self.filled_pipe || self.full_bw_count < FULL_BW_ROUNDS)
        &&& (self.filled_pipe || self.loss_bursts < FULL_LOSS_BURSTS)
    }

    pub fn new() -> (r: Estimator)
        ensures
            !r.filled_pipe,
            r.full_bw == 0,
            r.full_bw_count == 0,
            r.loss_bursts == 0,
            r.wf(),
    {
        Estimator { filled_pipe: false, full_bw: 0, full_bw_count: 0, loss_bursts: 0 }
    }

    /// Whether the pipe has been declared full.
    pub fn filled_pipe(&self) -> (r: bool)
        ensures
            r == self.filled_pipe,
    {
        self.filled_pipe
    }

    /// Runs the once-per-round growth check against the current bandwidth
    /// estimate. Application-limited rounds are ignored: a sender that is
    /// not offering enough data says nothing about the path.
    pub fn on_round_start(&mut self, max_bw: u64, is_app_limited: bool)
        requires
            old(self).wf(),
            max_bw <= MAX_BANDWIDTH,
        ensures
            final(self).wf(),
            old(self).filled_pipe ==> final(self).filled_pipe,
            final(self).loss_bursts == old(self).loss_bursts,
            *final(self) == spec_after_round(*old(self), max_bw, is_app_limited),
    {
        if self.filled_pipe || is_app_limited {
            return;
        }
        let growth_target = (Gain { numer: GROWTH_NUMER, denom: GROWTH_DENOM }).times(self.full_bw);
        if max_bw >= growth_target {
            // Still growing: move the baseline up and restart the countdown.
            self.full_bw = max_bw;
            self.full_bw_count = 0;
        } else {
            self.full_bw_count = self.full_bw_count + 1;
            if self.full_bw_count == FULL_BW_ROUNDS {
                self.filled_pipe = true;
            }
        }
    }

    /// Counts a loss burst; enough of them while still filling also latch
    /// the pipe as full, since heavy startup loss means the path is already
    /// saturated.
    pub fn on_packet_lost(&mut self, new_loss_burst: bool)
        requires
            old(self).wf(),
        ensures
            final(self).wf(),
            old(self).filled_pipe ==> final(self).filled_pipe,
            final(self).full_bw == old(self).full_bw,
            final(self).full_bw_count == old(self).full_bw_count,
            *final(self) == spec_after_loss(*old(self), new_loss_burst),
    {
        if self.filled_pipe || !new_loss_burst {
            return;
        }
        self.loss_bursts = self.loss_bursts + 1;
        if self.loss_bursts == FULL_LOSS_BURSTS {
            self.filled_pipe = true;
        }
    }
}

} // verus!
