//! Data-volume model.
//!
//! Holds the minimum round-trip time (with an expiry window that forces a
//! periodic re-probe), the ack-aggregation "extra acked" estimate, and the
//! adaptive `inflight_hi` / `inflight_lo` bounds that congestion signals
//! tighten. Both bounds start unbounded — the explicit `u64::MAX` sentinel —
//! and are never used for arithmetic while unbounded.

use vstd::prelude::*;

verus! {

use crate::bandwidth::{spec_sat_add, spec_sat_sub, MAX_BANDWIDTH, NANOS_PER_SEC};
use crate::windowed_filter::{lemma_prune_bounds, lemma_seq_max_bound, prune, seq_max, WindowedMaxFilter};

/// How long a min-RTT estimate stays fresh before it must be re-probed,
/// in nanoseconds (ten seconds).
pub const MIN_RTT_EXPIRY: u64 = 10_000_000_000;

/// How many rounds an extra-acked sample stays in the maximum filter.
pub const EXTRA_ACKED_FILTER_LEN: u64 = 10;

/// The sentinel for an inflight bound that has not been tightened yet.
pub const UNBOUNDED: u64 = u64::MAX;

/// Largest value a tightened inflight bound may take.
pub const INFLIGHT_BOUND_CAP: u64 = 4_294_967_295;

/// The expected bytes delivered over the aggregation interval at rate `bw`,
/// saturating at `u64::MAX`.
pub open spec fn spec_expected_delivered(bw: u64, interval_start: u64, now: u64) -> u64 {
    let elapsed = spec_sat_sub(now, interval_start);
    if bw * elapsed / (NANOS_PER_SEC as int) > u64::MAX {
        u64::MAX
    } else {
        (bw * elapsed / (NANOS_PER_SEC as int)) as u64
    }
}

/// Minimum RTT, aggregation estimate, and adaptive inflight bounds.
#[derive(Debug)]
pub struct Model {
    /// Smallest RTT sample within the expiry window, nanoseconds.
    pub min_rtt: Option<u64>,
    /// When the current min-RTT estimate was last confirmed.
    pub min_rtt_timestamp: u64,
    /// Windowed maximum of per-round aggregation excess, keyed by round.
    pub extra_acked_filter: WindowedMaxFilter,
    /// Bytes delivered in the current aggregation epoch.
    pub extra_acked_delivered: u64,
    /// When the current aggregation epoch started.
    pub extra_acked_interval_start: u64,
    /// Upper inflight bound learned from loss; `UNBOUNDED` until tightened.
    pub inflight_hi: u64,
    /// Lower inflight bound used while deprobing; `UNBOUNDED` until tightened.
    pub inflight_lo: u64,
}

impl Model {
    pub open spec fn wf(self) -> bool {
        &&& self.extra_acked_filter.wf()
        &&& self.extra_acked_filter.values_bounded(INFLIGHT_BOUND_CAP)
        &&& self.extra_acked_filter.window_length == EXTRA_ACKED_FILTER_LEN
        &&& (self.inflight_hi == UNBOUNDED || self.inflight_hi <= INFLIGHT_BOUND_CAP)
        &&& (self.inflight_lo == UNBOUNDED || self.inflight_lo <= INFLIGHT_BOUND_CAP)
    }

    /// The current extra-acked estimate.
    pub open spec fn spec_extra_acked(self) -> u64 {
        seq_max(self.extra_acked_filter.samples@)
    }

    pub fn new() -> (r: Model)
        ensures
            r.wf(),
            r.min_rtt is None,
            r.min_rtt_timestamp == 0,
            r.extra_acked_filter.latest_tick == 0,
            r.spec_extra_acked() == 0,
            r.extra_acked_delivered == 0,
            r.extra_acked_interval_start == 0,
            r.inflight_hi == UNBOUNDED,
            r.inflight_lo == UNBOUNDED,
    {
        Model {
            min_rtt: None,
            min_rtt_timestamp: 0,
            extra_acked_filter: WindowedMaxFilter::new(EXTRA_ACKED_FILTER_LEN),
            extra_acked_delivered: 0,
            extra_acked_interval_start: 0,
            inflight_hi: UNBOUNDED,
            inflight_lo: UNBOUNDED,
        }
    }

    /// The minimum RTT estimate, if any sample has arrived yet.
    pub fn min_rtt(&self) -> (r: Option<u64>)
        ensures
            r == self.min_rtt,
    {
        self.min_rtt
    }

    /// Whether the min-RTT estimate has outlived its expiry window and must
    /// be re-probed.
    pub fn min_rtt_expired(&self, now: u64) -> (r: bool)
        ensures
            r == (self.min_rtt is Some && now >= spec_sat_add(self.min_rtt_timestamp, MIN_RTT_EXPIRY)),
    {
        self.min_rtt.is_some() && now >= self.min_rtt_timestamp.saturating_add(MIN_RTT_EXPIRY)
    }

    /// Adopts the RTT sample when it is the first, no worse than the
    /// current estimate, or the current estimate has expired.
    pub fn update_min_rtt(&mut self, rtt: u64, now: u64)
        ensures
            *final(self) == (if old(self).min_rtt is None
                || rtt <= old(self).min_rtt->Some_0
                || now >= spec_sat_add(old(self).min_rtt_timestamp, MIN_RTT_EXPIRY) {
                Model { min_rtt: Some(rtt), min_rtt_timestamp: now, ..*old(self) }
            } else {
                *old(self)
            }),
    {
        let adopt = match self.min_rtt {
            None => true,
            Some(current) => rtt <= current || now >= self.min_rtt_timestamp.saturating_add(MIN_RTT_EXPIRY),
        };
        if adopt {
            self.min_rtt = Some(rtt);
            self.min_rtt_timestamp = now;
        }
    }

    /// Marks the min-RTT estimate as freshly probed (on leaving the probe
    /// state), restarting its expiry window.
    pub fn mark_min_rtt_probed(&mut self, now: u64)
        ensures
            *final(self) == (Model { min_rtt_timestamp: now, ..*old(self) }),
    {
        self.min_rtt_timestamp = now;
    }

    /// The extra-acked estimate: how much beyond the bandwidth-expected
    /// volume recent rounds have delivered in bursts.
    pub fn extra_acked(&self) -> (r: u64)
        requires
            self.wf(),
        ensures
            r == self.spec_extra_acked(),
            r <= INFLIGHT_BOUND_CAP,
    {
        proof {
            lemma_seq_max_bound(self.extra_acked_filter.samples@, INFLIGHT_BOUND_CAP);
        }
        self.extra_acked_filter.value()
    }

    /// Feeds one aggregation sample: the excess of delivered bytes in the
    /// current epoch over what the bandwidth estimate predicts, capped at
    /// the congestion window. The epoch restarts whenever delivery falls
    /// back to (or below) the predicted volume.
    pub fn update_ack_aggregation(&mut self, bw: u64, bytes_acked: usize, cwnd: u32, round_count: u64, now: u64)
        requires
            old(self).wf(),
            bw <= MAX_BANDWIDTH,
            round_count >= old(self).extra_acked_filter.latest_tick,
            bytes_acked <= u32::MAX,
        ensures
            final(self).wf(),
            final(self).min_rtt == old(self).min_rtt,
            final(self).min_rtt_timestamp == old(self).min_rtt_timestamp,
            final(self).inflight_hi == old(self).inflight_hi,
            final(self).inflight_lo == old(self).inflight_lo,
            final(self).extra_acked_interval_start == (if spec_aggregation_reset(*old(self), bw, now) {
                now
            } else {
                old(self).extra_acked_interval_start
            }),
            final(self).extra_acked_delivered == spec_sat_add(
                if spec_aggregation_reset(*old(self), bw, now) { 0u64 } else { old(self).extra_acked_delivered },
                bytes_acked as u64,
            ),
            final(self).extra_acked_filter.samples@ == prune(
                old(self).extra_acked_filter.samples@,
                EXTRA_ACKED_FILTER_LEN,
                round_count,
            ).push((round_count, spec_extra_acked_sample(*old(self), bw, bytes_acked as u64, cwnd, now))),
            final(self).extra_acked_filter.latest_tick == round_count,
    {
        let elapsed = now.saturating_sub(self.extra_acked_interval_start);
        proof {
            vstd::arithmetic::mul::lemma_mul_upper_bound(
                bw as int,
                MAX_BANDWIDTH as int,
                elapsed as int,
                u64::MAX as int,
            );
        }
        let expected128 = (bw as u128) * (elapsed as u128) / (NANOS_PER_SEC as u128);
        let expected = if expected128 > u64::MAX as u128 {
            u64::MAX
        } else {
            expected128 as u64
        };
        let expected = if self.extra_acked_delivered <= expected {
            // Delivery has not outpaced the model: restart the epoch.
            self.extra_acked_delivered = 0;
            self.extra_acked_interval_start = now;
            0u64
        } else {
            expected
        };
        self.extra_acked_delivered = self.extra_acked_delivered.saturating_add(bytes_acked as u64);
        let extra = self.extra_acked_delivered.saturating_sub(expected);
        let extra = if extra > cwnd as u64 { cwnd as u64 } else { extra };
        proof {
            lemma_prune_bounds(
                self.extra_acked_filter.samples@,
                EXTRA_ACKED_FILTER_LEN,
                round_count,
                round_count,
                INFLIGHT_BOUND_CAP,
            );
        }
        self.extra_acked_filter.update(extra, round_count);
    }

    /// The adaptive upper inflight bound.
    pub fn inflight_hi(&self) -> (r: u64)
        ensures
            r == self.inflight_hi,
    {
        self.inflight_hi
    }

    /// The adaptive lower inflight bound.
    pub fn inflight_lo(&self) -> (r: u64)
        ensures
            r == self.inflight_lo,
    {
        self.inflight_lo
    }

    /// Tightens (or re-learns) the upper inflight bound.
    pub fn set_inflight_hi(&mut self, inflight_hi: u64)
        requires
            inflight_hi == UNBOUNDED || inflight_hi <= INFLIGHT_BOUND_CAP,
        ensures
            *final(self) == (Model { inflight_hi, ..*old(self) }),
    {
        self.inflight_hi = inflight_hi;
    }

    /// Tightens the lower inflight bound.
    pub fn set_inflight_lo(&mut self, inflight_lo: u64)
        requires
            inflight_lo == UNBOUNDED || inflight_lo <= INFLIGHT_BOUND_CAP,
        ensures
            *final(self) == (Model { inflight_lo, ..*old(self) }),
    {
        self.inflight_lo = inflight_lo;
    }

    /// Returns the lower inflight bound to unbounded, so that a fresh
    /// bandwidth probe is not throttled by stale loss signals.
    pub fn reset_inflight_lo(&mut self)
        ensures
            *final(self) == (Model { inflight_lo: UNBOUNDED, ..*old(self) }),
    {
        self.inflight_lo = UNBOUNDED;
    }
}

/// Whether this acknowledgment restarts the aggregation epoch: delivery so
/// far does not exceed what the bandwidth estimate predicts.
pub open spec fn spec_aggregation_reset(pre: Model, bw: u64, now: u64) -> bool {
    pre.extra_acked_delivered <= spec_expected_delivered(bw, pre.extra_acked_interval_start, now)
}

/// The aggregation sample recorded for this acknowledgment: delivered bytes
/// of the epoch beyond the expected volume, capped at the congestion window.
pub open spec fn spec_extra_acked_sample(pre: Model, bw: u64, bytes_acked: u64, cwnd: u32, now: u64) -> u64 {
    let reset = spec_aggregation_reset(pre, bw, now);
    let expected = if reset { 0u64 } else { spec_expected_delivered(bw, pre.extra_acked_interval_start, now) };
    let delivered = spec_sat_add(if reset { 0u64 } else { pre.extra_acked_delivered }, bytes_acked);
    let extra = spec_sat_sub(delivered, expected);
    if extra > cwnd as u64 {
        cwnd as u64
    } else {
        extra
    }
}

} // verus!
