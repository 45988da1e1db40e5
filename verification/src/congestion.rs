//! Congestion-signal state.
//!
//! Ingests each rate sample into the path model: feeds the max-bandwidth
//! filter, tracks whether the current loss round saw loss, and at each loss
//! round boundary tightens `inflight_lo` (multiplicative decrease) when loss
//! was observed and the controller is not deliberately probing for
//! bandwidth.

use vstd::prelude::*;

verus! {

use crate::bandwidth::{PacketInfo, RateSample, MAX_BANDWIDTH};
use crate::data_rate;
use crate::data_volume;
use crate::data_volume::{INFLIGHT_BOUND_CAP, UNBOUNDED};
use crate::gain::{lemma_times_bound, Gain};
use crate::{BETA_DENOM, BETA_NUMER};

/// Per-loss-round delivery and loss signals.
#[derive(Clone, Copy, Debug)]
pub struct State {
    /// Whether any loss has been reported in the current loss round.
    pub loss_in_round: bool,
    /// Delivered-bytes watermark that closes the current loss round.
    pub loss_round_delivered: u64,
    /// Whether the most recent sample started a new loss round.
    pub loss_round_start: bool,
    /// The largest delivered-volume signal seen in the current loss round.
    pub inflight_latest: u64,
}

/// The `inflight_lo` value adopted at a lossy round end: the larger of the
/// round's delivered-volume signal and `BETA` times the previous bound
/// (the window itself when the bound was still unbounded), capped at the
/// largest representable bound.
pub open spec fn spec_adapted_inflight_lo(inflight_latest: u64, inflight_lo: u64, cwnd: u32) -> u64 {
    let base = if inflight_lo == UNBOUNDED {
        cwnd as u64
    } else {
        inflight_lo
    };
    let reduced = (Gain { numer: BETA_NUMER, denom: BETA_DENOM }).spec_times(base);
    let lo = if inflight_latest > reduced {
        inflight_latest as int
    } else {
        reduced
    };
    if lo > INFLIGHT_BOUND_CAP {
        INFLIGHT_BOUND_CAP
    } else {
        lo as u64
    }
}

impl State {
    pub fn new() -> (r: State)
        ensures
            !r.loss_in_round,
            r.loss_round_delivered == 0,
            !r.loss_round_start,
            r.inflight_latest == 0,
    {
        State { loss_in_round: false, loss_round_delivered: 0, loss_round_start: false, inflight_latest: 0 }
    }

    /// Ingests one acknowledgment's signals. Updates the max-bandwidth
    /// filter (application-limited samples only count when they raise the
    /// estimate), notes loss, and at a loss-round boundary adapts
    /// `inflight_lo` and advances the filter round.
    pub fn update(
        &mut self,
        packet_info: PacketInfo,
        rate_sample: RateSample,
        delivered_bytes: u64,
        data_rate_model: &mut data_rate::Model,
        data_volume_model: &mut data_volume::Model,
        is_probing_bw: bool,
        cwnd: u32,
    )
        requires
            old(data_rate_model).wf(),
            old(data_volume_model).wf(),
            rate_sample.delivery_rate <= MAX_BANDWIDTH,
        ensures
            final(data_rate_model).wf(),
            final(data_volume_model).wf(),
            // Only the lower inflight bound of the volume model can move here.
            *final(data_volume_model) == (data_volume::Model {
                inflight_lo: final(data_volume_model).inflight_lo,
                ..*old(data_volume_model)
            }),
            final(data_volume_model).inflight_lo == (if spec_round_end(*old(self), packet_info)
                && (old(self).loss_in_round || rate_sample.lost_bytes > 0)
                && !is_probing_bw {
                spec_adapted_inflight_lo(
                    spec_latest(*old(self), rate_sample),
                    old(data_volume_model).inflight_lo,
                    cwnd,
                )
            } else {
                old(data_volume_model).inflight_lo
            }),
            // The bandwidth filter takes the sample unless it is an
            // app-limited sample below the current estimate.
            !rate_sample.is_app_limited || rate_sample.delivery_rate >= old(data_rate_model).spec_bw()
                ==> final(data_rate_model).max_bw_filter.samples@
                    == crate::windowed_filter::prune(
                        old(data_rate_model).max_bw_filter.samples@,
                        data_rate::BW_FILTER_LEN,
                        old(data_rate_model).round,
                    ).push((old(data_rate_model).round, rate_sample.delivery_rate)),
            !rate_sample.is_app_limited || rate_sample.delivery_rate >= old(data_rate_model).spec_bw()
                ==> final(data_rate_model).spec_bw() >= rate_sample.delivery_rate,
            rate_sample.is_app_limited && rate_sample.delivery_rate < old(data_rate_model).spec_bw()
                ==> final(data_rate_model).max_bw_filter == old(data_rate_model).max_bw_filter,
            // The filter's round advances exactly at a loss-round boundary.
            final(data_rate_model).round == (if spec_round_end(*old(self), packet_info) {
                crate::round::spec_round_increment(old(data_rate_model).round)
            } else {
                old(data_rate_model).round
            }),
            final(self).loss_round_start == spec_round_end(*old(self), packet_info),
            final(self).loss_round_delivered == (if spec_round_end(*old(self), packet_info) {
                delivered_bytes
            } else {
                old(self).loss_round_delivered
            }),
            final(self).loss_in_round == (if spec_round_end(*old(self), packet_info) {
                false
            } else {
                old(self).loss_in_round || rate_sample.lost_bytes > 0
            }),
            final(self).inflight_latest == spec_latest(*old(self), rate_sample),
    {
        if rate_sample.delivered_bytes > self.inflight_latest {
            self.inflight_latest = rate_sample.delivered_bytes;
        }
        if rate_sample.lost_bytes > 0 {
            self.loss_in_round = true;
        }

        let current_bw = data_rate_model.bw();
        if !rate_sample.is_app_limited || rate_sample.delivery_rate >= current_bw {
            data_rate_model.update(rate_sample.delivery_rate);
        }

        let round_end = packet_info.delivered_bytes >= self.loss_round_delivered;
        self.loss_round_start = round_end;
        if round_end {
            self.loss_round_delivered = delivered_bytes;
            data_rate_model.advance_round();
            if self.loss_in_round && !is_probing_bw {
                let lo = data_volume_model.inflight_lo();
                let base = if lo == UNBOUNDED { cwnd as u64 } else { lo };
                proof {
                    lemma_times_bound(Gain { numer: BETA_NUMER, denom: BETA_DENOM }, base, 1);
                }
                let reduced = (Gain { numer: BETA_NUMER, denom: BETA_DENOM }).times(base);
                let mut adapted = if self.inflight_latest > reduced {
                    self.inflight_latest
                } else {
                    reduced
                };
                if adapted > INFLIGHT_BOUND_CAP {
                    adapted = INFLIGHT_BOUND_CAP;
                }
                data_volume_model.set_inflight_lo(adapted);
            }
            self.loss_in_round = false;
        }
    }

    /// Advances the per-round delivery signals: at a loss-round start the
    /// latest-signal baseline restarts from the current sample.
    pub fn advance(&mut self, rate_sample: RateSample)
        ensures
            *final(self) == (if old(self).loss_round_start {
                State { inflight_latest: rate_sample.delivered_bytes, ..*old(self) }
            } else {
                *old(self)
            }),
    {
        if self.loss_round_start {
            self.inflight_latest = rate_sample.delivered_bytes;
        }
    }
}

/// Whether this acknowledgment closes the current loss round.
pub open spec fn spec_round_end(pre: State, packet_info: PacketInfo) -> bool {
    packet_info.delivered_bytes >= pre.loss_round_delivered
}

/// The loss round's delivered-volume signal including this sample.
pub open spec fn spec_latest(pre: State, rate_sample: RateSample) -> u64 {
    if rate_sample.delivered_bytes > pre.inflight_latest {
        rate_sample.delivered_bytes
    } else {
        pre.inflight_latest
    }
}

} // verus!
