//! Round counting.
//!
//! A round trip ends when an acknowledged packet was sent at or after the
//! moment the previous round's delivered-bytes watermark was recorded: the
//! packet's own send-time snapshot of cumulative delivered bytes has caught
//! up with the watermark. Rounds are the time base for the windowed filters
//! and for once-per-round updates.

use vstd::prelude::*;

verus! {

use crate::bandwidth::PacketInfo;

/// Detects round boundaries from delivered-bytes watermarks.
#[derive(Clone, Copy, Debug)]
pub struct Counter {
    /// Monotonically increasing round index.
    pub round_count: u64,
    /// True exactly when the most recent acknowledgment started a new round.
    pub round_start: bool,
    /// Cumulative-delivered-bytes watermark that closes the current round.
    pub next_round_delivered: u64,
}

impl Counter {
    pub fn new() -> (r: Counter)
        ensures
            r.round_count == 0,
            !r.round_start,
            r.next_round_delivered == 0,
    {
        Counter { round_count: 0, round_start: false, next_round_delivered: 0 }
    }

    /// The current round index.
    pub fn round_count(&self) -> (r: u64)
        ensures
            r == self.round_count,
    {
        self.round_count
    }

    /// Whether the most recent acknowledgment started a new round.
    pub fn round_start(&self) -> (r: bool)
        ensures
            r == self.round_start,
    {
        self.round_start
    }

    /// Advances the round when the acknowledged packet's snapshot shows the
    /// watermark has been crossed, and records the new watermark from the
    /// current cumulative delivered bytes.
    pub fn on_ack(&mut self, packet_info: PacketInfo, delivered_bytes: u64)
        ensures
            *final(self) == spec_after_ack(*old(self), packet_info, delivered_bytes),
            final(self).round_start == (packet_info.delivered_bytes >= old(self).next_round_delivered),
            final(self).round_count == (if packet_info.delivered_bytes >= old(self).next_round_delivered {
                spec_round_increment(old(self).round_count)
            } else {
                old(self).round_count
            }),
            final(self).next_round_delivered == (if packet_info.delivered_bytes >= old(self).next_round_delivered {
                delivered_bytes
            } else {
                old(self).next_round_delivered
            }),
            final(self).round_count >= old(self).round_count,
    {
        if packet_info.delivered_bytes >= self.next_round_delivered {
            self.next_round_delivered = delivered_bytes;
            self.round_count = self.round_count.saturating_add(1);
            self.round_start = true;
        } else {
            self.round_start = false;
        }
    }
}

/// The counter's state after one acknowledgment.
pub open spec fn spec_after_ack(pre: Counter, packet_info: PacketInfo, delivered_bytes: u64) -> Counter {
    if packet_info.delivered_bytes >= pre.next_round_delivered {
        Counter {
            round_count: spec_round_increment(pre.round_count),
            round_start: true,
            next_round_delivered: delivered_bytes,
        }
    } else {
        Counter { round_start: false, ..pre }
    }
}

/// A round index advance, saturating at the top of the counter's range.
pub open spec fn spec_round_increment(round_count: u64) -> u64 {
    if round_count == u64::MAX {
        u64::MAX
    } else {
        (round_count + 1) as u64
    }
}

} // verus!
