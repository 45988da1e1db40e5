//! Delivery-rate sampling.
//!
//! Produces one delivery-rate sample per acknowledgment: the bytes delivered
//! over an interval divided by that interval, computed from a snapshot taken
//! when the acknowledged packet was sent and carried forward in an opaque
//! per-packet token. Also tracks the cumulative delivered-byte and lost-byte
//! counters that the round counter and the congestion-signal state read.
//!
//! Rates are plain `u64` values in bytes per second; timestamps and
//! durations are `u64` nanoseconds.

use vstd::prelude::*;

verus! {

/// Nanoseconds per second, the unit conversion for rate computations.
pub const NANOS_PER_SEC: u64 = 1_000_000_000;

/// Upper cap on any delivery-rate sample (bytes per second). Samples above
/// it carry no usable signal and are saturated so that later gain
/// multiplications stay within `u64`.
pub const MAX_BANDWIDTH: u64 = 1_000_000_000_000_000;

/// The delivery rate over `interval` nanoseconds, saturated to
/// `MAX_BANDWIDTH`; zero when the interval is empty.
pub open spec fn spec_delivery_rate(delivered_bytes: u64, interval: u64) -> u64 {
    if interval == 0 {
        0u64
    } else if delivered_bytes * NANOS_PER_SEC / (interval as int) > MAX_BANDWIDTH {
        MAX_BANDWIDTH
    } else {
        (delivered_bytes * NANOS_PER_SEC / (interval as int)) as u64
    }
}

/// Saturating `u64` addition, as a spec value.
pub open spec fn spec_sat_add(a: u64, b: u64) -> u64 {
    if a + b > u64::MAX {
        u64::MAX
    } else {
        (a + b) as u64
    }
}

/// Saturating `u64` subtraction, as a spec value.
pub open spec fn spec_sat_sub(a: u64, b: u64) -> u64 {
    if a >= b {
        (a - b) as u64
    } else {
        0u64
    }
}

/// The estimator's state after the send-time bookkeeping of one packet.
pub open spec fn spec_after_send(pre: Estimator, bytes_in_flight: u32, app_limited: Option<bool>, now: u64) -> Estimator {
    let restarted = pre.delivered_time == 0 || bytes_in_flight == 0;
    Estimator {
        delivered_time: if restarted { now } else { pre.delivered_time },
        first_sent_time: if restarted { now } else { pre.first_sent_time },
        app_limited_until: if app_limited == Some(true) {
            spec_sat_add(pre.delivered_bytes, bytes_in_flight as u64)
        } else {
            pre.app_limited_until
        },
        ..pre
    }
}

/// The estimator's state after ingesting one acknowledgment: the advanced
/// counters and the fresh rate sample.
pub open spec fn spec_after_ack(pre: Estimator, bytes_acknowledged: u64, newest_acked_time_sent: u64, packet_info: PacketInfo, now: u64) -> Estimator {
    let delivered_bytes = spec_sat_add(pre.delivered_bytes, bytes_acknowledged);
    let send_elapsed = spec_sat_sub(newest_acked_time_sent, packet_info.first_sent_time);
    let ack_elapsed = spec_sat_sub(now, packet_info.delivered_time);
    let interval = if send_elapsed > ack_elapsed { send_elapsed } else { ack_elapsed };
    let delivered_in_interval = spec_sat_sub(delivered_bytes, packet_info.delivered_bytes);
    Estimator {
        delivered_bytes,
        delivered_time: now,
        first_sent_time: newest_acked_time_sent,
        rate_sample: RateSample {
            delivery_rate: spec_delivery_rate(delivered_in_interval, interval),
            interval,
            delivered_bytes: delivered_in_interval,
            lost_bytes: spec_sat_sub(pre.lost_bytes, packet_info.lost_bytes),
            bytes_in_flight: packet_info.bytes_in_flight,
            is_app_limited: packet_info.is_app_limited,
        },
        ..pre
    }
}

/// Per-packet snapshot of the estimator, taken at send time and handed back
/// on the acknowledgment that retires the packet.
#[derive(Clone, Copy, Debug)]
pub struct PacketInfo {
    /// Cumulative delivered bytes when the packet was sent.
    pub delivered_bytes: u64,
    /// Time of the most recent delivery when the packet was sent.
    pub delivered_time: u64,
    /// Cumulative lost bytes when the packet was sent.
    pub lost_bytes: u64,
    /// Send time of the first packet of the sampling interval.
    pub first_sent_time: u64,
    /// Bytes in flight just after the packet was sent.
    pub bytes_in_flight: u32,
    /// Whether the sample the packet will produce is application limited.
    pub is_app_limited: bool,
}

/// One delivery-rate sample, refreshed on every acknowledgment.
#[derive(Clone, Copy, Debug)]
pub struct RateSample {
    /// Estimated delivery rate over the sample interval, bytes per second.
    pub delivery_rate: u64,
    /// Length of the sample interval in nanoseconds.
    pub interval: u64,
    /// Bytes delivered over the sample interval.
    pub delivered_bytes: u64,
    /// Bytes lost since the acknowledged packet was sent.
    pub lost_bytes: u64,
    /// Bytes in flight when the acknowledged packet was sent.
    pub bytes_in_flight: u32,
    /// Whether the sample was taken while application limited.
    pub is_app_limited: bool,
}

impl RateSample {
    pub fn zero() -> (r: RateSample)
        ensures
            r.delivery_rate == 0,
            r.interval == 0,
            r.delivered_bytes == 0,
            r.lost_bytes == 0,
            r.bytes_in_flight == 0,
            !r.is_app_limited,
    {
        RateSample {
            delivery_rate: 0,
            interval: 0,
            delivered_bytes: 0,
            lost_bytes: 0,
            bytes_in_flight: 0,
            is_app_limited: false,
        }
    }
}

/// The delivery-rate estimator.
#[derive(Debug)]
pub struct Estimator {
    /// Cumulative bytes reported delivered; monotonically non-decreasing.
    pub delivered_bytes: u64,
    /// Time of the most recent delivery.
    pub delivered_time: u64,
    /// Send time of the first packet of the current sampling interval.
    pub first_sent_time: u64,
    /// Cumulative bytes reported lost; monotonically non-decreasing.
    pub lost_bytes: u64,
    /// Delivered-bytes watermark below which samples count as application
    /// limited.
    pub app_limited_until: u64,
    /// The most recent rate sample.
    pub rate_sample: RateSample,
}

impl Estimator {
    pub fn new() -> (r: Estimator)
        ensures
            r.delivered_bytes == 0,
            r.delivered_time == 0,
            r.first_sent_time == 0,
            r.lost_bytes == 0,
            r.app_limited_until == 0,
            r.rate_sample.delivery_rate == 0,
            r.rate_sample.lost_bytes == 0,
    {
        Estimator {
            delivered_bytes: 0,
            delivered_time: 0,
            first_sent_time: 0,
            lost_bytes: 0,
            app_limited_until: 0,
            rate_sample: RateSample::zero(),
        }
    }

    /// Cumulative delivered bytes.
    pub fn delivered_bytes(&self) -> (r: u64)
        ensures
            r == self.delivered_bytes,
    {
        self.delivered_bytes
    }

    /// Cumulative lost bytes.
    pub fn lost_bytes(&self) -> (r: u64)
        ensures
            r == self.lost_bytes,
    {
        self.lost_bytes
    }

    /// The most recent rate sample.
    pub fn rate_sample(&self) -> (r: RateSample)
        ensures
            r == self.rate_sample,
    {
        self.rate_sample
    }

    /// Takes the send-time snapshot for a packet. Restarts the sampling
    /// interval when the connection was idle (nothing in flight before this
    /// send), and records the application-limited watermark when the sender
    /// reports it is not limited by the congestion window.
    pub fn on_packet_sent(&mut self, bytes_in_flight: u32, app_limited: Option<bool>, now: u64) -> (r: PacketInfo)
        ensures
            *final(self) == spec_after_send(*old(self), bytes_in_flight, app_limited, now),
            final(self).delivered_time == (if old(self).delivered_time == 0 || bytes_in_flight == 0 { now } else { old(self).delivered_time }),
            final(self).first_sent_time == (if old(self).delivered_time == 0 || bytes_in_flight == 0 { now } else { old(self).first_sent_time }),
            final(self).app_limited_until == (if app_limited == Some(true) {
                spec_sat_add(old(self).delivered_bytes, bytes_in_flight as u64)
            } else {
                old(self).app_limited_until
            }),
            final(self).delivered_bytes == old(self).delivered_bytes,
            final(self).lost_bytes == old(self).lost_bytes,
            final(self).rate_sample == old(self).rate_sample,
            r.delivered_bytes == final(self).delivered_bytes,
            r.delivered_time == final(self).delivered_time,
            r.lost_bytes == final(self).lost_bytes,
            r.first_sent_time == final(self).first_sent_time,
            r.bytes_in_flight == bytes_in_flight,
            r.is_app_limited == (final(self).delivered_bytes < final(self).app_limited_until),
    {
        if self.delivered_time == 0 || bytes_in_flight == 0 {
            // Restarting from idle: open a fresh sampling interval.
            self.delivered_time = now;
            self.first_sent_time = now;
        }
        if let Some(true) = app_limited {
            self.app_limited_until = self.delivered_bytes.saturating_add(bytes_in_flight as u64);
        }
        PacketInfo {
            delivered_bytes: self.delivered_bytes,
            delivered_time: self.delivered_time,
            lost_bytes: self.lost_bytes,
            first_sent_time: self.first_sent_time,
            bytes_in_flight,
            is_app_limited: self.delivered_bytes < self.app_limited_until,
        }
    }

    /// Ingests an acknowledgment: advances the delivered counter and derives
    /// the delivery-rate sample from the acknowledged packet's snapshot. The
    /// interval is the longer of the send-side and ack-side spans, so a
    /// sample can never be inflated by ack compression.
    pub fn on_ack(&mut self, bytes_acknowledged: usize, newest_acked_time_sent: u64, packet_info: PacketInfo, now: u64)
        ensures
            *final(self) == spec_after_ack(*old(self), bytes_acknowledged as u64, newest_acked_time_sent, packet_info, now),
            final(self).delivered_bytes == spec_sat_add(old(self).delivered_bytes, bytes_acknowledged as u64),
            final(self).delivered_time == now,
            final(self).first_sent_time == newest_acked_time_sent,
            final(self).lost_bytes == old(self).lost_bytes,
            final(self).app_limited_until == old(self).app_limited_until,
            final(self).rate_sample.interval == vstd::math::max(
                spec_sat_sub(newest_acked_time_sent, packet_info.first_sent_time) as int,
                spec_sat_sub(now, packet_info.delivered_time) as int,
            ),
            final(self).rate_sample.delivered_bytes == spec_sat_sub(final(self).delivered_bytes, packet_info.delivered_bytes),
            final(self).rate_sample.lost_bytes == spec_sat_sub(old(self).lost_bytes, packet_info.lost_bytes),
            final(self).rate_sample.delivery_rate == spec_delivery_rate(
                final(self).rate_sample.delivered_bytes,
                final(self).rate_sample.interval,
            ),
            final(self).rate_sample.delivery_rate <= MAX_BANDWIDTH,
            final(self).rate_sample.bytes_in_flight == packet_info.bytes_in_flight,
            final(self).rate_sample.is_app_limited == packet_info.is_app_limited,
    {
        self.delivered_bytes = self.delivered_bytes.saturating_add(bytes_acknowledged as u64);
        self.delivered_time = now;

        let send_elapsed = newest_acked_time_sent.saturating_sub(packet_info.first_sent_time);
        let ack_elapsed = now.saturating_sub(packet_info.delivered_time);
        let interval = if send_elapsed > ack_elapsed { send_elapsed } else { ack_elapsed };
        self.first_sent_time = newest_acked_time_sent;

        let delivered_in_interval = self.delivered_bytes.saturating_sub(packet_info.delivered_bytes);
        let lost_in_interval = self.lost_bytes.saturating_sub(packet_info.lost_bytes);
        let delivery_rate = if interval == 0 {
            0u64
        } else {
            let rate = (delivered_in_interval as u128) * (NANOS_PER_SEC as u128) / (interval as u128);
            if rate > MAX_BANDWIDTH as u128 {
                MAX_BANDWIDTH
            } else {
                rate as u64
            }
        };
        self.rate_sample = RateSample {
            delivery_rate,
            interval,
            delivered_bytes: delivered_in_interval,
            lost_bytes: lost_in_interval,
            bytes_in_flight: packet_info.bytes_in_flight,
            is_app_limited: packet_info.is_app_limited,
        };
    }

    /// Records newly lost bytes.
    pub fn on_loss(&mut self, lost_bytes: usize)
        ensures
            final(self).lost_bytes == spec_sat_add(old(self).lost_bytes, lost_bytes as u64),
            final(self).delivered_bytes == old(self).delivered_bytes,
            final(self).delivered_time == old(self).delivered_time,
            final(self).first_sent_time == old(self).first_sent_time,
            final(self).app_limited_until == old(self).app_limited_until,
            final(self).rate_sample == old(self).rate_sample,
    {
        self.lost_bytes = self.lost_bytes.saturating_add(lost_bytes as u64);
    }
}

} // verus!
