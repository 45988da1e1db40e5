//! Loss-recovery state.
//!
//! A small state machine over not-in-recovery, packet-conservation, and
//! in-recovery growth, driven by congestion events and round starts. It
//! reports whether fast retransmission is currently required and whether
//! the congestion window must obey packet conservation.

use vstd::prelude::*;

verus! {

/// The recovery phases: `Recovered` (not in recovery), `Conservation`
/// (first round of recovery, window limited to outstanding plus newly
/// acked), and `Growth` (still in recovery, normal window rules).
#[derive(Clone, Copy, Debug, PartialEq, Eq, Structural)]
pub enum Phase {
    Recovered,
    Conservation,
    Growth,
}

/// Whether an acknowledgment for this send time ends the episode.
pub open spec fn spec_exits(pre: State, newest_acked_time_sent: u64) -> bool {
    !(pre.phase is Recovered) && newest_acked_time_sent > pre.recovery_start_time
}

/// The recovery state after consuming one acknowledgment.
pub open spec fn spec_after_ack(pre: State, round_start: bool, newest_acked_time_sent: u64) -> State {
    if pre.phase is Recovered {
        pre
    } else if newest_acked_time_sent > pre.recovery_start_time {
        State { phase: Phase::Recovered, needs_fast_retransmission: false, ..pre }
    } else if pre.phase is Conservation && round_start {
        State { phase: Phase::Growth, ..pre }
    } else {
        pre
    }
}

/// Recovery bookkeeping for one connection.
#[derive(Clone, Copy, Debug)]
pub struct State {
    pub phase: Phase,
    /// When the current recovery episode began; packets sent after this
    /// time being acknowledged ends the episode.
    pub recovery_start_time: u64,
    /// True from a congestion event until the next packet is sent.
    pub needs_fast_retransmission: bool,
}

impl State {
    pub fn new() -> (r: State)
        ensures
            r.phase is Recovered,
            !r.needs_fast_retransmission,
    {
        State { phase: Phase::Recovered, recovery_start_time: 0, needs_fast_retransmission: false }
    }

    /// Whether a recovery episode is in progress.
    pub fn in_recovery(&self) -> (r: bool)
        ensures
            r == !(self.phase is Recovered),
    {
        !matches!(self.phase, Phase::Recovered)
    }

    /// Whether the window must not shrink below outstanding-plus-newly-acked.
    pub fn packet_conservation(&self) -> (r: bool)
        ensures
            r == self.phase is Conservation,
    {
        matches!(self.phase, Phase::Conservation)
    }

    /// Whether a fast retransmission is still owed for the latest congestion
    /// event.
    pub fn requires_fast_retransmission(&self) -> (r: bool)
        ensures
            r == self.needs_fast_retransmission,
    {
        self.needs_fast_retransmission
    }

    /// The retransmission owed after a congestion event has been sent.
    pub fn on_packet_sent(&mut self)
        ensures
            final(self).phase == old(self).phase,
            final(self).recovery_start_time == old(self).recovery_start_time,
            !final(self).needs_fast_retransmission,
    {
        self.needs_fast_retransmission = false;
    }

    /// A congestion event opens a recovery episode (in packet-conservation
    /// mode) if none is in progress; a further event during recovery changes
    /// nothing.
    pub fn on_congestion_event(&mut self, now: u64)
        ensures
            *final(self) == (if old(self).phase is Recovered {
                State { phase: Phase::Conservation, recovery_start_time: now, needs_fast_retransmission: true }
            } else {
                *old(self)
            }),
    {
        if matches!(self.phase, Phase::Recovered) {
            self.phase = Phase::Conservation;
            self.recovery_start_time = now;
            self.needs_fast_retransmission = true;
        }
    }

    /// Consumes an acknowledgment: recovery ends once a packet sent after
    /// the episode began is acknowledged; otherwise packet conservation
    /// lapses after one full round. Returns whether recovery just ended.
    pub fn on_ack(&mut self, round_start: bool, newest_acked_time_sent: u64) -> (exited: bool)
        ensures
            *final(self) == spec_after_ack(*old(self), round_start, newest_acked_time_sent),
            exited == spec_exits(*old(self), newest_acked_time_sent),
            *final(self) == (if old(self).phase is Recovered {
                *old(self)
            } else if newest_acked_time_sent > old(self).recovery_start_time {
                State { phase: Phase::Recovered, recovery_start_time: old(self).recovery_start_time, needs_fast_retransmission: false }
            } else if old(self).phase is Conservation && round_start {
                State { phase: Phase::Growth, ..*old(self) }
            } else {
                *old(self)
            }),
            exited == (!(old(self).phase is Recovered) && newest_acked_time_sent > old(self).recovery_start_time),
    {
        if matches!(self.phase, Phase::Recovered) {
            false
        } else if newest_acked_time_sent > self.recovery_start_time {
            self.phase = Phase::Recovered;
            self.needs_fast_retransmission = false;
            true
        } else {
            if matches!(self.phase, Phase::Conservation) && round_start {
                self.phase = Phase::Growth;
            }
            false
        }
    }
}

} // verus!
