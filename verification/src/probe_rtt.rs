//! Minimum-RTT probing.
//!
//! ProbeRTT forces the window down to a small constant so the bottleneck
//! queue drains and an unbiased RTT sample can be taken. The sub-state is
//! just the end of the dwell: it is scheduled once the bytes in flight have
//! come down to the probe window, and the phase is left when it passes.

use vstd::prelude::*;

verus! {

use crate::bandwidth::spec_sat_add;
use crate::gain::Gain;

/// Pacing gain while probing for the RTT: 1.
pub const PACING_GAIN_NUMER: u64 = 1;
pub const PACING_GAIN_DENOM: u64 = 1;

/// Cwnd gain while probing for the RTT: 1/2 of the BDP.
pub const CWND_GAIN_NUMER: u64 = 1;
pub const CWND_GAIN_DENOM: u64 = 2;

/// How long to dwell at the probe window once reached, in nanoseconds
/// (200 milliseconds).
pub const PROBE_RTT_DURATION: u64 = 200_000_000;

/// The ProbeRTT sub-state: when the dwell ends, once it has started.
#[derive(Clone, Copy, Debug)]
pub struct State {
    /// Set once the bytes in flight have drained to the probe window;
    /// the phase is left when this time passes.
    pub exit_time: Option<u64>,
}

impl State {
    pub fn new() -> (r: State)
        ensures
            r.exit_time is None,
    {
        State { exit_time: None }
    }

    /// The inflight target has been reached: dwell for the probe duration.
    pub fn schedule_exit(&mut self, now: u64)
        ensures
            final(self).exit_time == Some(spec_sat_add(now, PROBE_RTT_DURATION)),
    {
        self.exit_time = Some(now.saturating_add(PROBE_RTT_DURATION));
    }

    /// The gain pair applied to the BDP for the probe window.
    pub fn cwnd_gain() -> (r: Gain)
        ensures
            r == (Gain { numer: CWND_GAIN_NUMER, denom: CWND_GAIN_DENOM }),
    {
        Gain { numer: CWND_GAIN_NUMER, denom: CWND_GAIN_DENOM }
    }
}

} // verus!
