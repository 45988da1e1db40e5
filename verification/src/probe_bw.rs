//! Bandwidth probing.
//!
//! The ProbeBW cycle has four phases that follow each other in order:
//! `Down` drains the queue built by the last probe, `Cruise` holds steady,
//! `Refill` restores the lower inflight bound so a fresh probe is not
//! throttled, and `Up` pushes the pacing gain above one to look for more
//! bandwidth. The time spent cruising is jittered by a caller-supplied
//! random value so that flows sharing a bottleneck do not probe in phase.

use vstd::prelude::*;

verus! {

use crate::bandwidth::spec_sat_add;
use crate::gain::Gain;

/// Pacing gain while draining the probe's queue: 9/10.
pub const DOWN_PACING_GAIN_NUMER: u64 = 9;
pub const DOWN_PACING_GAIN_DENOM: u64 = 10;

/// Pacing gain while probing up: 5/4.
pub const UP_PACING_GAIN_NUMER: u64 = 5;
pub const UP_PACING_GAIN_DENOM: u64 = 4;

/// Cwnd gain for the whole ProbeBW state: 2.
pub const CWND_GAIN_NUMER: u64 = 2;
pub const CWND_GAIN_DENOM: u64 = 1;

/// Minimum time between bandwidth probes, in nanoseconds (two seconds).
pub const BW_PROBE_WAIT_MIN: u64 = 2_000_000_000;

/// Width of the random jitter added to the probe wait (up to one second).
pub const BW_PROBE_WAIT_JITTER: u64 = 1_000_000_000;

/// The wait before the next bandwidth probe: two seconds plus a random
/// fraction of a second.
pub open spec fn spec_probe_wait(random_value: u64) -> u64 {
    (BW_PROBE_WAIT_MIN + random_value % BW_PROBE_WAIT_JITTER) as u64
}

/// The four phases of the ProbeBW cycle.
#[derive(Clone, Copy, Debug, PartialEq, Eq, Structural)]
pub enum CyclePhase {
    Down,
    Cruise,
    Refill,
    Up,
}

impl CyclePhase {
    /// The pacing gain this cycle phase applies to the bandwidth estimate.
    pub open spec fn spec_pacing_gain(self) -> Gain {
        match self {
            CyclePhase::Down => Gain { numer: DOWN_PACING_GAIN_NUMER, denom: DOWN_PACING_GAIN_DENOM },
            CyclePhase::Cruise => Gain { numer: 1, denom: 1 },
            CyclePhase::Refill => Gain { numer: 1, denom: 1 },
            CyclePhase::Up => Gain { numer: UP_PACING_GAIN_NUMER, denom: UP_PACING_GAIN_DENOM },
        }
    }

    pub fn pacing_gain(&self) -> (r: Gain)
        ensures
            r == self.spec_pacing_gain(),
            r.wf(),
            r.numer <= 3 * r.denom,
    {
        match self {
            CyclePhase::Down => Gain { numer: DOWN_PACING_GAIN_NUMER, denom: DOWN_PACING_GAIN_DENOM },
            CyclePhase::Cruise => Gain { numer: 1, denom: 1 },
            CyclePhase::Refill => Gain { numer: 1, denom: 1 },
            CyclePhase::Up => Gain { numer: UP_PACING_GAIN_NUMER, denom: UP_PACING_GAIN_DENOM },
        }
    }
}

/// The ProbeBW sub-state: the cycle phase, when it began, and how long to
/// cruise before the next probe.
#[derive(Clone, Copy, Debug)]
pub struct State {
    pub cycle_phase: CyclePhase,
    /// When the current cycle phase was entered.
    pub cycle_start_time: u64,
    /// How long to stay off a probe (from `cycle_start_time`) while in
    /// `Down` or `Cruise`.
    pub bw_probe_wait: u64,
}

impl State {
    /// Entering ProbeBW from Drain starts with `Down`, with a jittered
    /// probe wait.
    pub fn new(now: u64, random_value: u64) -> (r: State)
        ensures
            r.cycle_phase is Down,
            r.cycle_start_time == now,
            r.bw_probe_wait == spec_probe_wait(random_value),
    {
        State {
            cycle_phase: CyclePhase::Down,
            cycle_start_time: now,
            bw_probe_wait: BW_PROBE_WAIT_MIN + random_value % BW_PROBE_WAIT_JITTER,
        }
    }

    /// Returning to ProbeBW after a min-RTT probe resumes cruising.
    pub fn new_cruise(now: u64, random_value: u64) -> (r: State)
        ensures
            r.cycle_phase is Cruise,
            r.cycle_start_time == now,
            r.bw_probe_wait == spec_probe_wait(random_value),
    {
        State {
            cycle_phase: CyclePhase::Cruise,
            cycle_start_time: now,
            bw_probe_wait: BW_PROBE_WAIT_MIN + random_value % BW_PROBE_WAIT_JITTER,
        }
    }

    /// The current cycle phase.
    pub fn cycle_phase(&self) -> (r: CyclePhase)
        ensures
            r == self.cycle_phase,
    {
        self.cycle_phase
    }

    /// Whether the probe wait has elapsed, so a fresh probe is due.
    pub fn is_time_to_probe(&self, now: u64) -> (r: bool)
        ensures
            r == (now >= spec_sat_add(self.cycle_start_time, self.bw_probe_wait)),
    {
        now >= self.cycle_start_time.saturating_add(self.bw_probe_wait)
    }

    /// The queue has drained: hold steady until the next probe is due.
    pub fn start_cruise(&mut self)
        requires
            old(self).cycle_phase is Down,
        ensures
            *final(self) == (State { cycle_phase: CyclePhase::Cruise, ..*old(self) }),
    {
        self.cycle_phase = CyclePhase::Cruise;
    }

    /// A probe is due: refill the pipe before pushing above it.
    pub fn start_refill(&mut self, now: u64)
        requires
            old(self).cycle_phase is Down || old(self).cycle_phase is Cruise,
        ensures
            *final(self) == (State {
                cycle_phase: CyclePhase::Refill,
                cycle_start_time: now,
                ..*old(self)
            }),
    {
        self.cycle_phase = CyclePhase::Refill;
        self.cycle_start_time = now;
    }

    /// After one refill round, probe upward.
    pub fn start_up(&mut self, now: u64)
        requires
            old(self).cycle_phase is Refill,
        ensures
            *final(self) == (State { cycle_phase: CyclePhase::Up, cycle_start_time: now, ..*old(self) }),
    {
        self.cycle_phase = CyclePhase::Up;
        self.cycle_start_time = now;
    }

    /// The probe is over (it filled the pipe or hit loss): drain what it
    /// queued and schedule the next probe with fresh jitter.
    pub fn start_down(&mut self, now: u64, random_value: u64)
        requires
            old(self).cycle_phase is Up,
        ensures
            *final(self) == (State {
                cycle_phase: CyclePhase::Down,
                cycle_start_time: now,
                bw_probe_wait: spec_probe_wait(random_value),
            }),
    {
        self.cycle_phase = CyclePhase::Down;
        self.cycle_start_time = now;
        self.bw_probe_wait = BW_PROBE_WAIT_MIN + random_value % BW_PROBE_WAIT_JITTER;
    }
}

} // verus!
