//! A congestion controller for a reliable transport: Bottleneck Bandwidth
//! and Round-trip propagation time, version 2.
//!
//! From a stream of packet-send, acknowledgment, and loss events it
//! estimates the bottleneck bandwidth and the minimum round-trip time of
//! the path, and derives a congestion window, a pacing rate, a send
//! quantum, and the earliest departure time for the next packet.
//!
//! Timestamps and durations are `u64` nanoseconds; rates are `u64` bytes
//! per second; all gains and thresholds are exact rationals.

pub mod bandwidth;
pub mod congestion;
pub mod data_rate;
pub mod data_volume;
pub mod full_pipe;
pub mod gain;
pub mod probe_bw;
pub mod probe_rtt;
pub mod recovery;
pub mod round;
pub mod windowed_filter;

use vstd::prelude::*;

verus! {

use vstd::math::{max as int_max, min as int_min};

use crate::bandwidth::{spec_sat_add, PacketInfo, RateSample, MAX_BANDWIDTH, NANOS_PER_SEC};
use crate::data_volume::UNBOUNDED;
use crate::gain::{lemma_times_bound, lemma_times_monotonic, Gain};
use crate::probe_bw::CyclePhase;

/// The maximum tolerated per-round loss rate when probing for bandwidth:
/// one fiftieth (2%) of the bytes in flight.
pub const LOSS_THRESH_NUMER: u64 = 1;
pub const LOSS_THRESH_DENOM: u64 = 50;

/// The multiplicative decrease applied to inflight bounds on loss: 7/10.
pub const BETA_NUMER: u64 = 7;
pub const BETA_DENOM: u64 = 10;

/// The fraction of `inflight_hi` kept when leaving headroom for cross
/// traffic: 85/100.
pub const HEADROOM_NUMER: u64 = 85;
pub const HEADROOM_DENOM: u64 = 100;

/// The pacing safety margin: the pacing rate is 99/100 of gain times
/// bandwidth, so pacing never quite fills the estimated bottleneck.
pub const PACING_MARGIN_NUMER: u64 = 99;
pub const PACING_MARGIN_DENOM: u64 = 100;

/// Number of full-sized datagrams the congestion window must always hold,
/// so that delayed-ACK peers keep the pipeline busy.
pub const MIN_PIPE_CWND_PACKETS: u16 = 4;

/// Startup pacing gain, 277/100: fast enough to double the sending rate
/// each round while bandwidth keeps growing.
pub const STARTUP_PACING_GAIN_NUMER: u64 = 277;
pub const STARTUP_PACING_GAIN_DENOM: u64 = 100;

/// Startup cwnd gain: 2.
pub const STARTUP_CWND_GAIN_NUMER: u64 = 2;
pub const STARTUP_CWND_GAIN_DENOM: u64 = 1;

/// Drain pacing gain, 1/2: the inverse of the startup cwnd gain, to drain
/// the queue startup built.
pub const DRAIN_PACING_GAIN_NUMER: u64 = 1;
pub const DRAIN_PACING_GAIN_DENOM: u64 = 2;

/// Drain cwnd gain: 2, unchanged from startup.
pub const DRAIN_CWND_GAIN_NUMER: u64 = 2;
pub const DRAIN_CWND_GAIN_DENOM: u64 = 1;

/// The larger of 14720 bytes and two datagrams, limiting the initial window.
pub const INITIAL_WINDOW_LIMIT: u32 = 14720;

/// Pacing rates below this (1.2 megabits per second, in bytes per second)
/// keep the send quantum at a single datagram.
pub const SEND_QUANTUM_THRESHOLD: u64 = 150_000;

/// Ceiling on the send quantum: 64 kilobytes.
pub const MAX_SEND_QUANTUM: u64 = 64_000;

/// Cap on the raw bandwidth-delay product, so that gain multiplications
/// stay within `u64`.
pub const MAX_BDP: u64 = 4_000_000_000_000_000;

/// The top-level phase of the controller.
///
/// Transition legality (enforced by `transition_to`): `Startup` may only be
/// entered from `ProbeRtt` (it is also the initial state); `Drain` only
/// from `Startup`; `ProbeBw` only from `Drain` or `ProbeRtt`; `ProbeRtt`
/// from anywhere.
#[derive(Clone, Copy, Debug)]
pub enum State {
    Startup,
    Drain,
    ProbeBw(probe_bw::State),
    ProbeRtt(probe_rtt::State),
}

impl State {
    /// The dynamic gain factor used to scale the bandwidth estimate into
    /// the pacing rate.
    pub open spec fn spec_pacing_gain(self) -> Gain {
        match self {
            State::Startup => Gain { numer: STARTUP_PACING_GAIN_NUMER, denom: STARTUP_PACING_GAIN_DENOM },
            State::Drain => Gain { numer: DRAIN_PACING_GAIN_NUMER, denom: DRAIN_PACING_GAIN_DENOM },
            State::ProbeBw(probe_bw_state) => probe_bw_state.cycle_phase.spec_pacing_gain(),
            State::ProbeRtt(_) => Gain { numer: probe_rtt::PACING_GAIN_NUMER, denom: probe_rtt::PACING_GAIN_DENOM },
        }
    }

    /// The dynamic gain factor used to scale the estimated BDP into a
    /// congestion window.
    pub open spec fn spec_cwnd_gain(self) -> Gain {
        match self {
            State::Startup => Gain { numer: STARTUP_CWND_GAIN_NUMER, denom: STARTUP_CWND_GAIN_DENOM },
            State::Drain => Gain { numer: DRAIN_CWND_GAIN_NUMER, denom: DRAIN_CWND_GAIN_DENOM },
            State::ProbeBw(_) => Gain { numer: probe_bw::CWND_GAIN_NUMER, denom: probe_bw::CWND_GAIN_DENOM },
            State::ProbeRtt(_) => Gain { numer: probe_rtt::CWND_GAIN_NUMER, denom: probe_rtt::CWND_GAIN_DENOM },
        }
    }

    /// True when the state is ProbeBw with its cycle in `Up`.
    pub open spec fn spec_is_probing_bw_up(self) -> bool {
        match self {
            State::ProbeBw(probe_bw_state) => probe_bw_state.cycle_phase is Up,
            _ => false,
        }
    }

    /// True when the state is ProbeBw with its cycle in `Cruise`.
    pub open spec fn spec_is_probing_bw_cruise(self) -> bool {
        match self {
            State::ProbeBw(probe_bw_state) => probe_bw_state.cycle_phase is Cruise,
            _ => false,
        }
    }

    /// The transition legality table.
    pub open spec fn valid_transition(from: State, to: State) -> bool {
        match to {
            State::Startup => from is ProbeRtt,
            State::Drain => from is Startup,
            State::ProbeBw(_) => from is Drain || from is ProbeRtt,
            State::ProbeRtt(_) => true,
        }
    }

    pub fn pacing_gain(&self) -> (r: Gain)
        ensures
            r == self.spec_pacing_gain(),
            r.wf(),
            r.numer <= 3 * r.denom,
    {
        match self {
            State::Startup => Gain { numer: STARTUP_PACING_GAIN_NUMER, denom: STARTUP_PACING_GAIN_DENOM },
            State::Drain => Gain { numer: DRAIN_PACING_GAIN_NUMER, denom: DRAIN_PACING_GAIN_DENOM },
            State::ProbeBw(probe_bw_state) => probe_bw_state.cycle_phase().pacing_gain(),
            State::ProbeRtt(_) => Gain { numer: probe_rtt::PACING_GAIN_NUMER, denom: probe_rtt::PACING_GAIN_DENOM },
        }
    }

    pub fn cwnd_gain(&self) -> (r: Gain)
        ensures
            r == self.spec_cwnd_gain(),
            r.wf(),
            r.numer <= 4 * r.denom,
    {
        match self {
            State::Startup => Gain { numer: STARTUP_CWND_GAIN_NUMER, denom: STARTUP_CWND_GAIN_DENOM },
            State::Drain => Gain { numer: DRAIN_CWND_GAIN_NUMER, denom: DRAIN_CWND_GAIN_DENOM },
            State::ProbeBw(_) => Gain { numer: probe_bw::CWND_GAIN_NUMER, denom: probe_bw::CWND_GAIN_DENOM },
            State::ProbeRtt(_) => Gain { numer: probe_rtt::CWND_GAIN_NUMER, denom: probe_rtt::CWND_GAIN_DENOM },
        }
    }

    /// True if the current state is Startup.
    pub fn is_startup(&self) -> (r: bool)
        ensures
            r == self is Startup,
    {
        matches!(self, State::Startup)
    }

    /// True if the current state is Drain.
    pub fn is_drain(&self) -> (r: bool)
        ensures
            r == self is Drain,
    {
        matches!(self, State::Drain)
    }

    /// True if the current state is ProbeBw.
    pub fn is_probing_bw(&self) -> (r: bool)
        ensures
            r == self is ProbeBw,
    {
        matches!(self, State::ProbeBw(_))
    }

    /// True if the current state is ProbeBw and the cycle phase is `Up`.
    pub fn is_probing_bw_up(&self) -> (r: bool)
        ensures
            r == self.spec_is_probing_bw_up(),
    {
        if let State::ProbeBw(probe_bw_state) = self {
            return probe_bw_state.cycle_phase() == CyclePhase::Up;
        }
        false
    }

    /// True if the current state is ProbeBw and the cycle phase is `Cruise`.
    pub fn is_probing_bw_cruise(&self) -> (r: bool)
        ensures
            r == self.spec_is_probing_bw_cruise(),
    {
        if let State::ProbeBw(probe_bw_state) = self {
            return probe_bw_state.cycle_phase() == CyclePhase::Cruise;
        }
        false
    }

    /// True if the current state is ProbeRtt.
    pub fn is_probing_rtt(&self) -> (r: bool)
        ensures
            r == self is ProbeRtt,
    {
        matches!(self, State::ProbeRtt(_))
    }

    /// Transition to the given `new_state`. Only the transitions of the
    /// legality table are accepted; every caller is checked against it.
    pub fn transition_to(&mut self, new_state: State)
        requires
            State::valid_transition(*old(self), new_state),
        ensures
            *final(self) == new_state,
    {
        *self = new_state;
    }
}

/// The smallest window the controller ever targets: four datagrams.
pub open spec fn spec_minimum_window(max_datagram_size: u16) -> int {
    (MIN_PIPE_CWND_PACKETS as int) * (max_datagram_size as int)
}

/// Ten datagrams, limited to the larger of 14720 bytes and two datagrams.
pub open spec fn spec_initial_window(max_datagram_size: u16) -> int {
    int_min(
        10 * (max_datagram_size as int),
        int_max(INITIAL_WINDOW_LIMIT as int, 2 * (max_datagram_size as int)),
    )
}

/// The raw bandwidth-delay product in bytes, capped at `MAX_BDP`.
pub open spec fn spec_bdp_value(bw: u64, min_rtt: u64) -> u64 {
    if bw * min_rtt / (NANOS_PER_SEC as int) > MAX_BDP {
        MAX_BDP
    } else {
        (bw * min_rtt / (NANOS_PER_SEC as int)) as u64
    }
}

/// The pacing rate derived from a bandwidth estimate and a pacing gain:
/// gain times bandwidth, discounted by the pacing margin, and never zero
/// (a zero rate would stall the departure-time schedule).
pub open spec fn spec_pacing_rate(bw: u64, pacing_gain: Gain) -> int {
    let scaled = pacing_gain.spec_times(bw);
    let margined = (PACING_MARGIN_NUMER as int) * scaled / (PACING_MARGIN_DENOM as int);
    if margined < 1 {
        1
    } else {
        margined
    }
}

/// Law: with a fixed pacing gain, the pacing rate is monotone in the
/// bandwidth estimate. Together with the pacing clauses of `on_ack` this
/// gives the pacing-rate monotonicity guarantee: while the pipe has not
/// been filled the rate never decreases at all, and once it has been
/// filled the rate is a fixed monotone function of gain and bandwidth, so
/// it can only decrease when a phase change lowers the gain or the
/// windowed bandwidth estimate itself decays.
pub proof fn lemma_pacing_rate_monotonic(pacing_gain: Gain, bw1: u64, bw2: u64)
    requires
        pacing_gain.wf(),
        bw1 <= bw2,
    ensures
        spec_pacing_rate(bw1, pacing_gain) <= spec_pacing_rate(bw2, pacing_gain),
{
    lemma_times_monotonic(pacing_gain, bw1, bw2);
    let s1 = pacing_gain.spec_times(bw1);
    let s2 = pacing_gain.spec_times(bw2);
    vstd::arithmetic::mul::lemma_mul_left_inequality(PACING_MARGIN_NUMER as int, s1, s2);
    vstd::arithmetic::div_mod::lemma_div_is_ordered(
        (PACING_MARGIN_NUMER as int) * s1,
        (PACING_MARGIN_NUMER as int) * s2,
        PACING_MARGIN_DENOM as int,
    );
}

/// Whether the state is a ProbeRTT dwell whose scheduled exit has passed.
pub open spec fn spec_probe_rtt_exit_due(state: State, now: u64) -> bool {
    match state {
        State::ProbeRtt(probe_rtt_state) => match probe_rtt_state.exit_time {
            Some(exit_time) => now >= exit_time,
            None => false,
        },
        _ => false,
    }
}

/// The inflight target that ends Drain: the quantized unity-gain BDP,
/// saturated to the window's range.
pub open spec fn spec_drain_target(pre: BbrCongestionController) -> int {
    int_min(
        pre.spec_quantization_budget(pre.spec_bdp_multiple(pre.spec_bw(), Gain { numer: 1u64, denom: 1u64 })),
        u32::MAX as int,
    )
}

/// Whether the min-RTT estimate stood expired at `now`, before the sample
/// of the acknowledgment being processed refreshed it.
pub open spec fn spec_min_rtt_expired_at(pre: BbrCongestionController, now: u64) -> bool {
    &&& pre.data_volume_model.min_rtt is Some
    &&& now >= spec_sat_add(pre.data_volume_model.min_rtt_timestamp, data_volume::MIN_RTT_EXPIRY)
}

/// The window as it stands when the per-ack control parameters run: the
/// window before the call, restored on leaving recovery and again on
/// leaving a ProbeRTT dwell.
pub open spec fn spec_cwnd_before_control(pre: BbrCongestionController, newest_acked_time_sent: u64, ack_receive_time: u64) -> u32 {
    let restored = if recovery::spec_exits(pre.recovery_state, newest_acked_time_sent) {
        int_max(pre.cwnd as int, pre.prior_cwnd as int)
    } else {
        pre.cwnd as int
    };
    let after_probe = if spec_probe_rtt_exit_due(pre.state, ack_receive_time) {
        int_max(restored, pre.prior_cwnd as int)
    } else {
        restored
    };
    after_probe as u32
}

/// Law: across two states of the controller that both have the pipe
/// filled — so each pacing rate is the exact gain-scaled bandwidth that
/// `on_ack` guarantees — the pacing rate cannot decrease as long as no
/// phase change lowered the gain and the windowed bandwidth estimate did
/// not decay.
pub proof fn lemma_pacing_monotonic_across_acks(
    pre: BbrCongestionController,
    post: BbrCongestionController,
)
    requires
        pre.full_pipe_estimator.filled_pipe,
        post.full_pipe_estimator.filled_pipe,
        pre.pacing_rate == spec_pacing_rate(pre.spec_bw(), pre.state.spec_pacing_gain()),
        post.pacing_rate == spec_pacing_rate(post.spec_bw(), post.state.spec_pacing_gain()),
        post.state.spec_pacing_gain() == pre.state.spec_pacing_gain(),
        pre.state.spec_pacing_gain().wf(),
        pre.spec_bw() <= post.spec_bw(),
    ensures
        pre.pacing_rate <= post.pacing_rate,
{
    lemma_pacing_rate_monotonic(pre.state.spec_pacing_gain(), pre.spec_bw(), post.spec_bw());
}

/// Law: the model bound on the window survives every event that can only
/// shrink or keep the window while leaving the phase, the volume model,
/// and the datagram size alone — which is what the send, loss, congestion
/// and discard events guarantee. Together with `on_ack`, which
/// re-establishes the bound outright, the window of every reachable state
/// stays between the minimum window and the model bound; the one event
/// outside this lemma's hypotheses is a datagram-size change, which keeps
/// the lower bound by raising the window and re-acquires the upper bound
/// at the next acknowledgment.
pub proof fn lemma_window_bound_preserved(
    pre: BbrCongestionController,
    post: BbrCongestionController,
)
    requires
        pre.cwnd <= pre.spec_bound_cwnd_for_model(),
        post.cwnd <= pre.cwnd,
        post.state == pre.state,
        post.data_volume_model == pre.data_volume_model,
        post.max_datagram_size == pre.max_datagram_size,
    ensures
        post.cwnd <= post.spec_bound_cwnd_for_model(),
{
}

/// The BBRv2 congestion controller for one connection.
#[derive(Debug)]
pub struct BbrCongestionController {
    pub state: State,
    pub round_counter: round::Counter,
    pub bw_estimator: bandwidth::Estimator,
    pub full_pipe_estimator: full_pipe::Estimator,
    /// Bytes sent and not yet acknowledged or discarded.
    pub bytes_in_flight: u32,
    /// The congestion window, in bytes.
    pub cwnd: u32,
    /// The last known-good window, saved across recovery and ProbeRTT.
    pub prior_cwnd: u32,
    pub recovery_state: recovery::State,
    pub congestion_state: congestion::State,
    pub data_rate_model: data_rate::Model,
    pub data_volume_model: data_volume::Model,
    pub max_datagram_size: u16,
    /// True if the connection is restarting after being idle.
    pub idle_restart: bool,
    /// True if rate samples reflect bandwidth probing.
    pub bw_probe_samples: bool,
    /// The current pacing rate, bytes per second; always at least one.
    pub pacing_rate: u64,
    /// The earliest departure time for the next packet, if one is paced.
    pub next_departure_time: Option<u64>,
    /// The maximum size of a data aggregate scheduled together, bytes.
    pub send_quantum: usize,
}

impl BbrCongestionController {
    /// The controller's well-formedness: the window never falls below the
    /// minimum window, pacing never stalls, and every model is within the
    /// bounds its arithmetic needs.
    pub open spec fn wf(self) -> bool {
        &&& self.cwnd >= spec_minimum_window(self.max_datagram_size)
        &&& self.pacing_rate >= 1
        &&& self.send_quantum <= 131_070
        &&& self.data_rate_model.wf()
        &&& self.data_volume_model.wf()
        &&& self.full_pipe_estimator.wf()
        &&& self.data_volume_model.extra_acked_filter.latest_tick <= self.round_counter.round_count
        &&& self.bw_estimator.rate_sample.delivery_rate <= MAX_BANDWIDTH
    }

    /// The current bandwidth estimate of the data-rate model.
    pub open spec fn spec_bw(self) -> u64 {
        self.data_rate_model.spec_bw()
    }

    /// The bandwidth-delay product scaled by `gain`; before any RTT sample
    /// exists the initial window stands in, since there is no estimate.
    pub open spec fn spec_bdp_multiple(self, bw: u64, gain: Gain) -> int {
        match self.data_volume_model.min_rtt {
            Some(min_rtt) => gain.spec_times(spec_bdp_value(bw, min_rtt)),
            None => spec_initial_window(self.max_datagram_size),
        }
    }

    /// The quantization budget: room for at least three send quanta and
    /// the minimum window, plus two datagrams while probing up.
    pub open spec fn spec_quantization_budget(self, inflight: int) -> int {
        let budget = int_max(
            int_max(inflight, 3 * (self.send_quantum as int)),
            spec_minimum_window(self.max_datagram_size),
        );
        if self.state.spec_is_probing_bw_up() {
            budget + 2 * (self.max_datagram_size as int)
        } else {
            budget
        }
    }

    /// The inflight volume that fully uses the estimated path: BDP scaled
    /// by the cwnd gain, plus the aggregation allowance, quantized.
    pub open spec fn spec_max_inflight(self) -> int {
        self.spec_quantization_budget(
            self.spec_bdp_multiple(self.spec_bw(), self.state.spec_cwnd_gain())
                + self.data_volume_model.spec_extra_acked(),
        )
    }

    /// `inflight_hi` reduced by the headroom fraction, floored at the
    /// minimum window; unbounded stays unbounded.
    pub open spec fn spec_inflight_with_headroom(self) -> int {
        if self.data_volume_model.inflight_hi == UNBOUNDED {
            u32::MAX as int
        } else {
            let headroom = int_max(
                1,
                (Gain { numer: HEADROOM_NUMER, denom: HEADROOM_DENOM }).spec_times(
                    self.data_volume_model.inflight_hi,
                ),
            );
            int_max(
                int_max(self.data_volume_model.inflight_hi - headroom, 0),
                spec_minimum_window(self.max_datagram_size),
            )
        }
    }

    /// The window cap the model imposes: `inflight_hi` while probing for
    /// bandwidth outside Cruise, the headroom-reduced bound while cruising
    /// or probing the RTT, unbounded otherwise; intersected with
    /// `inflight_lo` and floored at the minimum window.
    pub open spec fn spec_bound_cwnd_for_model(self) -> int {
        let inflight_hi = int_min(self.data_volume_model.inflight_hi as int, u32::MAX as int);
        let inflight_lo = int_min(self.data_volume_model.inflight_lo as int, u32::MAX as int);
        let cap = if self.state is ProbeBw && !self.state.spec_is_probing_bw_cruise() {
            inflight_hi
        } else if self.state is ProbeRtt || self.state.spec_is_probing_bw_cruise() {
            self.spec_inflight_with_headroom()
        } else {
            u32::MAX as int
        };
        int_max(int_min(cap, inflight_lo), spec_minimum_window(self.max_datagram_size))
    }

    /// The window held while dwelling in ProbeRTT: half the BDP, floored
    /// at the minimum window.
    pub open spec fn spec_probe_rtt_cwnd(self) -> int {
        int_max(
            int_min(
                self.spec_bdp_multiple(self.spec_bw(), Gain { numer: probe_rtt::CWND_GAIN_NUMER, denom: probe_rtt::CWND_GAIN_DENOM }),
                u32::MAX as int,
            ),
            spec_minimum_window(self.max_datagram_size),
        )
    }

    /// The window after one acknowledgment of `acked` bytes: packet
    /// conservation first, then growth (capped once the pipe is filled),
    /// then the ProbeRTT dwell bound, then the clamp to the model bound
    /// and the minimum window.
    pub open spec fn spec_cwnd_after_ack(self, acked: u32) -> int {
        let max_inflight = int_min(self.spec_max_inflight(), u32::MAX as int);
        let grown = if self.recovery_state.phase is Conservation {
            int_max(self.cwnd as int, int_min(self.bytes_in_flight + acked, u32::MAX as int))
        } else if self.full_pipe_estimator.filled_pipe {
            int_min(int_min(self.cwnd + acked, u32::MAX as int), max_inflight)
        } else if self.cwnd < max_inflight
            || self.bw_estimator.delivered_bytes < spec_initial_window(self.max_datagram_size) {
            int_min(self.cwnd + acked, u32::MAX as int)
        } else {
            self.cwnd as int
        };
        let dwell = if self.state is ProbeRtt {
            int_min(grown, self.spec_probe_rtt_cwnd())
        } else {
            grown
        };
        let bound = self.spec_bound_cwnd_for_model();
        if dwell < spec_minimum_window(self.max_datagram_size) {
            spec_minimum_window(self.max_datagram_size)
        } else if dwell > bound {
            bound
        } else {
            dwell
        }
    }
}

/// Whether `lost_bytes` exceeds the loss threshold: more than one fiftieth
/// of the bytes that were in flight.
pub open spec fn spec_is_inflight_too_high(lost_bytes: u64, bytes_inflight: u32) -> bool {
    lost_bytes > (Gain { numer: LOSS_THRESH_NUMER, denom: LOSS_THRESH_DENOM }).spec_times(
        bytes_inflight as u64,
    )
}

/// The nanoseconds needed to pace `packet_size` bytes out at `pacing_rate`
/// bytes per second.
pub open spec fn spec_pacing_delay(packet_size: u64, pacing_rate: u64) -> u64 {
    ((packet_size * NANOS_PER_SEC) / (pacing_rate as int)) as u64
}

/// Where the next pacing delay is measured from: the previous scheduled
/// departure when it still lies ahead, otherwise now.
pub open spec fn spec_departure_base(previous: Option<u64>, now: u64) -> u64 {
    match previous {
        Some(departure) => if departure > now { departure } else { now },
        None => now,
    }
}

/// The send quantum: the bytes paced out in one millisecond, kept between
/// a one-or-two-datagram floor and a 64 kilobyte ceiling.
pub open spec fn spec_send_quantum(pre: BbrCongestionController) -> int {
    let floor = if pre.pacing_rate < SEND_QUANTUM_THRESHOLD {
        pre.max_datagram_size as int
    } else {
        2 * (pre.max_datagram_size as int)
    };
    int_max(int_min(pre.pacing_rate as int / 1000, MAX_SEND_QUANTUM as int), floor)
}

impl BbrCongestionController {
    /// A fresh controller for one connection, in Startup with the initial
    /// window and a pacing rate that assumes a one-millisecond round trip
    /// until the first sample arrives.
    pub fn new(max_datagram_size: u16) -> (r: BbrCongestionController)
        ensures
            r.wf(),
            r.state is Startup,
            r.bytes_in_flight == 0,
            r.cwnd == int_max(
                spec_initial_window(max_datagram_size),
                spec_minimum_window(max_datagram_size),
            ),
            r.prior_cwnd == r.cwnd,
            !r.full_pipe_estimator.filled_pipe,
            r.max_datagram_size == max_datagram_size,
            r.next_departure_time is None,
            r.recovery_state.phase is Recovered,
            !r.recovery_state.needs_fast_retransmission,
            r.spec_bw() == 0,
            r.data_volume_model.min_rtt is None,
            r.data_volume_model.spec_extra_acked() == 0,
            r.data_volume_model.inflight_hi == UNBOUNDED,
            r.data_volume_model.inflight_lo == UNBOUNDED,
            r.bw_estimator.delivered_bytes == 0,
            r.bw_estimator.lost_bytes == 0,
            r.round_counter.round_count == 0,
            !r.idle_restart,
            !r.bw_probe_samples,
            r.send_quantum == max_datagram_size,
            r.pacing_rate == int_max(
                1,
                (STARTUP_PACING_GAIN_NUMER as int)
                    * (spec_initial_window(max_datagram_size) * 1000)
                    / (STARTUP_PACING_GAIN_DENOM as int),
            ),
    {
        let initial_cwnd = Self::initial_window(max_datagram_size);
        proof {
            vstd::arithmetic::mul::lemma_mul_upper_bound(
                MIN_PIPE_CWND_PACKETS as int,
                4,
                max_datagram_size as int,
                65535,
            );
        }
        let minimum_window = (MIN_PIPE_CWND_PACKETS as u32) * (max_datagram_size as u32);
        let cwnd = if initial_cwnd > minimum_window {
            initial_cwnd
        } else {
            minimum_window
        };
        let base_rate = (initial_cwnd as u64) * 1000;
        let rate = (Gain {
            numer: STARTUP_PACING_GAIN_NUMER,
            denom: STARTUP_PACING_GAIN_DENOM,
        }).times(base_rate);
        let pacing_rate = if rate < 1 { 1 } else { rate };
        BbrCongestionController {
            state: State::Startup,
            round_counter: round::Counter::new(),
            bw_estimator: bandwidth::Estimator::new(),
            full_pipe_estimator: full_pipe::Estimator::new(),
            bytes_in_flight: 0,
            cwnd,
            prior_cwnd: cwnd,
            recovery_state: recovery::State::new(),
            congestion_state: congestion::State::new(),
            data_rate_model: data_rate::Model::new(),
            data_volume_model: data_volume::Model::new(),
            max_datagram_size,
            idle_restart: false,
            bw_probe_samples: false,
            pacing_rate,
            next_departure_time: None,
            send_quantum: max_datagram_size as usize,
        }
    }

    /// The current congestion window, in bytes.
    pub fn congestion_window(&self) -> (r: u32)
        ensures
            r == self.cwnd,
    {
        self.cwnd
    }

    /// The bytes currently in flight.
    pub fn bytes_in_flight(&self) -> (r: u32)
        ensures
            r == self.bytes_in_flight,
    {
        self.bytes_in_flight
    }

    /// Whether the sender is within one datagram of the congestion window,
    /// so bandwidth is limited by congestion control rather than by the
    /// application.
    pub fn is_congestion_limited(&self) -> (r: bool)
        ensures
            r == (self.bytes_in_flight + self.max_datagram_size >= self.cwnd),
    {
        (self.bytes_in_flight as u64) + (self.max_datagram_size as u64) >= self.cwnd as u64
    }

    /// Whether the controller is still in its aggressive-growth phase.
    pub fn is_slow_start(&self) -> (r: bool)
        ensures
            r == self.state is Startup,
    {
        self.state.is_startup()
    }

    /// Whether a fast retransmission is owed for a recent congestion event.
    pub fn requires_fast_retransmission(&self) -> (r: bool)
        ensures
            r == self.recovery_state.needs_fast_retransmission,
    {
        self.recovery_state.requires_fast_retransmission()
    }

    /// The earliest pacing departure time for the next packet, if any
    /// packet has been paced yet.
    pub fn earliest_departure_time(&self) -> (r: Option<u64>)
        ensures
            r == self.next_departure_time,
    {
        self.next_departure_time
    }

    /// The maximum size of a data aggregate scheduled and transmitted
    /// together.
    pub fn send_quantum(&self) -> (r: Option<usize>)
        ensures
            r == Some(self.send_quantum),
    {
        Some(self.send_quantum)
    }

    /// The current pacing rate, in bytes per second.
    pub fn pacing_rate(&self) -> (r: u64)
        ensures
            r == self.pacing_rate,
    {
        self.pacing_rate
    }

    /// The initial congestion window for a datagram size: ten datagrams,
    /// limited to the larger of 14720 bytes and two datagrams.
    pub fn initial_window(max_datagram_size: u16) -> (r: u32)
        ensures
            r == spec_initial_window(max_datagram_size),
    {
        let ten = 10 * (max_datagram_size as u32);
        let two = 2 * (max_datagram_size as u32);
        let limit = if INITIAL_WINDOW_LIMIT > two {
            INITIAL_WINDOW_LIMIT
        } else {
            two
        };
        if ten < limit {
            ten
        } else {
            limit
        }
    }

    /// The minimal window the controller targets: four datagrams.
    pub fn minimum_window(&self) -> (r: u32)
        ensures
            r == spec_minimum_window(self.max_datagram_size),
    {
        proof {
            vstd::arithmetic::mul::lemma_mul_upper_bound(
                MIN_PIPE_CWND_PACKETS as int,
                4,
                self.max_datagram_size as int,
                65535,
            );
        }
        (MIN_PIPE_CWND_PACKETS as u32) * (self.max_datagram_size as u32)
    }

    /// A bandwidth-delay product from the supplied bandwidth and gain;
    /// while no RTT sample exists, the initial window stands in.
    pub fn bdp_multiple(&self, bw: u64, gain: Gain) -> (r: u64)
        requires
            bw <= MAX_BANDWIDTH,
            gain.wf(),
            gain.numer <= 4 * gain.denom,
        ensures
            r == self.spec_bdp_multiple(bw, gain),
            r <= 16_000_000_000_000_000,
    {
        if let Some(min_rtt) = self.data_volume_model.min_rtt() {
            proof {
                vstd::arithmetic::mul::lemma_mul_upper_bound(
                    bw as int,
                    MAX_BANDWIDTH as int,
                    min_rtt as int,
                    u64::MAX as int,
                );
            }
            let product = (bw as u128) * (min_rtt as u128) / (NANOS_PER_SEC as u128);
            let bdp = if product > MAX_BDP as u128 {
                MAX_BDP
            } else {
                product as u64
            };
            proof {
                lemma_times_bound(gain, bdp, 4);
            }
            gain.times(bdp)
        } else {
            Self::initial_window(self.max_datagram_size) as u64
        }
    }

    /// The bandwidth-delay product at the current estimates.
    pub fn bdp(&self) -> (r: u64)
        requires
            self.wf(),
        ensures
            r == self.spec_bdp_multiple(self.spec_bw(), Gain { numer: 1u64, denom: 1u64 }),
            r <= 16_000_000_000_000_000,
    {
        self.bdp_multiple(self.data_rate_model.bw(), Gain::one())
    }

    /// How much data should be in flight: the BDP, unless congestion has
    /// already reduced the window below it.
    pub fn target_inflight(&self) -> (r: u32)
        requires
            self.wf(),
        ensures
            r == int_min(
                self.spec_bdp_multiple(self.spec_bw(), Gain { numer: 1u64, denom: 1u64 }),
                self.cwnd as int,
            ),
    {
        let bdp = self.bdp();
        let cwnd = self.cwnd as u64;
        let smaller = if bdp < cwnd { bdp } else { cwnd };
        smaller as u32
    }

    /// The inflight volume required to fully use the bottleneck: gain-scaled
    /// BDP plus the aggregation allowance, passed through the quantization
    /// budget.
    pub fn max_inflight(&self) -> (r: u64)
        requires
            self.wf(),
        ensures
            r == self.spec_max_inflight(),
    {
        let bdp = self.bdp_multiple(self.data_rate_model.bw(), self.state.cwnd_gain());
        let inflight = bdp + self.data_volume_model.extra_acked();
        self.quantization_budget(inflight)
    }

    /// Inflight volume for the given bandwidth and gain, quantized and
    /// saturated to the window's range.
    pub fn inflight(&self, bw: u64, gain: Gain) -> (r: u32)
        requires
            self.wf(),
            bw <= MAX_BANDWIDTH,
            gain.wf(),
            gain.numer <= 4 * gain.denom,
        ensures
            r == int_min(
                self.spec_quantization_budget(self.spec_bdp_multiple(bw, gain)),
                u32::MAX as int,
            ),
    {
        let inflight = self.bdp_multiple(bw, gain);
        let budget = self.quantization_budget(inflight);
        if budget > u32::MAX as u64 {
            u32::MAX
        } else {
            budget as u32
        }
    }

    /// The volume that leaves free headroom under `inflight_hi` for cross
    /// traffic, floored at the minimum window.
    pub fn inflight_with_headroom(&self) -> (r: u32)
        requires
            self.wf(),
        ensures
            r == self.spec_inflight_with_headroom(),
    {
        let inflight_hi = self.data_volume_model.inflight_hi();
        if inflight_hi == UNBOUNDED {
            return u32::MAX;
        }
        let scaled = (Gain { numer: HEADROOM_NUMER, denom: HEADROOM_DENOM }).times(inflight_hi);
        let headroom = if scaled < 1 { 1 } else { scaled };
        let lead = inflight_hi.saturating_sub(headroom);
        let minimum_window = self.minimum_window() as u64;
        let bound = if lead > minimum_window {
            lead
        } else {
            minimum_window
        };
        bound as u32
    }

    /// The quantization budget applied to an inflight volume: room for
    /// three send quanta and the minimum window, plus two datagrams while
    /// probing up.
    pub fn quantization_budget(&self, inflight: u64) -> (r: u64)
        requires
            self.wf(),
            inflight <= 1_000_000_000_000_000_000,
        ensures
            r == self.spec_quantization_budget(inflight as int),
    {
        let offload_budget = 3 * (self.send_quantum as u64);
        let minimum_window = self.minimum_window() as u64;
        let mut budget = inflight;
        if offload_budget > budget {
            budget = offload_budget;
        }
        if minimum_window > budget {
            budget = minimum_window;
        }
        if self.state.is_probing_bw_up() {
            budget = budget + 2 * (self.max_datagram_size as u64);
        }
        budget
    }

    /// The window held while dwelling in ProbeRTT: half the BDP, floored
    /// at the minimum window.
    pub fn probe_rtt_cwnd(&self) -> (r: u32)
        requires
            self.wf(),
        ensures
            r == self.spec_probe_rtt_cwnd(),
    {
        let bdp = self.bdp_multiple(self.data_rate_model.bw(), probe_rtt::State::cwnd_gain());
        let capped = if bdp > u32::MAX as u64 {
            u32::MAX
        } else {
            bdp as u32
        };
        let minimum_window = self.minimum_window();
        if capped > minimum_window {
            capped
        } else {
            minimum_window
        }
    }

    /// True if `lost_bytes` exceeds the loss threshold share of the bytes
    /// that were in flight: the signal that a bandwidth probe overshot.
    pub fn is_inflight_too_high(lost_bytes: u64, bytes_inflight: u32) -> (r: bool)
        ensures
            r == spec_is_inflight_too_high(lost_bytes, bytes_inflight),
    {
        let threshold = (Gain { numer: LOSS_THRESH_NUMER, denom: LOSS_THRESH_DENOM }).times(
            bytes_inflight as u64,
        );
        lost_bytes > threshold
    }

    /// Recomputes the pacing rate from the bandwidth estimate and the
    /// given gain. While the pipe is still filling the rate only ever
    /// moves up, so a transient dip in the estimate cannot stall startup.
    pub fn set_pacing_rate(&mut self, pacing_gain: Gain)
        requires
            old(self).wf(),
            pacing_gain.wf(),
            pacing_gain.numer <= 3 * pacing_gain.denom,
        ensures
            *final(self) == (BbrCongestionController { pacing_rate: final(self).pacing_rate, ..*old(self) }),
            final(self).pacing_rate == (if old(self).full_pipe_estimator.filled_pipe
                || spec_pacing_rate(old(self).spec_bw(), pacing_gain) > old(self).pacing_rate {
                spec_pacing_rate(old(self).spec_bw(), pacing_gain)
            } else {
                old(self).pacing_rate as int
            }),
            !old(self).full_pipe_estimator.filled_pipe
                ==> final(self).pacing_rate >= old(self).pacing_rate,
            final(self).wf(),
    {
        let bw = self.data_rate_model.bw();
        let scaled = pacing_gain.times(bw);
        proof {
            lemma_times_bound(pacing_gain, bw, 3);
        }
        let margined = (Gain { numer: PACING_MARGIN_NUMER, denom: PACING_MARGIN_DENOM }).times(scaled);
        let rate = if margined < 1 { 1 } else { margined };
        if self.full_pipe_estimator.filled_pipe() || rate > self.pacing_rate {
            self.pacing_rate = rate;
        }
    }

    /// Recomputes the send quantum from the pacing rate: one millisecond
    /// of data, between a one-or-two-datagram floor and 64 kilobytes. The
    /// floor is applied after the ceiling, so for datagram sizes whose
    /// two-datagram floor exceeds the ceiling the floor prevails and the
    /// quantum is two datagrams.
    pub fn set_send_quantum(&mut self)
        requires
            old(self).wf(),
        ensures
            *final(self) == (BbrCongestionController { send_quantum: final(self).send_quantum, ..*old(self) }),
            final(self).send_quantum == spec_send_quantum(*old(self)),
            final(self).wf(),
    {
        let floor = if self.pacing_rate < SEND_QUANTUM_THRESHOLD {
            self.max_datagram_size as u64
        } else {
            2 * (self.max_datagram_size as u64)
        };
        let mut quantum = self.pacing_rate / 1000;
        if quantum > MAX_SEND_QUANTUM {
            quantum = MAX_SEND_QUANTUM;
        }
        if quantum < floor {
            quantum = floor;
        }
        self.send_quantum = quantum as usize;
    }

    /// Schedules the next departure: the just-sent packet's serialization
    /// delay at the pacing rate, measured from the previous scheduled
    /// departure if that still lies ahead, else from now.
    pub fn set_next_departure_time(&mut self, packet_size: usize, now: u64)
        requires
            old(self).pacing_rate >= 1,
            packet_size <= u32::MAX,
        ensures
            *final(self) == (BbrCongestionController { next_departure_time: final(self).next_departure_time, ..*old(self) }),
            final(self).next_departure_time == Some(spec_sat_add(
                spec_departure_base(old(self).next_departure_time, now),
                spec_pacing_delay(packet_size as u64, old(self).pacing_rate),
            )),
    {
        let base = match self.next_departure_time {
            Some(departure) => if departure > now { departure } else { now },
            None => now,
        };
        let pacing_delay = (packet_size as u64) * NANOS_PER_SEC / self.pacing_rate;
        self.next_departure_time = Some(base.saturating_add(pacing_delay));
    }

    /// Updates the congestion window for `newly_acked` freshly
    /// acknowledged bytes, in order: packet conservation, growth (capped
    /// at `max_inflight` once the pipe is filled), the ProbeRTT dwell
    /// bound, and the clamp to the model bound and minimum window.
    pub fn set_cwnd(&mut self, newly_acked: usize)
        requires
            old(self).wf(),
            newly_acked <= u32::MAX,
        ensures
            *final(self) == (BbrCongestionController { cwnd: final(self).cwnd, ..*old(self) }),
            final(self).cwnd == old(self).spec_cwnd_after_ack(newly_acked as u32),
            spec_minimum_window(final(self).max_datagram_size) <= final(self).cwnd,
            final(self).cwnd <= final(self).spec_bound_cwnd_for_model(),
            final(self).wf(),
    {
        let acked = newly_acked as u32;
        let max_inflight_volume = self.max_inflight();
        let max_inflight = if max_inflight_volume > u32::MAX as u64 {
            u32::MAX
        } else {
            max_inflight_volume as u32
        };
        let initial_cwnd = Self::initial_window(self.max_datagram_size);
        let mut cwnd = self.cwnd;

        if self.recovery_state.packet_conservation() {
            let floor = self.bytes_in_flight.saturating_add(acked);
            if floor > cwnd {
                cwnd = floor;
            }
        } else if self.full_pipe_estimator.filled_pipe() {
            let grown = cwnd.saturating_add(acked);
            cwnd = if grown < max_inflight {
                grown
            } else {
                max_inflight
            };
        } else if cwnd < max_inflight || self.bw_estimator.delivered_bytes() < initial_cwnd as u64 {
            cwnd = cwnd.saturating_add(acked);
        }

        if self.state.is_probing_rtt() {
            let dwell = self.probe_rtt_cwnd();
            if dwell < cwnd {
                cwnd = dwell;
            }
        }

        let minimum_window = self.minimum_window();
        let bound = self.bound_cwnd_for_model();
        self.cwnd = if cwnd < minimum_window {
            minimum_window
        } else if cwnd > bound {
            bound
        } else {
            cwnd
        };
    }

    /// The maximum window the model currently allows.
    pub fn bound_cwnd_for_model(&self) -> (r: u32)
        requires
            self.wf(),
        ensures
            r == self.spec_bound_cwnd_for_model(),
            r >= spec_minimum_window(self.max_datagram_size),
    {
        let hi = self.data_volume_model.inflight_hi();
        let inflight_hi = if hi > u32::MAX as u64 {
            u32::MAX
        } else {
            hi as u32
        };
        let lo = self.data_volume_model.inflight_lo();
        let inflight_lo = if lo > u32::MAX as u64 {
            u32::MAX
        } else {
            lo as u32
        };
        let cap = if self.state.is_probing_bw() && !self.state.is_probing_bw_cruise() {
            inflight_hi
        } else if self.state.is_probing_rtt() || self.state.is_probing_bw_cruise() {
            self.inflight_with_headroom()
        } else {
            u32::MAX
        };
        let capped = if cap < inflight_lo { cap } else { inflight_lo };
        let minimum_window = self.minimum_window();
        if capped > minimum_window {
            capped
        } else {
            minimum_window
        }
    }

    /// Saves the last known-good window: the current one outside recovery
    /// and ProbeRTT, otherwise the best seen so far.
    pub fn save_cwnd(&mut self)
        ensures
            *final(self) == (BbrCongestionController { prior_cwnd: final(self).prior_cwnd, ..*old(self) }),
            final(self).prior_cwnd == (if old(self).recovery_state.phase is Recovered
                && !(old(self).state is ProbeRtt) {
                old(self).cwnd as int
            } else {
                int_max(old(self).prior_cwnd as int, old(self).cwnd as int)
            }),
    {
        self.prior_cwnd = if !self.recovery_state.in_recovery() && !self.state.is_probing_rtt() {
            self.cwnd
        } else if self.prior_cwnd > self.cwnd {
            self.prior_cwnd
        } else {
            self.cwnd
        };
    }

    /// Restores the last known-good window after recovery or ProbeRTT.
    pub fn restore_cwnd(&mut self)
        requires
            old(self).wf(),
        ensures
            *final(self) == (BbrCongestionController { cwnd: final(self).cwnd, ..*old(self) }),
            final(self).cwnd == int_max(old(self).cwnd as int, old(self).prior_cwnd as int),
            final(self).wf(),
    {
        if self.prior_cwnd > self.cwnd {
            self.cwnd = self.prior_cwnd;
        }
    }

    /// Shrinks the window by the newly lost bytes, never below the
    /// minimum window.
    pub fn modulate_cwnd_for_recovery(&mut self, lost_bytes: u32)
        requires
            old(self).wf(),
            lost_bytes > 0,
        ensures
            *final(self) == (BbrCongestionController { cwnd: final(self).cwnd, ..*old(self) }),
            final(self).cwnd == int_max(
                old(self).cwnd - lost_bytes,
                spec_minimum_window(old(self).max_datagram_size),
            ),
            final(self).cwnd <= old(self).cwnd,
            final(self).wf(),
    {
        let reduced = self.cwnd.saturating_sub(lost_bytes);
        let minimum_window = self.minimum_window();
        self.cwnd = if reduced > minimum_window {
            reduced
        } else {
            minimum_window
        };
    }
}

impl BbrCongestionController {
    /// Adopts a new maximum datagram size. The minimum-window invariant is
    /// kept: if the minimum window grew past the current window, the
    /// window is raised to it.
    pub fn on_mtu_update(&mut self, max_datagram_size: u16)
        requires
            old(self).wf(),
        ensures
            final(self).wf(),
            *final(self) == (BbrCongestionController {
                max_datagram_size,
                cwnd: final(self).cwnd,
                ..*old(self)
            }),
            final(self).cwnd == int_max(old(self).cwnd as int, spec_minimum_window(max_datagram_size)),
    {
        self.max_datagram_size = max_datagram_size;
        let minimum_window = self.minimum_window();
        if self.cwnd < minimum_window {
            self.cwnd = minimum_window;
        }
    }

    /// Records a send: counts the bytes into flight (the caller must keep
    /// the total within the counter's range), clears any owed fast
    /// retransmission, schedules the next pacing departure, and returns
    /// the per-packet token the ack path hands back later.
    pub fn on_packet_sent(&mut self, time_sent: u64, sent_bytes: usize, app_limited: Option<bool>) -> (r: PacketInfo)
        requires
            old(self).wf(),
            old(self).bytes_in_flight + sent_bytes <= u32::MAX,
        ensures
            final(self).wf(),
            // Everything except the five named fields is untouched.
            *final(self) == (BbrCongestionController {
                bytes_in_flight: final(self).bytes_in_flight,
                recovery_state: final(self).recovery_state,
                idle_restart: final(self).idle_restart,
                next_departure_time: final(self).next_departure_time,
                bw_estimator: final(self).bw_estimator,
                ..*old(self)
            }),
            final(self).bytes_in_flight == old(self).bytes_in_flight + sent_bytes,
            final(self).recovery_state == (if sent_bytes > 0 {
                recovery::State { needs_fast_retransmission: false, ..old(self).recovery_state }
            } else {
                old(self).recovery_state
            }),
            final(self).idle_restart == (old(self).idle_restart
                || (sent_bytes > 0 && old(self).bytes_in_flight == 0 && app_limited == Some(true))),
            final(self).bw_estimator == bandwidth::spec_after_send(
                old(self).bw_estimator,
                (old(self).bytes_in_flight + sent_bytes) as u32,
                app_limited,
                time_sent,
            ),
            sent_bytes > 0 ==> final(self).next_departure_time == Some(spec_sat_add(
                spec_departure_base(old(self).next_departure_time, time_sent),
                spec_pacing_delay(sent_bytes as u64, old(self).pacing_rate),
            )),
            sent_bytes == 0 ==> final(self).next_departure_time == old(self).next_departure_time,
            // The opaque per-packet token: the post-send snapshot the ack
            // path consumes for its rate sample.
            r.bytes_in_flight == final(self).bytes_in_flight,
            r.delivered_bytes == final(self).bw_estimator.delivered_bytes,
            r.lost_bytes == final(self).bw_estimator.lost_bytes,
            r.delivered_time == final(self).bw_estimator.delivered_time,
            r.first_sent_time == final(self).bw_estimator.first_sent_time,
            r.is_app_limited == (final(self).bw_estimator.delivered_bytes
                < final(self).bw_estimator.app_limited_until),
    {
        if sent_bytes > 0 {
            self.recovery_state.on_packet_sent();
            if self.bytes_in_flight == 0 && matches!(app_limited, Some(true)) {
                // Restarting from idle while application limited.
                self.idle_restart = true;
            }
            self.bytes_in_flight = self.bytes_in_flight + (sent_bytes as u32);
            self.set_next_departure_time(sent_bytes, time_sent);
        }
        self.bw_estimator.on_packet_sent(self.bytes_in_flight, app_limited, time_sent)
    }

    /// Records a loss: counts it into the delivery sampler, opens recovery
    /// (saving the window on entry), feeds the full-pipe estimator, and
    /// shrinks the window by the lost bytes, never below the minimum.
    pub fn on_packet_lost(&mut self, lost_bytes: u32, new_loss_burst: bool, now: u64)
        requires
            old(self).wf(),
            lost_bytes > 0,
        ensures
            final(self).wf(),
            old(self).full_pipe_estimator.filled_pipe ==> final(self).full_pipe_estimator.filled_pipe,
            // Everything except the five named fields is untouched.
            *final(self) == (BbrCongestionController {
                cwnd: final(self).cwnd,
                prior_cwnd: final(self).prior_cwnd,
                bw_estimator: final(self).bw_estimator,
                recovery_state: final(self).recovery_state,
                full_pipe_estimator: final(self).full_pipe_estimator,
                ..*old(self)
            }),
            final(self).cwnd == int_max(
                old(self).cwnd - lost_bytes,
                spec_minimum_window(old(self).max_datagram_size),
            ),
            final(self).cwnd <= old(self).cwnd,
            final(self).bw_estimator == (bandwidth::Estimator {
                lost_bytes: spec_sat_add(old(self).bw_estimator.lost_bytes, lost_bytes as u64),
                ..old(self).bw_estimator
            }),
            final(self).recovery_state == (if old(self).recovery_state.phase is Recovered {
                recovery::State {
                    phase: recovery::Phase::Conservation,
                    recovery_start_time: now,
                    needs_fast_retransmission: true,
                }
            } else {
                old(self).recovery_state
            }),
            final(self).full_pipe_estimator == full_pipe::spec_after_loss(
                old(self).full_pipe_estimator,
                new_loss_burst,
            ),
            final(self).prior_cwnd == (if old(self).recovery_state.phase is Recovered {
                if !(old(self).state is ProbeRtt) {
                    old(self).cwnd as int
                } else {
                    int_max(old(self).prior_cwnd as int, old(self).cwnd as int)
                }
            } else {
                old(self).prior_cwnd as int
            }),
            final(self).bytes_in_flight == old(self).bytes_in_flight,
            final(self).state == old(self).state,
            final(self).pacing_rate == old(self).pacing_rate,
            final(self).max_datagram_size == old(self).max_datagram_size,
    {
        self.bw_estimator.on_loss(lost_bytes as usize);
        if !self.recovery_state.in_recovery() {
            // Entering recovery: remember the last known-good window.
            self.save_cwnd();
        }
        self.recovery_state.on_congestion_event(now);
        self.full_pipe_estimator.on_packet_lost(new_loss_burst);
        self.modulate_cwnd_for_recovery(lost_bytes);
    }

    /// Marks a non-loss congestion signal: recovery state only.
    pub fn on_congestion_event(&mut self, event_time: u64)
        requires
            old(self).wf(),
        ensures
            final(self).wf(),
            *final(self) == (BbrCongestionController {
                recovery_state: final(self).recovery_state,
                ..*old(self)
            }),
            final(self).recovery_state == (if old(self).recovery_state.phase is Recovered {
                recovery::State {
                    phase: recovery::Phase::Conservation,
                    recovery_start_time: event_time,
                    needs_fast_retransmission: true,
                }
            } else {
                old(self).recovery_state
            }),
    {
        self.recovery_state.on_congestion_event(event_time);
    }

    /// An RTT observation outside the ack path needs no action of its own:
    /// the per-ack pipeline already refreshes the minimum RTT.
    pub fn on_rtt_update(&mut self)
        ensures
            *final(self) == *old(self),
    {
    }

    /// Reverses the in-flight accounting for a packet discarded without
    /// ever being acknowledged or declared lost.
    pub fn on_packet_discarded(&mut self, bytes_sent: usize)
        requires
            old(self).wf(),
        ensures
            final(self).wf(),
            *final(self) == (BbrCongestionController {
                bytes_in_flight: final(self).bytes_in_flight,
                ..*old(self)
            }),
            final(self).bytes_in_flight == (if bytes_sent >= old(self).bytes_in_flight {
                0u32
            } else {
                (old(self).bytes_in_flight - bytes_sent) as u32
            }),
    {
        let discarded = if bytes_sent > u32::MAX as usize {
            u32::MAX
        } else {
            bytes_sent as u32
        };
        self.bytes_in_flight = self.bytes_in_flight.saturating_sub(discarded);
    }

    /// Once per round during the fill, hand the bandwidth estimate to the
    /// full-pipe estimator; leave Startup for Drain as soon as the pipe is
    /// declared full.
    fn check_startup_done(&mut self)
        requires
            old(self).wf(),
        ensures
            final(self).wf(),
            *final(self) == (BbrCongestionController {
                state: final(self).state,
                full_pipe_estimator: final(self).full_pipe_estimator,
                ..*old(self)
            }),
            old(self).full_pipe_estimator.filled_pipe ==> final(self).full_pipe_estimator.filled_pipe,
            final(self).full_pipe_estimator == (if old(self).round_counter.round_start {
                full_pipe::spec_after_round(
                    old(self).full_pipe_estimator,
                    old(self).data_rate_model.spec_bw(),
                    old(self).bw_estimator.rate_sample.is_app_limited,
                )
            } else {
                old(self).full_pipe_estimator
            }),
            final(self).state == (if old(self).state is Startup
                && final(self).full_pipe_estimator.filled_pipe {
                State::Drain
            } else {
                old(self).state
            }),
            final(self).state == old(self).state
                || (old(self).state is Startup && final(self).state is Drain),
    {
        if self.round_counter.round_start() {
            let bw = self.data_rate_model.bw();
            let is_app_limited = self.bw_estimator.rate_sample().is_app_limited;
            self.full_pipe_estimator.on_round_start(bw, is_app_limited);
        }
        if self.state.is_startup() && self.full_pipe_estimator.filled_pipe() {
            self.state.transition_to(State::Drain);
        }
    }

    /// Leave Drain for ProbeBW once the bytes in flight have drained to
    /// the BDP-based target.
    fn check_drain_done(&mut self, random_value: u64, now: u64)
        requires
            old(self).wf(),
        ensures
            final(self).wf(),
            *final(self) == (BbrCongestionController { state: final(self).state, ..*old(self) }),
            final(self).state == (if old(self).state is Drain
                && old(self).bytes_in_flight <= spec_drain_target(*old(self)) {
                State::ProbeBw(probe_bw::State {
                    cycle_phase: CyclePhase::Down,
                    cycle_start_time: now,
                    bw_probe_wait: probe_bw::spec_probe_wait(random_value),
                })
            } else {
                old(self).state
            }),
            final(self).state == old(self).state
                || (old(self).state is Drain && final(self).state is ProbeBw),
    {
        if self.state.is_drain() {
            let bw = self.data_rate_model.bw();
            let target = self.inflight(bw, Gain { numer: 1u64, denom: 1u64 });
            if self.bytes_in_flight <= target {
                self.state.transition_to(State::ProbeBw(probe_bw::State::new(now, random_value)));
            }
        }
    }

    /// Adapts `inflight_hi` from the newest rate sample once the pipe is
    /// filled: excessive loss during our own probing backs the bound off
    /// (and aborts an Up probe); loss-free flights above the bound raise
    /// it.
    fn adapt_upper_bounds(&mut self, rate_sample: RateSample, random_value: u64, now: u64)
        requires
            old(self).wf(),
        ensures
            final(self).wf(),
            *final(self) == (BbrCongestionController {
                state: final(self).state,
                bw_probe_samples: final(self).bw_probe_samples,
                data_volume_model: final(self).data_volume_model,
                ..*old(self)
            }),
            final(self).data_volume_model == (data_volume::Model {
                inflight_hi: final(self).data_volume_model.inflight_hi,
                ..old(self).data_volume_model
            }),
            final(self).state == old(self).state
                || (old(self).state is ProbeBw && final(self).state is ProbeBw),
    {
        if Self::is_inflight_too_high(rate_sample.lost_bytes, rate_sample.bytes_in_flight) {
            if self.bw_probe_samples {
                // The loss came from our own probe: back off and end it.
                self.bw_probe_samples = false;
                if !rate_sample.is_app_limited {
                    let target = self.target_inflight();
                    proof {
                        lemma_times_bound(
                            Gain { numer: BETA_NUMER, denom: BETA_DENOM },
                            target as u64,
                            1,
                        );
                    }
                    let reduced = (Gain { numer: BETA_NUMER, denom: BETA_DENOM }).times(target as u64);
                    let inflight_hi = if (rate_sample.bytes_in_flight as u64) > reduced {
                        rate_sample.bytes_in_flight as u64
                    } else {
                        reduced
                    };
                    self.data_volume_model.set_inflight_hi(inflight_hi);
                }
                if self.state.is_probing_bw_up() {
                    if let State::ProbeBw(probe_bw_state) = self.state {
                        let mut next = probe_bw_state;
                        next.start_down(now, random_value);
                        self.state = State::ProbeBw(next);
                    }
                }
            }
        } else {
            let inflight_hi = self.data_volume_model.inflight_hi();
            if inflight_hi != UNBOUNDED && (rate_sample.bytes_in_flight as u64) > inflight_hi {
                self.data_volume_model.set_inflight_hi(rate_sample.bytes_in_flight as u64);
            }
        }
    }

    /// Advances the ProbeBW cycle: Down drains until the probe timer or
    /// the headroom target fires, Cruise waits for the timer, Refill turns
    /// into Up after one round, and Up falls back to Down once it has run
    /// for a round trip and overshot its target.
    fn update_probe_bw_cycle_phase(&mut self, random_value: u64, now: u64)
        requires
            old(self).wf(),
            old(self).state is ProbeBw,
        ensures
            final(self).wf(),
            *final(self) == (BbrCongestionController {
                state: final(self).state,
                bw_probe_samples: final(self).bw_probe_samples,
                data_volume_model: final(self).data_volume_model,
                ..*old(self)
            }),
            final(self).data_volume_model == (data_volume::Model {
                inflight_lo: final(self).data_volume_model.inflight_lo,
                ..old(self).data_volume_model
            }),
            final(self).state is ProbeBw,
    {
        if let State::ProbeBw(probe_bw_state) = self.state {
            let mut next = probe_bw_state;
            match next.cycle_phase() {
                CyclePhase::Down => {
                    if next.is_time_to_probe(now) {
                        self.data_volume_model.reset_inflight_lo();
                        next.start_refill(now);
                    } else {
                        let headroom = self.inflight_with_headroom();
                        if self.bytes_in_flight <= headroom {
                            next.start_cruise();
                        }
                    }
                }
                CyclePhase::Cruise => {
                    if next.is_time_to_probe(now) {
                        self.data_volume_model.reset_inflight_lo();
                        next.start_refill(now);
                    }
                }
                CyclePhase::Refill => {
                    if self.round_counter.round_start() {
                        next.start_up(now);
                        // From here the rate samples reflect our probing.
                        self.bw_probe_samples = true;
                    }
                }
                CyclePhase::Up => {
                    let min_rtt = match self.data_volume_model.min_rtt() {
                        Some(min_rtt) => min_rtt,
                        None => 0u64,
                    };
                    let elapsed = now.saturating_sub(next.cycle_start_time);
                    if elapsed >= min_rtt {
                        let bw = self.data_rate_model.bw();
                        let up_target = self.inflight(bw, Gain {
                            numer: probe_bw::UP_PACING_GAIN_NUMER,
                            denom: probe_bw::UP_PACING_GAIN_DENOM,
                        });
                        if self.bytes_in_flight > up_target {
                            next.start_down(now, random_value);
                        }
                    }
                }
            }
            self.state = State::ProbeBw(next);
        }
    }

    /// Enters ProbeRTT when the min-RTT estimate had expired (saving the
    /// window first), dwells until the queue has drained for the probe
    /// duration, then restores the window and returns to Startup (pipe
    /// never filled) or ProbeBW Cruise (pipe filled).
    fn check_probe_rtt(&mut self, probe_rtt_expired: bool, random_value: u64, now: u64)
        requires
            old(self).wf(),
        ensures
            final(self).wf(),
            *final(self) == (BbrCongestionController {
                state: final(self).state,
                cwnd: final(self).cwnd,
                prior_cwnd: final(self).prior_cwnd,
                idle_restart: final(self).idle_restart,
                data_volume_model: final(self).data_volume_model,
                ..*old(self)
            }),
            final(self).data_volume_model == (data_volume::Model {
                min_rtt_timestamp: final(self).data_volume_model.min_rtt_timestamp,
                ..old(self).data_volume_model
            }),
            final(self).cwnd >= old(self).cwnd,
            final(self).cwnd == (if spec_probe_rtt_exit_due(old(self).state, now) {
                int_max(old(self).cwnd as int, old(self).prior_cwnd as int)
            } else {
                old(self).cwnd as int
            }),
            !(old(self).state is ProbeRtt) && !(probe_rtt_expired && !old(self).idle_restart)
                ==> final(self).state == old(self).state && final(self).prior_cwnd == old(self).prior_cwnd,
            !(old(self).state is ProbeRtt) && probe_rtt_expired && !old(self).idle_restart
                ==> final(self).state is ProbeRtt,
            spec_probe_rtt_exit_due(old(self).state, now) ==> final(self).state == (
                if old(self).full_pipe_estimator.filled_pipe {
                    State::ProbeBw(probe_bw::State {
                        cycle_phase: CyclePhase::Cruise,
                        cycle_start_time: now,
                        bw_probe_wait: probe_bw::spec_probe_wait(random_value),
                    })
                } else {
                    State::Startup
                }
            ),
            old(self).state is ProbeRtt && !spec_probe_rtt_exit_due(old(self).state, now)
                ==> final(self).state is ProbeRtt,
            final(self).data_volume_model.min_rtt == old(self).data_volume_model.min_rtt,
            final(self).state is Startup ==> (old(self).state is ProbeRtt || old(self).state is Startup),
            !final(self).idle_restart,
    {
        if !self.state.is_probing_rtt() && probe_rtt_expired && !self.idle_restart {
            // The estimate has gone stale: drain and re-probe it.
            self.save_cwnd();
            self.state.transition_to(State::ProbeRtt(probe_rtt::State::new()));
        }
        if let State::ProbeRtt(probe_rtt_state) = self.state {
            let mut next = probe_rtt_state;
            match next.exit_time {
                None => {
                    let dwell_cwnd = self.probe_rtt_cwnd();
                    if self.bytes_in_flight <= dwell_cwnd {
                        next.schedule_exit(now);
                        self.state = State::ProbeRtt(next);
                    }
                }
                Some(exit_time) => {
                    if now >= exit_time {
                        self.data_volume_model.mark_min_rtt_probed(now);
                        self.restore_cwnd();
                        if self.full_pipe_estimator.filled_pipe() {
                            self.state.transition_to(State::ProbeBw(probe_bw::State::new_cruise(
                                now,
                                random_value,
                            )));
                        } else {
                            self.state.transition_to(State::Startup);
                        }
                    }
                }
            }
        }
        self.idle_restart = false;
    }

    /// Runs the fixed per-acknowledgment pipeline, in order: delivery
    /// signals, round accounting, recovery, congestion signals into the
    /// path model, ack aggregation, the Startup/Drain completion checks,
    /// bound adaptation and cycle advance once the pipe is filled, the
    /// min-RTT refresh, the ProbeRTT check, the delivery-signal advance,
    /// and finally the control parameters: pacing rate, send quantum, and
    /// congestion window.
    pub fn on_ack(
        &mut self,
        newest_acked_time_sent: u64,
        bytes_acknowledged: usize,
        newest_acked_packet_info: PacketInfo,
        latest_rtt: u64,
        random_value: u64,
        ack_receive_time: u64,
    )
        requires
            old(self).wf(),
            bytes_acknowledged <= u32::MAX,
        ensures
            final(self).wf(),
            old(self).full_pipe_estimator.filled_pipe ==> final(self).full_pipe_estimator.filled_pipe,
            final(self).bytes_in_flight == old(self).bytes_in_flight,
            final(self).max_datagram_size == old(self).max_datagram_size,
            spec_minimum_window(final(self).max_datagram_size) <= final(self).cwnd,
            final(self).cwnd <= final(self).spec_bound_cwnd_for_model(),
            !final(self).full_pipe_estimator.filled_pipe
                ==> final(self).pacing_rate >= old(self).pacing_rate,
            final(self).full_pipe_estimator.filled_pipe ==> final(self).pacing_rate
                == spec_pacing_rate(final(self).spec_bw(), final(self).state.spec_pacing_gain()),
            old(self).state is Drain ==> !(final(self).state is Startup),
            // Delivery signals: the sampler, the round counter, and the
            // recovery state all step by their own one-ack transitions.
            final(self).bw_estimator == bandwidth::spec_after_ack(
                old(self).bw_estimator,
                bytes_acknowledged as u64,
                newest_acked_time_sent,
                newest_acked_packet_info,
                ack_receive_time,
            ),
            final(self).round_counter == round::spec_after_ack(
                old(self).round_counter,
                newest_acked_packet_info,
                spec_sat_add(old(self).bw_estimator.delivered_bytes, bytes_acknowledged as u64),
            ),
            final(self).recovery_state == recovery::spec_after_ack(
                old(self).recovery_state,
                final(self).round_counter.round_start,
                newest_acked_time_sent,
            ),
            // The bandwidth filter takes this ack's rate sample, keyed by
            // the loss round, unless it is an app-limited sample below the
            // current estimate; the filter round advances at the loss-round
            // boundary.
            final(self).data_rate_model.max_bw_filter.samples@ == (
                if !final(self).bw_estimator.rate_sample.is_app_limited
                    || final(self).bw_estimator.rate_sample.delivery_rate
                        >= old(self).data_rate_model.spec_bw() {
                    crate::windowed_filter::prune(
                        old(self).data_rate_model.max_bw_filter.samples@,
                        data_rate::BW_FILTER_LEN,
                        old(self).data_rate_model.round,
                    ).push((
                        old(self).data_rate_model.round,
                        final(self).bw_estimator.rate_sample.delivery_rate,
                    ))
                } else {
                    old(self).data_rate_model.max_bw_filter.samples@
                }
            ),
            final(self).data_rate_model.round == (
                if newest_acked_packet_info.delivered_bytes
                    >= old(self).congestion_state.loss_round_delivered {
                    round::spec_round_increment(old(self).data_rate_model.round)
                } else {
                    old(self).data_rate_model.round
                }
            ),
            // The aggregation filter records this ack's burst-excess sample,
            // keyed by the advanced round count.
            final(self).data_volume_model.extra_acked_filter.samples@
                == crate::windowed_filter::prune(
                    old(self).data_volume_model.extra_acked_filter.samples@,
                    data_volume::EXTRA_ACKED_FILTER_LEN,
                    final(self).round_counter.round_count,
                ).push((
                    final(self).round_counter.round_count,
                    data_volume::spec_extra_acked_sample(
                        old(self).data_volume_model,
                        final(self).data_rate_model.spec_bw(),
                        bytes_acknowledged as u64,
                        (if recovery::spec_exits(old(self).recovery_state, newest_acked_time_sent) {
                            int_max(old(self).cwnd as int, old(self).prior_cwnd as int)
                        } else {
                            old(self).cwnd as int
                        }) as u32,
                        ack_receive_time,
                    ),
                )),
            // The full-pipe estimator is fed exactly at a round start, with
            // the post-update bandwidth estimate and this sample's
            // app-limited flag.
            final(self).full_pipe_estimator == (if final(self).round_counter.round_start {
                full_pipe::spec_after_round(
                    old(self).full_pipe_estimator,
                    final(self).data_rate_model.spec_bw(),
                    final(self).bw_estimator.rate_sample.is_app_limited,
                )
            } else {
                old(self).full_pipe_estimator
            }),
            // The min-RTT refresh adopts the sample exactly when it is the
            // first, no worse, or the estimate had expired.
            final(self).data_volume_model.min_rtt == (
                if old(self).data_volume_model.min_rtt is None
                    || latest_rtt <= old(self).data_volume_model.min_rtt->Some_0
                    || ack_receive_time >= spec_sat_add(
                        old(self).data_volume_model.min_rtt_timestamp,
                        data_volume::MIN_RTT_EXPIRY,
                    ) {
                    Some(latest_rtt)
                } else {
                    old(self).data_volume_model.min_rtt
                }
            ),
            // Startup ends exactly when the full-pipe latch has set, unless
            // a due min-RTT probe pulls the controller into ProbeRTT first.
            old(self).state is Startup ==> (final(self).state is Startup <==> (
                !final(self).full_pipe_estimator.filled_pipe
                && !(spec_min_rtt_expired_at(*old(self), ack_receive_time) && !old(self).idle_restart)
            )),
            // Drain ends exactly when the bytes in flight have reached the
            // unity-gain inflight target of the post-update model, with the
            // same ProbeRTT proviso.
            old(self).state is Drain ==> (final(self).state is Drain <==> (
                old(self).bytes_in_flight > spec_drain_target((BbrCongestionController {
                    data_rate_model: final(self).data_rate_model,
                    ..*old(self)
                }))
                && !(spec_min_rtt_expired_at(*old(self), ack_receive_time) && !old(self).idle_restart)
            )),
            // The control parameters: the window is the full §growth/clamp
            // computation over the post-model state (with recovery and
            // ProbeRTT restores applied), the send quantum follows the new
            // pacing rate, and pacing without a filled pipe is the exact
            // maximum of the old rate and the gain-scaled estimate.
            final(self).cwnd == (BbrCongestionController {
                cwnd: spec_cwnd_before_control(*old(self), newest_acked_time_sent, ack_receive_time),
                ..*final(self)
            }).spec_cwnd_after_ack(bytes_acknowledged as u32),
            final(self).send_quantum == spec_send_quantum(*final(self)),
            !final(self).full_pipe_estimator.filled_pipe ==> final(self).pacing_rate == int_max(
                old(self).pacing_rate as int,
                spec_pacing_rate(final(self).spec_bw(), final(self).state.spec_pacing_gain()),
            ),
            final(self).next_departure_time == old(self).next_departure_time,
            final(self).bw_estimator.delivered_bytes == spec_sat_add(
                old(self).bw_estimator.delivered_bytes,
                bytes_acknowledged as u64,
            ),
            final(self).round_counter.round_count >= old(self).round_counter.round_count,
            final(self).data_volume_model.min_rtt is Some,
    {
        self.bw_estimator.on_ack(
            bytes_acknowledged,
            newest_acked_time_sent,
            newest_acked_packet_info,
            ack_receive_time,
        );
        let delivered = self.bw_estimator.delivered_bytes();
        self.round_counter.on_ack(newest_acked_packet_info, delivered);
        let exited_recovery = self.recovery_state.on_ack(
            self.round_counter.round_start(),
            newest_acked_time_sent,
        );
        if exited_recovery {
            self.restore_cwnd();
        }
        let rate_sample = self.bw_estimator.rate_sample();
        let is_probing_bw = self.state.is_probing_bw();
        let cwnd_now = self.cwnd;
        self.congestion_state.update(
            newest_acked_packet_info,
            rate_sample,
            delivered,
            &mut self.data_rate_model,
            &mut self.data_volume_model,
            is_probing_bw,
            cwnd_now,
        );
        let bw_now = self.data_rate_model.bw();
        let round_count = self.round_counter.round_count();
        self.data_volume_model.update_ack_aggregation(
            bw_now,
            bytes_acknowledged,
            self.cwnd,
            round_count,
            ack_receive_time,
        );

        self.check_startup_done();
        self.check_drain_done(random_value, ack_receive_time);

        if self.full_pipe_estimator.filled_pipe() {
            self.adapt_upper_bounds(rate_sample, random_value, ack_receive_time);
            if self.state.is_probing_bw() {
                self.update_probe_bw_cycle_phase(random_value, ack_receive_time);
            }
        }
        // The entry check uses the expiry as it stood before this sample
        // refreshed the estimate: the refresh itself restarts the clock.
        let probe_rtt_expired = self.data_volume_model.min_rtt_expired(ack_receive_time);
        self.data_volume_model.update_min_rtt(latest_rtt, ack_receive_time);

        self.check_probe_rtt(probe_rtt_expired, random_value, ack_receive_time);
        self.congestion_state.advance(self.bw_estimator.rate_sample());

        let pacing_gain = self.state.pacing_gain();
        self.set_pacing_rate(pacing_gain);
        self.set_send_quantum();
        self.set_cwnd(bytes_acknowledged);
    }
}

} // verus!
