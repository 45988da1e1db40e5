use bbr::bandwidth::Estimator;
use bbr::bandwidth::PacketInfo;
use bbr::data_volume::Model;
use bbr::full_pipe;
use bbr::recovery;
use bbr::round;
use bbr::windowed_filter::WindowedMaxFilter;

fn packet_info(delivered_bytes: u64) -> PacketInfo {
    PacketInfo {
        delivered_bytes,
        delivered_time: 0,
        lost_bytes: 0,
        first_sent_time: 0,
        bytes_in_flight: 0,
        is_app_limited: false,
    }
}

#[test]
fn windowed_filter_tracks_the_window_maximum() {
    let mut filter = WindowedMaxFilter::new(10);
    assert_eq!(filter.value(), 0);
    filter.update(5, 1);
    filter.update(3, 2);
    assert_eq!(filter.value(), 5);
    filter.update(7, 5);
    assert_eq!(filter.value(), 7);
    // At tick 12 the samples from ticks 1 and 2 have expired; the one from
    // tick 5 is still alive.
    filter.update(2, 12);
    assert_eq!(filter.value(), 7);
    // At tick 16 the tick-5 sample expires as well.
    filter.update(1, 16);
    assert_eq!(filter.value(), 2);
}

#[test]
fn round_counter_advances_on_watermarks() {
    let mut counter = round::Counter::new();
    assert_eq!(counter.round_count(), 0);
    counter.on_ack(packet_info(0), 5_000);
    assert!(counter.round_start());
    assert_eq!(counter.round_count(), 1);
    // A packet sent before the watermark does not start a round.
    counter.on_ack(packet_info(3_000), 8_000);
    assert!(!counter.round_start());
    assert_eq!(counter.round_count(), 1);
    counter.on_ack(packet_info(5_000), 9_000);
    assert!(counter.round_start());
    assert_eq!(counter.round_count(), 2);
}

#[test]
fn recovery_walks_conservation_then_growth_then_out() {
    let mut state = recovery::State::new();
    assert!(!state.in_recovery());
    state.on_congestion_event(100);
    assert!(state.in_recovery());
    assert!(state.packet_conservation());
    assert!(state.requires_fast_retransmission());
    state.on_packet_sent();
    assert!(!state.requires_fast_retransmission());
    // An acknowledgment for a pre-recovery packet at a round start moves
    // conservation to growth but stays in recovery.
    let exited = state.on_ack(true, 50);
    assert!(!exited);
    assert!(state.in_recovery());
    assert!(!state.packet_conservation());
    // Acknowledging a packet sent after the episode began ends it.
    let exited = state.on_ack(false, 150);
    assert!(exited);
    assert!(!state.in_recovery());
}

#[test]
fn full_pipe_latches_after_three_flat_rounds() {
    let mut estimator = full_pipe::Estimator::new();
    estimator.on_round_start(1_000, false);
    assert!(!estimator.filled_pipe());
    estimator.on_round_start(1_000, false);
    estimator.on_round_start(1_000, false);
    assert!(!estimator.filled_pipe());
    estimator.on_round_start(1_000, false);
    assert!(estimator.filled_pipe());
    // The latch holds whatever the estimate does afterwards.
    estimator.on_round_start(1_000_000, false);
    assert!(estimator.filled_pipe());
}

#[test]
fn full_pipe_ignores_app_limited_rounds() {
    let mut estimator = full_pipe::Estimator::new();
    estimator.on_round_start(1_000, false);
    for _ in 0..10 {
        estimator.on_round_start(1_000, true);
    }
    assert!(!estimator.filled_pipe());
}

#[test]
fn full_pipe_latches_after_loss_bursts() {
    let mut estimator = full_pipe::Estimator::new();
    for _ in 0..7 {
        estimator.on_packet_lost(true);
    }
    assert!(!estimator.filled_pipe());
    estimator.on_packet_lost(false);
    assert!(!estimator.filled_pipe());
    estimator.on_packet_lost(true);
    assert!(estimator.filled_pipe());
}

#[test]
fn min_rtt_keeps_the_smallest_fresh_sample() {
    let mut model = Model::new();
    assert_eq!(model.min_rtt(), None);
    model.update_min_rtt(5_000_000, 0);
    assert_eq!(model.min_rtt(), Some(5_000_000));
    // A larger sample within the window is ignored.
    model.update_min_rtt(6_000_000, 1_000_000);
    assert_eq!(model.min_rtt(), Some(5_000_000));
    // A smaller sample always wins.
    model.update_min_rtt(4_000_000, 2_000_000);
    assert_eq!(model.min_rtt(), Some(4_000_000));
    // Once the estimate expires, any sample replaces it.
    model.update_min_rtt(9_000_000, 2_000_000 + 10_000_000_000);
    assert_eq!(model.min_rtt(), Some(9_000_000));
}

#[test]
fn inflight_bounds_start_unbounded() {
    let mut model = Model::new();
    assert_eq!(model.inflight_hi(), u64::MAX);
    assert_eq!(model.inflight_lo(), u64::MAX);
    model.set_inflight_hi(100_000);
    model.set_inflight_lo(50_000);
    assert_eq!(model.inflight_hi(), 100_000);
    assert_eq!(model.inflight_lo(), 50_000);
    model.reset_inflight_lo();
    assert_eq!(model.inflight_lo(), u64::MAX);
}

#[test]
fn delivery_rate_is_bytes_over_interval() {
    let mut estimator = Estimator::new();
    let token = estimator.on_packet_sent(0, None, 0);
    // 80,000 bytes acknowledged 40 ms after an idle start: 2,000,000
    // bytes per second.
    estimator.on_ack(80_000, 0, token, 40_000_000);
    assert_eq!(estimator.rate_sample().delivery_rate, 2_000_000);
    assert_eq!(estimator.delivered_bytes(), 80_000);
    assert_eq!(estimator.rate_sample().delivered_bytes, 80_000);
}

#[test]
fn loss_counter_accumulates() {
    let mut estimator = Estimator::new();
    estimator.on_loss(1_000);
    estimator.on_loss(250);
    assert_eq!(estimator.lost_bytes(), 1_250);
    // The rate sample reports losses since the acked packet was sent.
    let token = estimator.on_packet_sent(0, None, 0);
    estimator.on_loss(500);
    estimator.on_ack(100, 0, token, 1_000_000);
    assert_eq!(estimator.rate_sample().lost_bytes, 500);
}

#[test]
fn app_limited_marks_samples_until_caught_up() {
    let mut estimator = Estimator::new();
    let token = estimator.on_packet_sent(10_000, Some(true), 0);
    assert!(token.is_app_limited);
    estimator.on_ack(20_000, 0, token, 1_000_000);
    // Delivery has caught up with the app-limited watermark.
    let token = estimator.on_packet_sent(500, None, 2_000_000);
    assert!(!token.is_app_limited);
}

#[test]
fn ack_aggregation_measures_burst_excess() {
    let mut model = Model::new();
    // At the epoch start nothing is expected yet, so a 10,000-byte burst
    // is pure aggregation excess.
    model.update_ack_aggregation(1_000_000, 10_000, 100_000, 1, 0);
    assert_eq!(model.extra_acked(), 10_000);
    // Ten milliseconds later the bandwidth estimate accounts for exactly
    // those 10,000 bytes: the epoch restarts and the new excess is small.
    model.update_ack_aggregation(1_000_000, 5_000, 100_000, 2, 10_000_000);
    assert_eq!(model.extra_acked(), 10_000);
}

#[test]
fn lossy_round_tightens_inflight_lo() {
    let mut signals = bbr::congestion::State::new();
    let mut data_rate_model = bbr::data_rate::Model::new();
    let mut data_volume_model = Model::new();
    let rate_sample = bbr::bandwidth::RateSample {
        delivery_rate: 1_000,
        interval: 1,
        delivered_bytes: 500,
        lost_bytes: 100,
        bytes_in_flight: 0,
        is_app_limited: false,
    };
    signals.update(
        packet_info(0),
        rate_sample,
        500,
        &mut data_rate_model,
        &mut data_volume_model,
        false,
        10_000,
    );
    // The sample entered the bandwidth filter, and the lossy round end
    // pulled inflight_lo down to seven tenths of the window.
    assert_eq!(data_rate_model.bw(), 1_000);
    assert_eq!(data_volume_model.inflight_lo(), 7_000);
}
