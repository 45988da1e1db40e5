use bbr::bandwidth::PacketInfo;
use bbr::probe_bw;
use bbr::probe_rtt;
use bbr::BbrCongestionController;
use bbr::State;

/// Drives the controller until its window is exactly 100,000 bytes:
/// two growth acknowledgments on top of the 12,000-byte initial window.
fn controller_with_cwnd_100k() -> BbrCongestionController {
    let mut controller = BbrCongestionController::new(1200);
    assert_eq!(controller.congestion_window(), 12_000);

    let token = controller.on_packet_sent(0, 48_000, None);
    controller.on_ack(0, 48_000, token, 50_000_000, 0, 50_000_000);
    assert_eq!(controller.congestion_window(), 60_000);

    let token = controller.on_packet_sent(50_000_000, 40_000, None);
    controller.on_ack(50_000_000, 40_000, token, 50_000_000, 0, 100_000_000);
    assert_eq!(controller.congestion_window(), 100_000);
    controller
}

#[test]
fn initial_window_formula() {
    assert_eq!(BbrCongestionController::initial_window(1200), 12_000);
    assert_eq!(BbrCongestionController::initial_window(500), 5_000);
    assert_eq!(BbrCongestionController::initial_window(5000), 14_720);
    assert_eq!(BbrCongestionController::initial_window(65535), 131_070);
}

#[test]
fn bdp_falls_back_to_initial_window() {
    let controller = BbrCongestionController::new(1200);
    assert_eq!(controller.bdp(), 12_000);
}

#[test]
fn bdp_from_bandwidth_and_min_rtt() {
    let mut controller = BbrCongestionController::new(1200);
    // 50,000 bytes delivered over 50 ms: 1,000,000 bytes/s.
    let token = controller.on_packet_sent(0, 50_000, None);
    controller.on_ack(0, 50_000, token, 50_000_000, 0, 50_000_000);
    assert_eq!(controller.bdp(), 50_000);
}

#[test]
fn loss_shrinks_window_by_lost_bytes() {
    let mut controller = controller_with_cwnd_100k();
    controller.on_packet_lost(20_000, true, 200_000_000);
    assert_eq!(controller.congestion_window(), 80_000);
}

#[test]
fn loss_never_shrinks_window_below_minimum() {
    let mut controller = controller_with_cwnd_100k();
    controller.modulate_cwnd_for_recovery(99_000);
    assert_eq!(controller.congestion_window(), 4_800);
}

#[test]
fn inflight_too_high_at_two_percent_threshold() {
    assert!(BbrCongestionController::is_inflight_too_high(3_000, 100_000));
    assert!(!BbrCongestionController::is_inflight_too_high(2_000, 100_000));
}

#[test]
fn read_accessors_are_idempotent() {
    let controller = BbrCongestionController::new(1200);
    assert_eq!(controller.congestion_window(), controller.congestion_window());
    assert_eq!(controller.bytes_in_flight(), controller.bytes_in_flight());
    assert_eq!(controller.is_slow_start(), controller.is_slow_start());
    assert_eq!(
        controller.requires_fast_retransmission(),
        controller.requires_fast_retransmission()
    );
    assert_eq!(
        controller.earliest_departure_time(),
        controller.earliest_departure_time()
    );
    assert_eq!(controller.send_quantum(), controller.send_quantum());
    assert_eq!(controller.pacing_rate(), controller.pacing_rate());
}

#[test]
fn phase_transitions_follow_the_table() {
    let mut state = State::Startup;
    assert!(state.is_startup());
    state.transition_to(State::Drain);
    assert!(state.is_drain());
    state.transition_to(State::ProbeBw(probe_bw::State::new(0, 0)));
    assert!(state.is_probing_bw());
    state.transition_to(State::ProbeRtt(probe_rtt::State::new()));
    assert!(state.is_probing_rtt());
    state.transition_to(State::Startup);
    assert!(state.is_startup());
}

#[test]
fn startup_ends_after_heavy_loss() {
    let mut controller = BbrCongestionController::new(1200);
    let token = controller.on_packet_sent(0, 1200, None);
    for i in 0..8 {
        controller.on_packet_lost(100, true, i);
    }
    // Still Startup until the next acknowledgment runs the check.
    assert!(controller.is_slow_start());
    controller.on_ack(0, 1200, token, 1_000_000, 0, 1_000_000);
    assert!(!controller.is_slow_start());
}

#[test]
fn pacing_rate_never_decreases_before_the_pipe_fills() {
    let mut controller = BbrCongestionController::new(1200);
    let initial_rate = controller.pacing_rate();
    assert_eq!(initial_rate, 33_240_000);
    // A slow acknowledgment: 1,000 bytes over 100 ms is far below the
    // initial pacing rate, and must not lower it while still filling.
    let token = controller.on_packet_sent(0, 1_000, None);
    controller.on_ack(0, 1_000, token, 100_000_000, 0, 100_000_000);
    assert_eq!(controller.pacing_rate(), initial_rate);
}

#[test]
fn pacing_rate_follows_bandwidth_exactly() {
    let mut controller = BbrCongestionController::new(1200);
    // 5,000,000 bytes over 50 ms: 100,000,000 bytes/s. Startup pacing is
    // 277/100 of that, with a 99/100 margin: 274,230,000 bytes/s.
    let token = controller.on_packet_sent(0, 5_000_000, None);
    controller.on_ack(0, 5_000_000, token, 50_000_000, 0, 50_000_000);
    assert_eq!(controller.pacing_rate(), 274_230_000);
    // And the send quantum hits its 64 KB ceiling at that rate.
    assert_eq!(controller.send_quantum(), Some(64_000));
}

#[test]
fn send_quantum_is_one_millisecond_of_pacing() {
    let mut controller = BbrCongestionController::new(1200);
    // 50,000 bytes over 50 ms keeps the pacing rate at its initial
    // 33,240,000 bytes/s, so the quantum is 33,240 bytes.
    let token = controller.on_packet_sent(0, 50_000, None);
    controller.on_ack(0, 50_000, token, 50_000_000, 0, 50_000_000);
    assert_eq!(controller.send_quantum(), Some(33_240));
}

#[test]
fn departure_time_paces_packet_serialization() {
    let mut controller = BbrCongestionController::new(1200);
    assert_eq!(controller.earliest_departure_time(), None);
    // 1200 bytes at 33,240,000 bytes/s: 36,101 ns, measured from the send.
    controller.on_packet_sent(1_000, 1200, None);
    assert_eq!(controller.earliest_departure_time(), Some(37_101));
    // A second send before that departure queues behind it.
    controller.on_packet_sent(1_100, 1200, None);
    assert_eq!(controller.earliest_departure_time(), Some(73_202));
}

#[test]
fn window_never_below_minimum_across_events() {
    let mut controller = BbrCongestionController::new(1200);
    let minimum = 4 * 1200;
    assert!(controller.congestion_window() >= minimum);
    let token = controller.on_packet_sent(0, 2_000, None);
    controller.on_packet_lost(1_000_000, true, 10);
    assert!(controller.congestion_window() >= minimum);
    controller.on_ack(0, 2_000, token, 1_000_000, 0, 1_000_000);
    assert!(controller.congestion_window() >= minimum);
    controller.on_mtu_update(9000);
    assert!(controller.congestion_window() >= 4 * 9000);
}

#[test]
fn inflight_with_headroom_leaves_the_headroom_share() {
    let mut controller = BbrCongestionController::new(1200);
    assert_eq!(controller.inflight_with_headroom(), u32::MAX);
    controller.data_volume_model.set_inflight_hi(100_000);
    assert_eq!(controller.inflight_with_headroom(), 15_000);
}

#[test]
fn quantization_budget_floors() {
    let controller = BbrCongestionController::new(1200);
    // The floor is the minimum window (4,800), above three send quanta.
    assert_eq!(controller.quantization_budget(1_000), 4_800);
    assert_eq!(controller.quantization_budget(10_000), 10_000);
}

#[test]
fn model_bound_applies_inflight_lo() {
    let mut controller = BbrCongestionController::new(1200);
    assert_eq!(controller.bound_cwnd_for_model(), u32::MAX);
    controller.data_volume_model.set_inflight_lo(50_000);
    assert_eq!(controller.bound_cwnd_for_model(), 50_000);
    controller.data_volume_model.set_inflight_lo(100);
    assert_eq!(controller.bound_cwnd_for_model(), 4_800);
}

#[test]
fn save_and_restore_window() {
    let mut controller = BbrCongestionController::new(1200);
    controller.save_cwnd();
    controller.modulate_cwnd_for_recovery(5_000);
    assert_eq!(controller.congestion_window(), 7_000);
    controller.restore_cwnd();
    assert_eq!(controller.congestion_window(), 12_000);
}

#[test]
fn discarded_packets_leave_flight_accounting() {
    let mut controller = BbrCongestionController::new(1200);
    controller.on_packet_sent(0, 1200, None);
    assert_eq!(controller.bytes_in_flight(), 1200);
    controller.on_packet_discarded(1200);
    assert_eq!(controller.bytes_in_flight(), 0);
}

#[test]
fn congestion_limited_near_the_window() {
    let mut controller = BbrCongestionController::new(1200);
    assert!(!controller.is_congestion_limited());
    controller.on_packet_sent(0, 12_000, None);
    assert!(controller.is_congestion_limited());
}

#[test]
fn fast_retransmission_owed_until_next_send() {
    let mut controller = BbrCongestionController::new(1200);
    assert!(!controller.requires_fast_retransmission());
    controller.on_packet_sent(0, 1200, None);
    controller.on_packet_lost(1200, true, 5);
    assert!(controller.requires_fast_retransmission());
    controller.on_packet_sent(10, 1200, None);
    assert!(!controller.requires_fast_retransmission());
}

#[test]
fn probe_rtt_entered_on_expiry_and_left_after_dwell() {
    let mut controller = BbrCongestionController::new(1200);
    let token = controller.on_packet_sent(0, 1_000, None);
    controller.on_ack(0, 1_000, token, 50_000_000, 0, 50_000_000);
    assert!(controller.is_slow_start());

    // More than ten seconds without a min-RTT refresh: the next
    // acknowledgment must move the controller into ProbeRTT.
    let later = 50_000_000 + 10_000_000_000 + 1;
    let token = controller.on_packet_sent(1_000_000_000, 1_000, None);
    controller.on_ack(1_000_000_000, 1_000, token, 50_000_000, 7, later);
    assert!(matches!(controller.state, State::ProbeRtt(_)));

    // After the dwell the pipe was never filled, so Startup resumes.
    let after_dwell = later + 300_000_000;
    let token = controller.on_packet_sent(later + 1, 100, None);
    controller.on_ack(later + 1, 100, token, 50_000_000, 9, after_dwell);
    assert!(controller.is_slow_start());
}

#[test]
fn full_pipe_latch_survives_new_bandwidth() {
    let mut controller = BbrCongestionController::new(1200);
    let token = controller.on_packet_sent(0, 1200, None);
    for i in 0..8 {
        controller.on_packet_lost(100, true, i);
    }
    controller.on_ack(0, 1200, token, 1_000_000, 0, 1_000_000);
    assert!(controller.full_pipe_estimator.filled_pipe);
    // A later burst of fresh bandwidth must not clear the latch.
    let token = controller.on_packet_sent(2_000_000, 500_000, None);
    controller.on_ack(2_000_000, 500_000, token, 1_000_000, 0, 3_000_000);
    assert!(controller.full_pipe_estimator.filled_pipe);
}

#[test]
fn packet_info_snapshot_carries_send_state() {
    let mut controller = BbrCongestionController::new(1200);
    let token: PacketInfo = controller.on_packet_sent(0, 1_000, None);
    assert_eq!(token.delivered_bytes, 0);
    assert_eq!(token.lost_bytes, 0);
    assert_eq!(token.bytes_in_flight, 1_000);
    assert!(!token.is_app_limited);
    let token = controller.on_packet_sent(5, 500, Some(true));
    assert!(token.is_app_limited);
}

#[test]
fn congestion_event_without_loss_opens_recovery() {
    let mut controller = BbrCongestionController::new(1200);
    controller.on_congestion_event(5);
    assert!(controller.requires_fast_retransmission());
    // The window itself is untouched by a pure congestion signal.
    assert_eq!(controller.congestion_window(), 12_000);
}

#[test]
fn rtt_update_alone_changes_nothing() {
    let mut controller = BbrCongestionController::new(1200);
    let window = controller.congestion_window();
    let rate = controller.pacing_rate();
    controller.on_rtt_update();
    assert_eq!(controller.congestion_window(), window);
    assert_eq!(controller.pacing_rate(), rate);
}
