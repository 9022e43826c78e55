use generic_cong_avoid::config::Config;
use generic_cong_avoid::config::ReportOption;
use generic_cong_avoid::flow::AlgKind;
use generic_cong_avoid::flow::AlgState;
use generic_cong_avoid::flow::DatapathInfo;
use generic_cong_avoid::flow::FlowState;
use generic_cong_avoid::flow::Mode;
use generic_cong_avoid::measurement::MeasurementSnapshot;

fn info(mss: u32, init_cwnd: u32) -> DatapathInfo {
    DatapathInfo {
        sock_id: 1,
        init_cwnd,
        mss,
        src_ip: 0x0a00_0001,
        src_port: 4000,
        dst_ip: 0x0a00_0002,
        dst_port: 80,
    }
}

fn no_loss(acked: u32) -> MeasurementSnapshot {
    MeasurementSnapshot::from_raw(acked as i64, 0, false, 10_000)
}

fn loss() -> MeasurementSnapshot {
    MeasurementSnapshot::from_raw(0, 1, false, 10_000)
}

#[test]
fn new_flow_starts_in_slow_start() {
    let cfg = Config::configure(ReportOption::PerAck, None);
    let f = FlowState::new_flow(AlgKind::Reno, &info(1460, 14_600), &cfg);
    assert_eq!(f.cwnd, 14_600);
    assert_eq!(f.init_cwnd, 14_600);
    assert_eq!(f.mss, 1460);
    assert!(matches!(f.mode, Mode::SlowStart));
}

#[test]
fn new_flow_normalizes_degenerate_info() {
    let cfg = Config::configure(ReportOption::PerRtt, None);
    // A zero segment size and a floor below one segment are raised, so the
    // laws' division guards always hold.
    let f = FlowState::new_flow(AlgKind::Reno, &info(0, 0), &cfg);
    assert_eq!(f.mss, 1);
    assert_eq!(f.init_cwnd, 1);
    let f = FlowState::new_flow(AlgKind::Reno, &info(1460, 100), &cfg);
    assert_eq!(f.init_cwnd, 1460);
}

#[test]
fn slow_start_grows_by_acked_bytes() {
    let cfg = Config::configure(ReportOption::PerAck, None);
    let mut f = FlowState::new_flow(AlgKind::Reno, &info(1000, 10_000), &cfg);
    let cwnd = f.on_measurement(&no_loss(10_000), 0);
    assert_eq!(cwnd, 20_000);
    let cwnd = f.on_measurement(&no_loss(20_000), 0);
    assert_eq!(cwnd, 40_000);
    assert!(matches!(f.mode, Mode::SlowStart));
}

#[test]
fn slow_start_threshold_hands_over() {
    let cfg = Config::configure(ReportOption::PerAck, Some(15_000));
    let mut f = FlowState::new_flow(AlgKind::Reno, &info(1000, 10_000), &cfg);
    let cwnd = f.on_measurement(&no_loss(10_000), 0);
    assert_eq!(cwnd, 20_000);
    assert!(matches!(f.mode, Mode::CongestionAvoidance));
    // From here Reno's additive increase shapes the growth: one segment per
    // window of acknowledged data.
    let cwnd = f.on_measurement(&no_loss(20_000), 0);
    assert_eq!(cwnd, 21_000);
}

#[test]
fn first_loss_leaves_slow_start() {
    let cfg = Config::configure(ReportOption::PerAck, None);
    let mut f = FlowState::new_flow(AlgKind::Reno, &info(1000, 10_000), &cfg);
    let cwnd = f.on_measurement(&loss(), 0);
    assert_eq!(cwnd, 10_000);
    assert!(matches!(f.mode, Mode::CongestionAvoidance));
}

#[test]
fn timeout_also_reduces() {
    let cfg = Config::configure(ReportOption::PerAck, None);
    let mut f = FlowState::new_flow(AlgKind::Reno, &info(1000, 1_000), &cfg);
    f.set_cwnd(40_000);
    let timeout = MeasurementSnapshot::from_raw(5_000, 0, true, 10_000);
    let cwnd = f.on_measurement(&timeout, 0);
    assert_eq!(cwnd, 20_000);
}

#[test]
fn increase_never_decreases_cwnd() {
    let cfg = Config::configure(ReportOption::PerAck, None);
    let mut f = FlowState::new_flow(AlgKind::Reno, &info(1000, 10_000), &cfg);
    for acked in [0u32, 1, 999, 1000, 100_000] {
        let before = f.cwnd;
        let after = f.on_measurement(&no_loss(acked), 0);
        assert!(after as u64 >= before);
    }
}

#[test]
fn reduction_respects_floor_and_never_grows() {
    let cfg = Config::configure(ReportOption::PerAck, None);
    let mut f = FlowState::new_flow(AlgKind::Reno, &info(1000, 10_000), &cfg);
    for _ in 0..5 {
        let before = f.cwnd;
        let after = f.on_measurement(&loss(), 0) as u64;
        assert!(after <= before);
        assert!(after >= f.init_cwnd);
    }
    assert_eq!(f.cwnd, 10_000);
}

#[test]
fn set_cwnd_clamps_to_floor() {
    let cfg = Config::configure(ReportOption::PerAck, None);
    let mut f = FlowState::new_flow(AlgKind::Reno, &info(1000, 10_000), &cfg);
    f.set_cwnd(5_000);
    assert_eq!(f.curr_cwnd(), 10_000);
    f.set_cwnd(50_000);
    assert_eq!(f.curr_cwnd(), 50_000);
}

#[test]
fn cubic_reduction_records_last_max() {
    let cfg = Config::configure(ReportOption::PerAck, None);
    let mut f = FlowState::new_flow(AlgKind::Cubic, &info(1000, 1_000), &cfg);
    f.set_cwnd(50_000);
    let cwnd = f.on_measurement(&loss(), 0);
    assert_eq!(cwnd, 35_000);
    match f.alg {
        AlgState::Cubic(c) => {
            assert_eq!(c.last_max_cwnd, 50_000);
            assert!(!c.epoch_started);
        },
        AlgState::Reno => panic!("cubic flow lost its law"),
    }
}

#[test]
fn cubic_concave_region_stays_below_last_max() {
    let cfg = Config::configure(ReportOption::PerAck, None);
    let mut f = FlowState::new_flow(AlgKind::Cubic, &info(1, 70), &cfg);
    f.set_cwnd(100);
    // The reduction leaves 70 bytes and remembers the 100-byte maximum.
    assert_eq!(f.on_measurement(&loss(), 1_000), 70);
    // The epoch starts at the first growth step; 30 one-byte segments are
    // missing, so the inflection point is icbrt(30 * 2.5e9) = 4217 ms out.
    let k: u64 = 4217;
    assert_eq!(f.on_measurement(&no_loss(1), 1_000), 70);
    match f.alg {
        AlgState::Cubic(c) => {
            assert!(c.epoch_started);
            assert_eq!(c.epoch_start_ms, 1_000);
            assert_eq!(c.origin_cwnd, 100);
            assert_eq!(c.k_ms, k);
        },
        AlgState::Reno => panic!("cubic flow lost its law"),
    }
    // Short of the inflection point the window stays below the maximum.
    let cwnd = f.on_measurement(&no_loss(1), 1_000 + k - 1);
    assert!(cwnd < 100);
    // At the inflection point the curve wins the whole reduction back.
    assert_eq!(f.on_measurement(&no_loss(1), 1_000 + k), 100);
    // Five seconds beyond, the convex region accelerates past it.
    assert_eq!(f.on_measurement(&no_loss(1), 1_000 + k + 5_000), 150);
}

#[test]
fn cubic_increase_never_decreases() {
    let cfg = Config::configure(ReportOption::PerAck, None);
    let mut f = FlowState::new_flow(AlgKind::Cubic, &info(1000, 10_000), &cfg);
    f.set_cwnd(80_000);
    f.on_measurement(&loss(), 0);
    let mut prev = f.cwnd;
    for t in [0u64, 100, 1_000, 10_000, 100_000] {
        let after = f.on_measurement(&no_loss(1000), t) as u64;
        assert!(after >= prev);
        prev = after;
    }
}
