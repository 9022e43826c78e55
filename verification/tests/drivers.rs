use generic_cong_avoid::clock::system_time;
use generic_cong_avoid::config::Config;
use generic_cong_avoid::config::ReportOption;
use generic_cong_avoid::driver::Driver;
use generic_cong_avoid::driver::DriverError;
use generic_cong_avoid::driver::FlowIdentity;
use generic_cong_avoid::flow::AlgKind;
use generic_cong_avoid::flow::DatapathInfo;
use generic_cong_avoid::measurement::MeasurementSnapshot;

fn info(sock_id: u32) -> DatapathInfo {
    DatapathInfo {
        sock_id,
        init_cwnd: 10_000,
        mss: 1000,
        src_ip: 0x0a00_0001,
        src_port: 4000 + sock_id,
        dst_ip: 0x0a00_0002,
        dst_port: 80,
    }
}

fn identity(sock_id: u32) -> FlowIdentity {
    FlowIdentity::from_info(&info(sock_id))
}

fn reno_driver() -> Driver {
    Driver::new(AlgKind::Reno, Config::configure(ReportOption::PerAck, None))
}

fn no_loss(acked: u32) -> MeasurementSnapshot {
    MeasurementSnapshot::from_raw(acked as i64, 0, false, 10_000)
}

fn loss() -> MeasurementSnapshot {
    MeasurementSnapshot::from_raw(0, 1, false, 10_000)
}

#[test]
fn report_for_unknown_identity_is_rejected() {
    let mut d = reno_driver();
    assert_eq!(d.on_flow_open(identity(1), &info(1)), Ok(()));
    // An identity never opened: the report is refused, nothing changes.
    assert_eq!(d.on_report(identity(2), &no_loss(1000), 0), Err(DriverError::UnknownFlow));
    assert_eq!(d.active_flows(), 1);
    assert_eq!(d.curr_cwnd(identity(2)), Err(DriverError::UnknownFlow));
    assert_eq!(d.set_cwnd(identity(2), 5_000), Err(DriverError::UnknownFlow));
    assert_eq!(d.on_flow_close(identity(2)), Err(DriverError::UnknownFlow));
}

#[test]
fn report_after_close_is_rejected() {
    let mut d = reno_driver();
    assert_eq!(d.on_flow_open(identity(1), &info(1)), Ok(()));
    assert_eq!(d.on_report(identity(1), &no_loss(10_000), 0), Ok(20_000));
    assert_eq!(d.on_flow_close(identity(1)), Ok(()));
    assert_eq!(d.on_report(identity(1), &no_loss(10_000), 0), Err(DriverError::UnknownFlow));
    assert_eq!(d.active_flows(), 0);
}

#[test]
fn duplicate_open_keeps_first_flow() {
    let mut d = reno_driver();
    assert_eq!(d.on_flow_open(identity(1), &info(1)), Ok(()));
    // Grow the first flow away from its initial state.
    assert_eq!(d.on_report(identity(1), &no_loss(10_000), 0), Ok(20_000));
    // A second open for the same identity is refused...
    assert_eq!(d.on_flow_open(identity(1), &info(1)), Err(DriverError::DuplicateFlow));
    assert_eq!(d.active_flows(), 1);
    // ...and the first flow's state survives untouched.
    assert_eq!(d.curr_cwnd(identity(1)), Ok(20_000));
}

#[test]
fn flows_are_isolated() {
    let mut d = reno_driver();
    assert_eq!(d.on_flow_open(identity(1), &info(1)), Ok(()));
    assert_eq!(d.on_flow_open(identity(2), &info(2)), Ok(()));
    assert_eq!(d.on_report(identity(1), &no_loss(10_000), 0), Ok(20_000));
    // The other flow still stands at its initial window.
    assert_eq!(d.curr_cwnd(identity(2)), Ok(10_000));
    assert_eq!(d.on_flow_close(identity(1)), Ok(()));
    assert_eq!(d.curr_cwnd(identity(2)), Ok(10_000));
}

#[test]
fn alternating_trajectory_is_deterministic() {
    // The same alternating loss/no-loss sequence, run twice from scratch,
    // produces the same cwnd trajectory value for value.
    let run = || -> Vec<u32> {
        let mut d = reno_driver();
        d.on_flow_open(identity(7), &info(7)).unwrap();
        let mut out: Vec<u32> = Vec::new();
        for step in 0..8 {
            let m = if step % 2 == 0 { no_loss(10_000) } else { loss() };
            out.push(d.on_report(identity(7), &m, step as u64 * 50).unwrap());
        }
        out
    };
    let first = run();
    let second = run();
    assert_eq!(first, second);
    // Slow start doubles, the loss halves back to the floor, and from then
    // on congestion avoidance adds one segment per window of acked data
    // before each loss takes half away again.
    assert_eq!(first, vec![20_000, 10_000, 11_000, 10_000, 11_000, 10_000, 11_000, 10_000]);
}

#[test]
fn clock_reads_milliseconds() {
    // The wall clock sits well after the Unix epoch.
    assert!(system_time() > 0);
}
