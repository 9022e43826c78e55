use generic_cong_avoid::clamp_floor;
use generic_cong_avoid::MAX_CWND;
use generic_cong_avoid::cubic::Cubic;
use generic_cong_avoid::cubic::cubic_reduction;
use generic_cong_avoid::cubic::cubic_target;
use generic_cong_avoid::cubic::icbrt;
use generic_cong_avoid::measurement::MeasurementSnapshot;
use generic_cong_avoid::reno::Reno;
use generic_cong_avoid::reno::reno_increase;
use generic_cong_avoid::reno::reno_reduction;

#[test]
fn clamp_floor_applies_floor() {
    assert_eq!(clamp_floor(5, 10), 10);
    assert_eq!(clamp_floor(15, 10), 15);
    assert_eq!(clamp_floor(10, 10), 10);
}

#[test]
fn clamp_floor_twice_is_once() {
    assert_eq!(clamp_floor(clamp_floor(5, 10), 10), clamp_floor(5, 10));
    assert_eq!(clamp_floor(clamp_floor(15, 10), 10), clamp_floor(15, 10));
    assert_eq!(clamp_floor(clamp_floor(0, 0), 0), clamp_floor(0, 0));
}

#[test]
fn reno_increase_law() {
    // cwnd = 10 * mss, acked = mss: one tenth of a segment is won.
    let mss: u32 = 1000;
    assert_eq!(reno_increase(10 * mss as u64, mss, mss), 10_100);
}

#[test]
fn reno_increase_never_decreases() {
    assert!(reno_increase(10_000, 1000, 0) >= 10_000);
    assert!(reno_increase(1, 0xFFFF_FFFF, 0xFFFF_FFFF) >= 1);
    assert_eq!(reno_increase(MAX_CWND, 1000, 1000), MAX_CWND);
}

#[test]
fn reno_reduction_law() {
    // cwnd = 20 * mss with floor 2 * mss halves to 10 * mss.
    let mss: u64 = 1000;
    assert_eq!(reno_reduction(20 * mss, 2 * mss), 10 * mss);
    // cwnd = 3 * mss halves under the floor, which catches it.
    assert_eq!(reno_reduction(3 * mss, 2 * mss), 2 * mss);
}

#[test]
fn cubic_reduction_is_seven_tenths() {
    assert_eq!(cubic_reduction(100, 50), 70);
    assert_eq!(cubic_reduction(1000, 100), 700);
    // The floor catches a reduction that would undershoot it.
    assert_eq!(cubic_reduction(100, 90), 90);
}

#[test]
fn icbrt_exact_roots() {
    assert_eq!(icbrt(0), 0);
    assert_eq!(icbrt(1), 1);
    assert_eq!(icbrt(7), 1);
    assert_eq!(icbrt(8), 2);
    assert_eq!(icbrt(1_000_000), 100);
    assert_eq!(icbrt(75_000_000_000), 4217);
    assert_eq!(icbrt(u64::MAX), 2_642_245);
}

#[test]
fn cubic_target_concave_then_convex() {
    // An epoch 30 segments below a maximum of 100 bytes with 1-byte
    // segments: the inflection point is icbrt(30 * 2.5e9) = 4217 ms.
    let k = icbrt(30 * 2_500_000_000);
    assert_eq!(k, 4217);
    // At the epoch start the curve sits at the reduced window.
    assert_eq!(cubic_target(100, 1, 0, k), 70);
    // Just short of the inflection point it is still below the maximum.
    assert!(cubic_target(100, 1, k - 1, k) < 100);
    // At the inflection point it reaches the maximum exactly.
    assert_eq!(cubic_target(100, 1, k, k), 100);
    // Five seconds past it, 2 * 5000^3 / 5e9 = 50 segments above.
    assert_eq!(cubic_target(100, 1, k + 5000, k), 150);
}

#[test]
fn cubic_target_saturates() {
    // A very long elapsed time pushes the target to the cap, not past it.
    assert_eq!(cubic_target(100, 1460, u64::MAX, 0), MAX_CWND);
    // A deep concave dip cannot push the target below zero.
    assert_eq!(cubic_target(10, 1460, 0, 3_600_000), 0);
}

#[test]
fn measurement_from_raw_normalizes() {
    let m = MeasurementSnapshot::from_raw(-5, -1, false, -3);
    assert_eq!(m.acked, 0);
    assert_eq!(m.lost, 0);
    assert!(!m.was_timeout);
    assert_eq!(m.rtt_us, None);

    let m = MeasurementSnapshot::from_raw(100, 2, true, 5000);
    assert_eq!(m.acked, 100);
    assert_eq!(m.lost, 2);
    assert!(m.was_timeout);
    assert_eq!(m.rtt_us, Some(5000));

    let m = MeasurementSnapshot::from_raw(i64::MAX, 0, false, i64::MAX);
    assert_eq!(m.acked, u32::MAX);
    assert_eq!(m.lost, 0);
    assert_eq!(m.rtt_us, Some(u32::MAX));
}

#[test]
fn variant_names() {
    assert_eq!(Reno::name(), "reno");
    assert_eq!(Cubic::name(), "cubic");
}
