//! The Cubic control law, in integer arithmetic.
//!
//! After a reduction the window grows along a cubic curve of the time since
//! the reduction, anchored at the pre-reduction maximum: with time `t` in
//! seconds, segments grow by `C * (t - K)^3` around the origin window, with
//! `C = 2/5` and `K` the inflection point `cbrt(diff / C)` where `diff` is
//! how many segments the reduction took away. The curve is concave below the
//! old maximum and convex beyond it. All arithmetic here is exact integer
//! arithmetic over milliseconds and bytes.

use vstd::prelude::*;
use vstd::arithmetic::div_mod::lemma_div_is_ordered;
use vstd::arithmetic::div_mod::lemma_div_multiples_vanish;
use vstd::arithmetic::div_mod::lemma_div_nonincreasing;
use vstd::arithmetic::div_mod::lemma_div_pos_is_pos;
use crate::MAX_CWND;
use crate::spec_clamp_floor;

verus! {

/// The search space for elapsed-time terms: one hour in milliseconds. Any
/// longer time has long pushed the target to its saturation cap, so clamping
/// here loses nothing and keeps every cube inside 128 bits.
pub const CUBIC_TIME_HORIZON_MS: u64 = 3_600_000;

/// `K^3 = diff_segments * K_CUBE_SCALE_MS3` gives the inflection point in
/// milliseconds: `K_s = cbrt(diff / C)` with `C = 2/5`, so
/// `K_ms^3 = diff * (5/2) * 10^9`.
pub const K_CUBE_SCALE_MS3: u64 = 2_500_000_000;

/// Denominator of the growth term: `C * (d_ms / 1000)^3 = 2 d^3 / (5 * 10^9)`
/// segments.
pub const CUBIC_DELTA_DENOM: u64 = 5_000_000_000;

/// Marker for the Cubic variant of the control law.
#[derive(Clone, Copy, PartialEq, Eq, Structural)]
pub struct Cubic {
}

/// Cubic's persistent per-flow sub-state.
#[derive(Clone, Copy, PartialEq, Eq, Structural)]
pub struct CubicState {
    /// The window, in bytes, right before the most recent reduction: the
    /// origin the next growth curve aims back at.
    pub last_max_cwnd: u64,
    /// Whether the growth epoch after the last reduction has begun.
    pub epoch_started: bool,
    /// Clock reading, in milliseconds, at which the current epoch began.
    pub epoch_start_ms: u64,
    /// The window, in bytes, the current epoch's curve is anchored at.
    pub origin_cwnd: u64,
    /// The inflection point of the current epoch's curve, in milliseconds.
    pub k_ms: u64,
}

impl Cubic {
    /// Stable identifier for this variant, used for selection and telemetry.
    pub fn name() -> (r: &'static str)
        ensures
            r@ == "cubic"@,
    {
        "cubic"
    }
}

/// Fresh Cubic sub-state: no reduction seen yet, no epoch running.
pub open spec fn spec_cubic_fresh() -> CubicState {
    CubicState {
        last_max_cwnd: 0,
        epoch_started: false,
        epoch_start_ms: 0,
        origin_cwnd: 0,
        k_ms: 0,
    }
}

/// The Cubic reduction: the window is multiplied by `beta = 7/10`, then
/// floored at `init_cwnd`.
pub open spec fn spec_cubic_reduction(cwnd: int, init_cwnd: int) -> int {
    spec_clamp_floor((7 * cwnd) / 10, init_cwnd)
}

/// One Cubic reduction step: the window shrinks to seven tenths, never below
/// `init_cwnd`, and never grows.
pub fn cubic_reduction(cwnd: u64, init_cwnd: u64) -> (r: u64)
    requires
        init_cwnd <= cwnd <= MAX_CWND,
    ensures
        r == spec_cubic_reduction(cwnd as int, init_cwnd as int),
        init_cwnd <= r <= cwnd,
{
    proof {
        lemma_div_is_ordered(7 * cwnd as int, 10 * cwnd as int, 10);
        lemma_div_multiples_vanish(cwnd as int, 10);
    }
    crate::clamp_floor((7 * cwnd) / 10, init_cwnd)
}

/// Largest root the cube-root search ever needs: `ICBRT_BOUND^3` exceeds
/// every 64-bit radicand.
pub const ICBRT_BOUND: u64 = 3_000_000;

/// Cubing is monotone over the non-negative integers.
pub proof fn lemma_cube_is_monotonic(a: int, b: int)
    requires
        0 <= a <= b,
    ensures
        a * a * a <= b * b * b,
{
    assert(a * a * a <= b * b * b) by (nonlinear_arith)
        requires
            0 <= a <= b,
    ;
}

/// The integer cube root of `x`, found by walking the candidates upward from
/// `r`; the walk stops at the last candidate whose successor cubes past `x`.
pub open spec fn spec_icbrt_from(x: int, r: int) -> int
    decreases ICBRT_BOUND as int - r,
{
    if r < 0 || r >= ICBRT_BOUND as int {
        r
    } else if (r + 1) * (r + 1) * (r + 1) <= x {
        spec_icbrt_from(x, r + 1)
    } else {
        r
    }
}

/// The integer cube root of `x`: the unique `r` with `r^3 <= x < (r+1)^3`.
pub open spec fn spec_icbrt(x: int) -> int {
    spec_icbrt_from(x, 0)
}

/// The upward walk lands on a root with the cube-root property whenever it
/// starts at a sound candidate below the search bound's cube.
pub proof fn lemma_icbrt_from_props(x: int, r: int)
    requires
        0 <= r <= ICBRT_BOUND as int,
        r * r * r <= x,
        x < (ICBRT_BOUND as int) * (ICBRT_BOUND as int) * (ICBRT_BOUND as int),
    ensures
        r <= spec_icbrt_from(x, r),
        spec_icbrt_from(x, r) * spec_icbrt_from(x, r) * spec_icbrt_from(x, r) <= x,
        x < (spec_icbrt_from(x, r) + 1) * (spec_icbrt_from(x, r) + 1) * (spec_icbrt_from(x, r)
            + 1),
    decreases ICBRT_BOUND as int - r,
{
    if r == ICBRT_BOUND as int {
        assert(false);
    } else if (r + 1) * (r + 1) * (r + 1) <= x {
        lemma_icbrt_from_props(x, r + 1);
    }
}

/// Two integers that both satisfy the cube-root property of the same
/// radicand are equal.
pub proof fn lemma_icbrt_unique(a: int, b: int, x: int)
    requires
        0 <= a,
        0 <= b,
        a * a * a <= x < (a + 1) * (a + 1) * (a + 1),
        b * b * b <= x < (b + 1) * (b + 1) * (b + 1),
    ensures
        a == b,
{
    if a < b {
        lemma_cube_is_monotonic(a + 1, b);
        assert(false);
    }
    if b < a {
        lemma_cube_is_monotonic(b + 1, a);
        assert(false);
    }
}

/// The integer cube root of `x`, by binary search.
pub fn icbrt(x: u64) -> (r: u64)
    ensures
        r == spec_icbrt(x as int),
        (r as int) * (r as int) * (r as int) <= x as int,
        (x as int) < ((r as int) + 1) * ((r as int) + 1) * ((r as int) + 1),
{
    let mut lo: u64 = 0;
    let mut hi: u64 = ICBRT_BOUND;
    proof {
        assert((ICBRT_BOUND as int) * (ICBRT_BOUND as int) * (ICBRT_BOUND as int)
            == 27_000_000_000_000_000_000int);
    }
    while lo + 1 < hi
        invariant
            lo < hi <= ICBRT_BOUND,
            (lo as int) * (lo as int) * (lo as int) <= x as int,
            (x as int) < (hi as int) * (hi as int) * (hi as int),
        decreases hi - lo,
    {
        let mid: u64 = lo + (hi - lo) / 2;
        proof {
            assert((mid as int) * (mid as int) <= 9_000_000_000_000int && (mid as int) * (
            mid as int) * (mid as int) <= 27_000_000_000_000_000_000int) by (nonlinear_arith)
                requires
                    0 <= mid as int <= 3_000_000int,
            ;
        }
        let m: u128 = mid as u128;
        let cube: u128 = m * m * m;
        if cube <= x as u128 {
            lo = mid;
        } else {
            hi = mid;
        }
    }
    proof {
        lemma_icbrt_from_props(x as int, 0);
        lemma_icbrt_unique(lo as int, spec_icbrt(x as int), x as int);
    }
    lo
}

/// The cube the inflection point is the root of: the reduction took
/// `(last_max - cwnd) / mss` segments away, and the curve takes `K`
/// milliseconds with `K^3 = diff_segments * K_CUBE_SCALE_MS3` to win them
/// back. A window at or above its old maximum starts at the inflection point.
pub open spec fn spec_k_cube(last_max: int, cwnd: int, mss: int) -> int {
    if last_max > cwnd {
        ((last_max - cwnd) / mss) * (K_CUBE_SCALE_MS3 as int)
    } else {
        0
    }
}

/// The inflection point, in milliseconds, of a growth epoch that starts at
/// `cwnd` bytes and aims back at `last_max` bytes.
pub fn cubic_k_ms(last_max: u64, cwnd: u64, mss: u32) -> (k: u64)
    requires
        1 <= mss,
        1 <= cwnd,
        last_max <= MAX_CWND,
    ensures
        k == spec_icbrt(spec_k_cube(last_max as int, cwnd as int, mss as int)),
        k <= CUBIC_TIME_HORIZON_MS,
{
    let x: u64 = if last_max > cwnd {
        proof {
            lemma_div_nonincreasing((last_max - cwnd) as int, mss as int);
            assert(((last_max - cwnd) as int / (mss as int)) * (K_CUBE_SCALE_MS3 as int)
                <= 10_737_418_237_500_000_000int) by (nonlinear_arith)
                requires
                    0 <= ((last_max - cwnd) as int / (mss as int)) <= 4_294_967_295int,
            ;
            lemma_div_pos_is_pos((last_max - cwnd) as int, mss as int);
        }
        ((last_max - cwnd) / (mss as u64)) * K_CUBE_SCALE_MS3
    } else {
        0
    };
    let k: u64 = icbrt(x);
    proof {
        if k as int >= 2_300_000int {
            lemma_cube_is_monotonic(2_300_000int, k as int);
            assert(false);
        }
    }
    k
}

/// The growth term of the curve, in segments, for a (signed, clamped)
/// distance `d` milliseconds from the inflection point: the floor of
/// `2 d^3 / CUBIC_DELTA_DENOM`, written out piecewise so that the negative
/// side rounds down, not toward zero.
pub open spec fn spec_cubic_delta_seg(d: int) -> int {
    if d >= 0 {
        (2 * d * d * d) / (CUBIC_DELTA_DENOM as int)
    } else {
        -((2 * (-d) * (-d) * (-d) + (CUBIC_DELTA_DENOM as int) - 1) / (CUBIC_DELTA_DENOM as int))
    }
}

/// The distance from the inflection point `k` after `el` elapsed
/// milliseconds, clamped into one time horizon either way.
pub open spec fn spec_cubic_d(el: int, k: int) -> int {
    let d0 = el - k;
    if d0 > CUBIC_TIME_HORIZON_MS as int {
        CUBIC_TIME_HORIZON_MS as int
    } else if d0 < -(CUBIC_TIME_HORIZON_MS as int) {
        -(CUBIC_TIME_HORIZON_MS as int)
    } else {
        d0
    }
}

/// Where the curve says the window should stand, in bytes, `el` milliseconds
/// into an epoch anchored at `origin` bytes with inflection point `k`.
pub open spec fn spec_cubic_target(origin: int, mss: int, el: int, k: int) -> int {
    origin + mss * spec_cubic_delta_seg(spec_cubic_d(el, k))
}

/// A raw curve value clamped into the representable window range.
pub open spec fn spec_cap_cwnd(t: int) -> int {
    if t < 0 {
        0
    } else if t > MAX_CWND as int {
        MAX_CWND as int
    } else {
        t
    }
}

/// Evaluate the curve: the window the epoch's curve calls for after `el`
/// elapsed milliseconds, clamped into the representable range.
pub fn cubic_target(origin: u64, mss: u32, el: u64, k: u64) -> (r: u64)
    requires
        origin <= MAX_CWND,
    ensures
        r == spec_cap_cwnd(spec_cubic_target(origin as int, mss as int, el as int, k as int)),
{
    if el >= k {
        let d: u64 = if el - k > CUBIC_TIME_HORIZON_MS {
            CUBIC_TIME_HORIZON_MS
        } else {
            el - k
        };
        proof {
            assert(2 * (d as int) * (d as int) <= 25_920_000_000_000int && 2 * (d as int) * (
            d as int) * (d as int) <= 93_312_000_000_000_000_000int) by (nonlinear_arith)
                requires
                    0 <= d as int <= 3_600_000int,
            ;
            lemma_div_nonincreasing(2 * (d as int) * (d as int) * (d as int),
                CUBIC_DELTA_DENOM as int);
            assert((2 * (d as int) * (d as int) * (d as int)) / (CUBIC_DELTA_DENOM as int) * (
            mss as int) <= 500_000_000_000_000_000_000_000_000_000int) by (nonlinear_arith)
                requires
                    0 <= (2 * (d as int) * (d as int) * (d as int)) / (CUBIC_DELTA_DENOM as int)
                        <= 93_312_000_000_000_000_000int,
                    0 <= mss as int <= 4_294_967_295int,
            ;
            lemma_div_pos_is_pos(2 * (d as int) * (d as int) * (d as int),
                CUBIC_DELTA_DENOM as int);
        }
        let dd: u128 = d as u128;
        let delta_seg: u128 = (2 * dd * dd * dd) / (CUBIC_DELTA_DENOM as u128);
        let delta_bytes: u128 = delta_seg * (mss as u128);
        let target: u128 = (origin as u128) + delta_bytes;
        proof {
            assert(spec_cubic_d(el as int, k as int) == d as int);
            assert(spec_cubic_delta_seg(d as int) == delta_seg as int);
            assert((mss as int) * (delta_seg as int) == (delta_seg as int) * (mss as int))
                by (nonlinear_arith);
            assert(spec_cubic_target(origin as int, mss as int, el as int, k as int)
                == target as int);
        }
        if target > (MAX_CWND as u128) {
            MAX_CWND
        } else {
            target as u64
        }
    } else {
        let n: u64 = if k - el > CUBIC_TIME_HORIZON_MS {
            CUBIC_TIME_HORIZON_MS
        } else {
            k - el
        };
        proof {
            assert(2 * (n as int) * (n as int) <= 25_920_000_000_000int && 2 * (n as int) * (
            n as int) * (n as int) <= 93_312_000_000_000_000_000int) by (nonlinear_arith)
                requires
                    0 <= n as int <= 3_600_000int,
            ;
            lemma_div_nonincreasing(2 * (n as int) * (n as int) * (n as int) + (
            CUBIC_DELTA_DENOM as int) - 1, CUBIC_DELTA_DENOM as int);
            assert((2 * (n as int) * (n as int) * (n as int) + (CUBIC_DELTA_DENOM as int) - 1) / (
            CUBIC_DELTA_DENOM as int) * (mss as int)
                <= 500_000_000_000_000_000_000_000_000_000int) by (nonlinear_arith)
                requires
                    0 <= (2 * (n as int) * (n as int) * (n as int) + (CUBIC_DELTA_DENOM as int)
                        - 1) / (CUBIC_DELTA_DENOM as int) <= 93_317_000_000_000_000_000int,
                    0 <= mss as int <= 4_294_967_295int,
            ;
            lemma_div_pos_is_pos(2 * (n as int) * (n as int) * (n as int) + (
            CUBIC_DELTA_DENOM as int) - 1, CUBIC_DELTA_DENOM as int);
        }
        let nn: u128 = n as u128;
        let mag_seg: u128 = (2 * nn * nn * nn + (CUBIC_DELTA_DENOM as u128) - 1) / (
        CUBIC_DELTA_DENOM as u128);
        let mag_bytes: u128 = mag_seg * (mss as u128);
        proof {
            assert(spec_cubic_d(el as int, k as int) == -(n as int));
            assert(spec_cubic_delta_seg(-(n as int)) == -(mag_seg as int));
            assert((mss as int) * (-(mag_seg as int)) == -((mag_seg as int) * (mss as int)))
                by (nonlinear_arith);
            assert(spec_cubic_target(origin as int, mss as int, el as int, k as int)
                == origin as int - mag_bytes as int);
        }
        if (origin as u128) > mag_bytes {
            (origin - (mag_bytes as u64))
        } else {
            0
        }
    }
}

/// While the elapsed time of an epoch is still short of the inflection
/// point, the curve stays strictly below the window it is anchored at: the
/// concave region never reaches the old maximum.
pub proof fn lemma_cubic_concave_below_origin(origin: int, mss: int, el: int, k: int)
    requires
        1 <= mss,
        0 <= el < k,
    ensures
        spec_cubic_target(origin, mss, el, k) < origin,
{
    let d = spec_cubic_d(el, k);
    assert(d <= -1);
    let n = -d;
    assert(2 * n * n * n >= 2) by (nonlinear_arith)
        requires
            n >= 1,
    ;
    let denom = CUBIC_DELTA_DENOM as int;
    lemma_div_is_ordered(denom, 2 * n * n * n + denom - 1, denom);
    lemma_div_multiples_vanish(1, denom);
    let mag = (2 * n * n * n + denom - 1) / denom;
    assert(mag >= 1);
    assert(mss * (-mag) <= -1) by (nonlinear_arith)
        requires
            mss >= 1,
            mag >= 1,
    ;
}

/// From the inflection point onward the curve stands at or above the window
/// it is anchored at: the convex region wins the reduction back.
pub proof fn lemma_cubic_convex_at_origin(origin: int, mss: int, el: int, k: int)
    requires
        0 <= mss,
        0 <= k <= el,
    ensures
        spec_cubic_target(origin, mss, el, k) >= origin,
{
    let d = spec_cubic_d(el, k);
    assert(d >= 0);
    assert(2 * d * d * d >= 0) by (nonlinear_arith)
        requires
            d >= 0,
    ;
    let denom = CUBIC_DELTA_DENOM as int;
    lemma_div_pos_is_pos(2 * d * d * d, denom);
    let delta = (2 * d * d * d) / denom;
    assert(mss * delta >= 0) by (nonlinear_arith)
        requires
            mss >= 0,
            delta >= 0,
    ;
}

} // verus!
