//! The Reno control law: additive increase of one segment per round trip,
//! multiplicative decrease by half on loss, floored at the initial window.

use vstd::prelude::*;
use crate::MAX_CWND;
use crate::spec_clamp_floor;

verus! {

/// Marker for the Reno variant of the control law; its state is entirely the
/// generic flow state, so the strategy itself carries nothing.
#[derive(Clone, Copy, PartialEq, Eq, Structural)]
pub struct Reno {
}

/// The Reno additive increase: the window grows by `mss * acked / cwnd`
/// bytes, one segment per window's worth of acknowledged data, saturating at
/// `MAX_CWND`.
pub open spec fn spec_reno_increase(cwnd: int, mss: int, acked: int) -> int {
    let grown = cwnd + (mss * acked) / cwnd;
    if grown > MAX_CWND as int {
        MAX_CWND as int
    } else {
        grown
    }
}

/// The Reno reduction: the window is halved, then floored at `init_cwnd`.
pub open spec fn spec_reno_reduction(cwnd: int, init_cwnd: int) -> int {
    spec_clamp_floor(cwnd / 2, init_cwnd)
}

impl Reno {
    /// Stable identifier for this variant, used for selection and telemetry.
    pub fn name() -> (r: &'static str)
        ensures
            r@ == "reno"@,
    {
        "reno"
    }
}

/// One Reno increase step on a window of `cwnd` bytes after `acked` bytes
/// were acknowledged. The window never shrinks here.
pub fn reno_increase(cwnd: u64, mss: u32, acked: u32) -> (r: u64)
    requires
        1 <= cwnd <= MAX_CWND,
    ensures
        r == spec_reno_increase(cwnd as int, mss as int, acked as int),
        r >= cwnd,
{
    proof {
        assert((mss as int) * (acked as int) <= 0xFFFF_FFFFint * 0xFFFF_FFFFint)
            by (nonlinear_arith)
            requires
                mss as int <= 0xFFFF_FFFFint && acked as int <= 0xFFFF_FFFFint && 0 <= mss as int
                    && 0 <= acked as int,
        ;
    }
    let gain: u64 = ((mss as u64) * (acked as u64)) / cwnd;
    if gain > MAX_CWND - cwnd {
        MAX_CWND
    } else {
        cwnd + gain
    }
}

/// One Reno reduction step: halve the window, never below `init_cwnd`. The
/// result never exceeds the window it started from.
pub fn reno_reduction(cwnd: u64, init_cwnd: u64) -> (r: u64)
    requires
        init_cwnd <= cwnd,
    ensures
        r == spec_reno_reduction(cwnd as int, init_cwnd as int),
        init_cwnd <= r <= cwnd,
{
    crate::clamp_floor(cwnd / 2, init_cwnd)
}

} // verus!
