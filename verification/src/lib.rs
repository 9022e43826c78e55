//! A congestion-control decision engine: per-flow state machines that turn
//! measurement reports (bytes acked, losses, timeouts) into congestion-window
//! updates, parameterized by a pluggable control law (Reno or Cubic), with a
//! driver that owns the set of active flows and routes datapath callbacks.

use vstd::prelude::*;

pub mod clock;
pub mod config;
pub mod cubic;
pub mod driver;
pub mod flow;
pub mod measurement;
pub mod reno;

verus! {

/// Largest congestion window the engine ever hands back, in bytes. The
/// datapath enforces a 32-bit window, so every control law saturates here.
pub const MAX_CWND: u64 = 0xFFFF_FFFF;

/// The floor clamp: a window is never allowed below `floor` bytes.
pub open spec fn spec_clamp_floor(cwnd: int, floor: int) -> int {
    if cwnd < floor {
        floor
    } else {
        cwnd
    }
}

/// Clamp a window to at least `floor` bytes.
pub fn clamp_floor(cwnd: u64, floor: u64) -> (r: u64)
    ensures
        r == spec_clamp_floor(cwnd as int, floor as int),
{
    if cwnd < floor {
        floor
    } else {
        cwnd
    }
}

/// Applying the floor clamp twice yields the same window as applying it once.
pub proof fn lemma_clamp_floor_idempotent(cwnd: int, floor: int)
    ensures
        spec_clamp_floor(spec_clamp_floor(cwnd, floor), floor) == spec_clamp_floor(cwnd, floor),
{
}

} // verus!
