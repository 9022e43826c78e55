//! The per-flow state machine: current window, slow-start versus
//! congestion-avoidance mode, and the bound control-law variant. Every
//! update is a pure function of the flow's own state, the measurement
//! snapshot and the clock reading handed in, so a flow's trajectory is
//! reproducible from its inputs alone.

use vstd::prelude::*;
use vstd::arithmetic::div_mod::lemma_div_is_ordered;
use vstd::arithmetic::div_mod::lemma_div_multiples_vanish;
use vstd::arithmetic::div_mod::lemma_div_nonincreasing;
use vstd::arithmetic::div_mod::lemma_div_pos_is_pos;
use vstd::arithmetic::mul::lemma_mul_nonnegative;
use crate::MAX_CWND;
use crate::spec_clamp_floor;
use crate::clamp_floor;
use crate::cubic::CubicState;
use crate::cubic::CUBIC_TIME_HORIZON_MS;
use crate::cubic::cubic_k_ms;
use crate::cubic::cubic_reduction;
use crate::cubic::cubic_target;
use crate::cubic::spec_cap_cwnd;
use crate::cubic::spec_cubic_fresh;
use crate::cubic::spec_cubic_reduction;
use crate::cubic::spec_cubic_target;
use crate::cubic::spec_icbrt;
use crate::cubic::spec_k_cube;
use crate::measurement::MeasurementSnapshot;
use crate::measurement::spec_needs_reduction;
use crate::config::Config;
use crate::reno::reno_increase;
use crate::reno::reno_reduction;
use crate::reno::spec_reno_increase;
use crate::reno::spec_reno_reduction;

verus! {

/// Immutable facts the datapath supplies when it opens a flow.
#[derive(Clone, Copy, PartialEq, Eq, Structural)]
pub struct DatapathInfo {
    /// Opaque handle the datapath assigned to the flow.
    pub sock_id: u32,
    /// Initial congestion window, in bytes.
    pub init_cwnd: u32,
    /// Maximum segment size, in bytes.
    pub mss: u32,
    /// Source address of the flow's 4-tuple.
    pub src_ip: u32,
    /// Source port of the flow's 4-tuple.
    pub src_port: u32,
    /// Destination address of the flow's 4-tuple.
    pub dst_ip: u32,
    /// Destination port of the flow's 4-tuple.
    pub dst_port: u32,
}

/// The two phases a flow can be in.
#[derive(Clone, Copy, PartialEq, Eq, Structural)]
pub enum Mode {
    /// Initial fast growth: the window grows by the bytes acknowledged.
    SlowStart,
    /// Steady state: the bound control law shapes the growth.
    CongestionAvoidance,
}

/// Which control law a flow is bound to, chosen at flow creation.
#[derive(Clone, Copy, PartialEq, Eq, Structural)]
pub enum AlgKind {
    /// Additive increase, halve on loss.
    Reno,
    /// Cubic growth around the pre-loss maximum.
    Cubic,
}

/// The bound control law together with its variant-specific state.
#[derive(Clone, Copy, PartialEq, Eq, Structural)]
pub enum AlgState {
    /// The Reno law carries no state beyond the generic flow state.
    Reno,
    /// The Cubic law carries its epoch and origin bookkeeping.
    Cubic(CubicState),
}

/// One flow's mutable control-law state.
#[derive(Clone, Copy, PartialEq, Eq, Structural)]
pub struct FlowState {
    /// Maximum segment size, in bytes; at least one.
    pub mss: u32,
    /// The floor the window never drops below, in bytes.
    pub init_cwnd: u64,
    /// Current congestion window, in bytes.
    pub cwnd: u64,
    /// Window size at which slow start ends even without a loss.
    pub ss_thresh: u64,
    /// Current phase.
    pub mode: Mode,
    /// The bound control law and its sub-state.
    pub alg: AlgState,
}

impl FlowState {
    /// Well-formedness: the window always sits between its floor and the
    /// representable cap, the floor covers at least one segment, and Cubic's
    /// bookkeeping stays within the ranges its arithmetic was proved for.
    pub open spec fn wf(self) -> bool {
        &&& 1 <= self.mss
        &&& self.mss as int <= self.init_cwnd as int
        &&& self.init_cwnd <= self.cwnd
        &&& self.cwnd <= MAX_CWND
        &&& match self.alg {
            AlgState::Reno => true,
            AlgState::Cubic(c) => c.last_max_cwnd <= MAX_CWND && c.origin_cwnd <= MAX_CWND
                && c.k_ms <= CUBIC_TIME_HORIZON_MS,
        }
    }
}

/// Initial state for a fresh flow: the window starts at the initial window,
/// in slow start, with the variant's sub-state zeroed. A zero segment size
/// and a floor below one segment are normalized upward, so the division
/// guards of the laws always hold.
pub open spec fn spec_new_flow(kind: AlgKind, info: DatapathInfo, cfg: Config) -> FlowState {
    let mss = if info.mss == 0 {
        1u32
    } else {
        info.mss
    };
    let floor = if (info.init_cwnd as int) < (mss as int) {
        mss as u64
    } else {
        info.init_cwnd as u64
    };
    FlowState {
        mss,
        init_cwnd: floor,
        cwnd: floor,
        ss_thresh: cfg.ss_thresh,
        mode: Mode::SlowStart,
        alg: match kind {
            AlgKind::Reno => AlgState::Reno,
            AlgKind::Cubic => AlgState::Cubic(spec_cubic_fresh()),
        },
    }
}

/// The reduction transition: the bound law shrinks the window, Cubic records
/// the pre-reduction window as its new maximum and resets its epoch, and the
/// flow leaves slow start for good.
pub open spec fn spec_reduce(s: FlowState) -> FlowState {
    match s.alg {
        AlgState::Reno => FlowState {
            cwnd: spec_reno_reduction(s.cwnd as int, s.init_cwnd as int) as u64,
            mode: Mode::CongestionAvoidance,
            ..s
        },
        AlgState::Cubic(c) => FlowState {
            cwnd: spec_cubic_reduction(s.cwnd as int, s.init_cwnd as int) as u64,
            mode: Mode::CongestionAvoidance,
            alg: AlgState::Cubic(
                CubicState {
                    last_max_cwnd: s.cwnd,
                    epoch_started: false,
                    epoch_start_ms: 0,
                    origin_cwnd: 0,
                    k_ms: 0,
                },
            ),
            ..s
        },
    }
}

/// Cubic bookkeeping at the first growth step after a reduction: the epoch
/// starts now, anchored at the old maximum when there is ground to win back
/// and at the current window otherwise.
pub open spec fn spec_epoch_start(c: CubicState, cwnd: u64, mss: u32, now_ms: u64) -> CubicState {
    CubicState {
        last_max_cwnd: c.last_max_cwnd,
        epoch_started: true,
        epoch_start_ms: now_ms,
        origin_cwnd: if c.last_max_cwnd > cwnd {
            c.last_max_cwnd
        } else {
            cwnd
        },
        k_ms: spec_icbrt(spec_k_cube(c.last_max_cwnd as int, cwnd as int, mss as int)) as u64,
    }
}

/// The growth transition for a loss-free interval: slow start grows by the
/// bytes acknowledged and hands over to congestion avoidance at the
/// threshold; in congestion avoidance the bound law shapes the growth, and
/// neither law ever shrinks the window here.
pub open spec fn spec_grow(s: FlowState, m: MeasurementSnapshot, now_ms: u64) -> FlowState {
    match s.mode {
        Mode::SlowStart => {
            let grown = s.cwnd as int + m.acked as int;
            let c2 = if grown > MAX_CWND as int {
                MAX_CWND as int
            } else {
                grown
            };
            FlowState {
                cwnd: c2 as u64,
                mode: if c2 >= s.ss_thresh as int {
                    Mode::CongestionAvoidance
                } else {
                    Mode::SlowStart
                },
                ..s
            }
        },
        Mode::CongestionAvoidance => match s.alg {
            AlgState::Reno => FlowState {
                cwnd: spec_reno_increase(s.cwnd as int, s.mss as int, m.acked as int) as u64,
                ..s
            },
            AlgState::Cubic(c0) => {
                let c1 = if !c0.epoch_started {
                    spec_epoch_start(c0, s.cwnd, s.mss, now_ms)
                } else {
                    c0
                };
                let el = if now_ms as int >= c1.epoch_start_ms as int {
                    now_ms as int - c1.epoch_start_ms as int
                } else {
                    0
                };
                let t = spec_cap_cwnd(
                    spec_cubic_target(c1.origin_cwnd as int, s.mss as int, el, c1.k_ms as int),
                );
                FlowState {
                    cwnd: if t > s.cwnd as int {
                        t as u64
                    } else {
                        s.cwnd
                    },
                    alg: AlgState::Cubic(c1),
                    ..s
                }
            },
        },
    }
}

/// One full measurement update: a loss or timeout routes to the reduction,
/// anything else to the growth, and the result is clamped at the flow's
/// floor before it is handed back.
pub open spec fn spec_on_measurement(s: FlowState, m: MeasurementSnapshot, now_ms: u64) -> FlowState {
    let s1 = if spec_needs_reduction(m) {
        spec_reduce(s)
    } else {
        spec_grow(s, m, now_ms)
    };
    FlowState { cwnd: spec_clamp_floor(s1.cwnd as int, s.init_cwnd as int) as u64, ..s1 }
}

impl FlowState {
    /// Factory for a fresh flow bound to `kind`, from the datapath's facts
    /// and the startup configuration.
    pub fn new_flow(kind: AlgKind, info: &DatapathInfo, cfg: &Config) -> (f: FlowState)
        ensures
            f == spec_new_flow(kind, *info, *cfg),
            f.wf(),
            f.mode == Mode::SlowStart,
            f.cwnd == f.init_cwnd,
    {
        let mss: u32 = if info.mss == 0 {
            1
        } else {
            info.mss
        };
        let floor: u64 = if (info.init_cwnd as u64) < (mss as u64) {
            mss as u64
        } else {
            info.init_cwnd as u64
        };
        FlowState {
            mss,
            init_cwnd: floor,
            cwnd: floor,
            ss_thresh: cfg.ss_thresh,
            mode: Mode::SlowStart,
            alg: match kind {
                AlgKind::Reno => AlgState::Reno,
                AlgKind::Cubic => AlgState::Cubic(
                    CubicState {
                        last_max_cwnd: 0,
                        epoch_started: false,
                        epoch_start_ms: 0,
                        origin_cwnd: 0,
                        k_ms: 0,
                    },
                ),
            },
        }
    }

    /// The current window, as the 32-bit value the datapath enforces.
    pub fn curr_cwnd(&self) -> (r: u32)
        requires
            self.wf(),
        ensures
            r as int == self.cwnd as int,
    {
        self.cwnd as u32
    }

    /// Explicit window override from the datapath, bypassing the laws'
    /// arithmetic; only the floor clamp still applies.
    pub fn set_cwnd(&mut self, cwnd: u32)
        requires
            old(self).wf(),
        ensures
            *final(self) == (FlowState {
                cwnd: spec_clamp_floor(cwnd as int, old(self).init_cwnd as int) as u64,
                ..*old(self)
            }),
            final(self).wf(),
    {
        self.cwnd = clamp_floor(cwnd as u64, self.init_cwnd);
    }

    /// Apply one measurement snapshot: a reduction on loss or timeout, a
    /// growth step otherwise, then the floor clamp; the new window is
    /// returned for the datapath to enforce. The update is a function of
    /// the state, the snapshot and the clock reading alone.
    pub fn on_measurement(&mut self, m: &MeasurementSnapshot, now_ms: u64) -> (r: u32)
        requires
            old(self).wf(),
        ensures
            *final(self) == spec_on_measurement(*old(self), *m, now_ms),
            final(self).wf(),
            r as int == final(self).cwnd as int,
            final(self).cwnd >= old(self).init_cwnd,
            final(self).init_cwnd == old(self).init_cwnd,
            spec_needs_reduction(*m) ==> final(self).cwnd <= old(self).cwnd,
            !spec_needs_reduction(*m) ==> final(self).cwnd >= old(self).cwnd,
    {
        if m.lost > 0 || m.was_timeout {
            match self.alg {
                AlgState::Reno => {
                    self.cwnd = reno_reduction(self.cwnd, self.init_cwnd);
                },
                AlgState::Cubic(_) => {
                    let pre: u64 = self.cwnd;
                    self.cwnd = cubic_reduction(self.cwnd, self.init_cwnd);
                    self.alg = AlgState::Cubic(
                        CubicState {
                            last_max_cwnd: pre,
                            epoch_started: false,
                            epoch_start_ms: 0,
                            origin_cwnd: 0,
                            k_ms: 0,
                        },
                    );
                },
            }
            self.mode = Mode::CongestionAvoidance;
        } else {
            match self.mode {
                Mode::SlowStart => {
                    let acked: u64 = m.acked as u64;
                    self.cwnd = if acked > MAX_CWND - self.cwnd {
                        MAX_CWND
                    } else {
                        self.cwnd + acked
                    };
                    if self.cwnd >= self.ss_thresh {
                        self.mode = Mode::CongestionAvoidance;
                    }
                },
                Mode::CongestionAvoidance => {
                    match self.alg {
                        AlgState::Reno => {
                            self.cwnd = reno_increase(self.cwnd, self.mss, m.acked);
                        },
                        AlgState::Cubic(c0) => {
                            let c1: CubicState = if !c0.epoch_started {
                                CubicState {
                                    last_max_cwnd: c0.last_max_cwnd,
                                    epoch_started: true,
                                    epoch_start_ms: now_ms,
                                    origin_cwnd: if c0.last_max_cwnd > self.cwnd {
                                        c0.last_max_cwnd
                                    } else {
                                        self.cwnd
                                    },
                                    k_ms: cubic_k_ms(c0.last_max_cwnd, self.cwnd, self.mss),
                                }
                            } else {
                                c0
                            };
                            let el: u64 = if now_ms >= c1.epoch_start_ms {
                                now_ms - c1.epoch_start_ms
                            } else {
                                0
                            };
                            let t: u64 = cubic_target(c1.origin_cwnd, self.mss, el, c1.k_ms);
                            if t > self.cwnd {
                                self.cwnd = t;
                            }
                            self.alg = AlgState::Cubic(c1);
                        },
                    }
                },
            }
        }
        self.cwnd = clamp_floor(self.cwnd, self.init_cwnd);
        self.cwnd as u32
    }
}

/// An interval with no loss and no timeout never decreases the window.
pub proof fn lemma_no_loss_never_shrinks(s: FlowState, m: MeasurementSnapshot, now_ms: u64)
    requires
        s.wf(),
        !spec_needs_reduction(m),
    ensures
        spec_on_measurement(s, m, now_ms).cwnd >= s.cwnd,
{
    if s.mode == Mode::CongestionAvoidance && s.alg == AlgState::Reno {
        lemma_mul_nonnegative(s.mss as int, m.acked as int);
        lemma_div_pos_is_pos(s.mss as int * m.acked as int, s.cwnd as int);
    }
}

/// An interval with loss or a timeout never increases the window, and the
/// reduced window never falls below the flow's initial-window floor.
pub proof fn lemma_loss_shrinks_within_floor(s: FlowState, m: MeasurementSnapshot, now_ms: u64)
    requires
        s.wf(),
        spec_needs_reduction(m),
    ensures
        spec_on_measurement(s, m, now_ms).cwnd <= s.cwnd,
        spec_on_measurement(s, m, now_ms).cwnd >= s.init_cwnd,
{
    match s.alg {
        AlgState::Reno => {
            lemma_div_nonincreasing(s.cwnd as int, 2);
            lemma_div_pos_is_pos(s.cwnd as int, 2);
        },
        AlgState::Cubic(_) => {
            lemma_div_is_ordered(7 * s.cwnd as int, 10 * s.cwnd as int, 10);
            lemma_div_multiples_vanish(s.cwnd as int, 10);
        },
    }
}

/// A growth epoch that starts below the old maximum anchors its curve at
/// that maximum, and the curve stays strictly below the maximum as long as
/// the elapsed time is short of the epoch's inflection point.
pub proof fn lemma_concave_region_stays_below_last_max(
    c: CubicState,
    cwnd: u64,
    mss: u32,
    now_ms: u64,
    el: int,
)
    requires
        1 <= mss,
        c.last_max_cwnd > cwnd,
        0 <= el < spec_epoch_start(c, cwnd, mss, now_ms).k_ms,
    ensures
        spec_cubic_target(
            spec_epoch_start(c, cwnd, mss, now_ms).origin_cwnd as int,
            mss as int,
            el,
            spec_epoch_start(c, cwnd, mss, now_ms).k_ms as int,
        ) < c.last_max_cwnd,
{
    let e = spec_epoch_start(c, cwnd, mss, now_ms);
    crate::cubic::lemma_cubic_concave_below_origin(
        e.origin_cwnd as int,
        mss as int,
        el,
        e.k_ms as int,
    );
}

/// A flow's update has no hidden inputs: two flows in the same state, given
/// the same snapshot and the same clock reading, move to the same state, so
/// a trajectory is reproducible from its input sequence alone.
pub proof fn lemma_update_is_deterministic(
    a: FlowState,
    b: FlowState,
    m: MeasurementSnapshot,
    now_ms: u64,
)
    requires
        a == b,
    ensures
        spec_on_measurement(a, m, now_ms) == spec_on_measurement(b, m, now_ms),
{
}

} // verus!
