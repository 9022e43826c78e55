//! Startup configuration consumed by the engine: report cadence and the
//! slow-start threshold. The values arrive already parsed; the engine never
//! reads command lines itself.

use vstd::prelude::*;
use crate::MAX_CWND;

verus! {

/// When the datapath should emit a measurement report for a flow.
#[derive(Clone, Copy, PartialEq, Eq, Structural)]
pub enum ReportOption {
    /// One report per acknowledgement.
    PerAck,
    /// One report per round trip.
    PerRtt,
    /// One report per fixed interval, in milliseconds.
    FixedInterval(u64),
}

/// Algorithm parameters chosen at startup. Immutable once a flow is set up;
/// the cadence affects reporting only, never the control law.
#[derive(Clone, Copy, PartialEq, Eq, Structural)]
pub struct Config {
    /// Report cadence handed to the datapath.
    pub report: ReportOption,
    /// Window size, in bytes, at which slow start ends even without loss.
    pub ss_thresh: u64,
}

impl Config {
    /// Build the parameters from externally parsed options. Pure
    /// construction: a missing threshold means slow start runs until the
    /// first loss, which the saturation cap `MAX_CWND` expresses.
    pub fn configure(report: ReportOption, ss_thresh: Option<u64>) -> (c: Config)
        ensures
            c.report == report,
            c.ss_thresh == (match ss_thresh {
                Some(t) => t,
                None => MAX_CWND,
            }),
    {
        let thresh: u64 = match ss_thresh {
            Some(t) => t,
            None => MAX_CWND,
        };
        Config { report, ss_thresh: thresh }
    }
}

} // verus!
