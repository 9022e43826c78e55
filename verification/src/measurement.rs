//! The measurement aggregator: raw per-report fields from the datapath are
//! normalized into a well-formed snapshot before they reach the control law.

use vstd::prelude::*;

verus! {

/// One reporting interval's worth of signals for a flow.
#[derive(Clone, Copy)]
pub struct MeasurementSnapshot {
    /// Bytes acknowledged during the interval.
    pub acked: u32,
    /// Packets reported lost during the interval.
    pub lost: u32,
    /// Whether the datapath observed a timeout during the interval.
    pub was_timeout: bool,
    /// Round-trip-time sample in microseconds, when one was taken.
    pub rtt_us: Option<u32>,
}

/// A raw count clamped into `[0, u32::MAX]`: negative garbage from a
/// misbehaving report is treated as zero rather than poisoning the law.
pub open spec fn spec_normalize_count(raw: int) -> u32 {
    if raw < 0 {
        0u32
    } else if raw > 0xFFFF_FFFF {
        0xFFFF_FFFFu32
    } else {
        raw as u32
    }
}

/// Whether a snapshot calls for a window reduction: any loss or a timeout.
pub open spec fn spec_needs_reduction(m: MeasurementSnapshot) -> bool {
    m.lost > 0 || m.was_timeout
}

impl MeasurementSnapshot {
    /// Build a snapshot from the datapath's raw report fields. Malformed
    /// negative counts are clamped to zero and a non-positive RTT sample is
    /// dropped, so the snapshot always carries non-negative signals.
    pub fn from_raw(raw_acked: i64, raw_lost: i64, was_timeout: bool, raw_rtt_us: i64) -> (m:
        MeasurementSnapshot)
        ensures
            m.acked == spec_normalize_count(raw_acked as int),
            m.lost == spec_normalize_count(raw_lost as int),
            m.was_timeout == was_timeout,
            m.rtt_us == (if raw_rtt_us <= 0 {
                None::<u32>
            } else {
                Some(spec_normalize_count(raw_rtt_us as int))
            }),
    {
        let rtt_us: Option<u32> = if raw_rtt_us <= 0 {
            None
        } else {
            Some(normalize_count(raw_rtt_us))
        };
        MeasurementSnapshot {
            acked: normalize_count(raw_acked),
            lost: normalize_count(raw_lost),
            was_timeout,
            rtt_us,
        }
    }
}

/// Clamp one raw count into `[0, u32::MAX]`.
fn normalize_count(raw: i64) -> (r: u32)
    ensures
        r == spec_normalize_count(raw as int),
{
    if raw < 0 {
        0
    } else if raw > 0xFFFF_FFFF {
        0xFFFF_FFFF
    } else {
        raw as u32
    }
}

} // verus!
