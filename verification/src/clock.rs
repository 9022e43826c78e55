//! Wall-clock access for diagnostic timestamps. The control law itself never
//! reads the clock: flow updates take the current time as an argument, so
//! every decision is a function of explicit inputs.

use vstd::prelude::*;

verus! {

/// Relies on `std::time::SystemTime::now`: the reading is converted to
/// milliseconds past the Unix epoch with `duration_since(UNIX_EPOCH)`, and a
/// clock that reads earlier than the epoch yields 0. Nothing is promised of
/// the result: the clock can return anything.
#[verifier::external_body]
fn now_unix_millis() -> u128 {
    match std::time::SystemTime::now().duration_since(std::time::SystemTime::UNIX_EPOCH) {
        Ok(elapsed) => elapsed.as_millis(),
        Err(_) => 0,
    }
}

/// Milliseconds since the Unix epoch, for timestamping telemetry lines. No
/// decision of the engine depends on it.
pub fn system_time() -> u128 {
    now_unix_millis()
}

} // verus!

