use vstd::prelude::*;

verus! {

/// Relies on `SystemTime::elapsed` of `UNIX_EPOCH`: the wall clock, read as
/// milliseconds since the Unix epoch (0 for a clock set before it). Nothing
/// is promised of the value.
#[verifier::external_body]
pub(crate) fn now_millis() -> (r: u64) {
    std::time::UNIX_EPOCH.elapsed().map(|d| d.as_millis() as u64).unwrap_or(0)
}

} // verus!
