//! Readings of the machine's clocks.
use vstd::prelude::*;

verus! {

/// Relies on `time::precise_time_ns`: a high-resolution counter in
/// nanoseconds since an unspecified epoch. Nothing is promised of the value.
#[verifier::external_body]
pub(crate) fn counter_nanos() -> (r: u64) {
    time::precise_time_ns()
}

/// Relies on `chrono::Local::now` and `DateTime::format`: the local time now,
/// written in one of the strftime patterns that the harness uses (all valid,
/// so writing them cannot fail). Nothing is promised of the text.
#[verifier::external_body]
pub(crate) fn local_time_text(pattern: &str) -> (r: String)
    requires
        pattern@ == "%H:%M:%S"@ || pattern@ == "%Y-%m-%d"@ || pattern@ == "%Y-%m-%d %H:%M:%S"@,
{
    chrono::Local::now().format(pattern).to_string()
}

} // verus!
