use vstd::prelude::*;

verus! {

/// Minimum buffer between the clock reading at creation time and a non-zero
/// end time (one hour, in seconds).
pub const MIN_END_TIME_BUFFER: i64 = 3600;

/// Denominator of a fee expressed in basis points (10000 = 100%).
pub const BPS_DENOMINATOR: u64 = 10000;

} // verus!
