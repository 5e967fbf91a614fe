use vstd::prelude::*;
use crate::constants::MIN_END_TIME_BUFFER;
use crate::errors::EscrowError;

verus! {

/// Whether the clock reading `now` falls inside the window
/// `[start_time, end_time]`. A bound of zero (or below) leaves that side of
/// the window open.
pub open spec fn spec_time_active(now: i64, start_time: i64, end_time: i64) -> bool {
    &&& start_time > 0 ==> now >= start_time
    &&& end_time > 0 ==> now <= end_time
}

/// Whether a proposed schedule is acceptable at creation time: a non-zero end
/// must lie more than an hour past `now` and strictly after the start. A zero
/// (or negative) end means the escrow never expires and the rule is skipped.
pub open spec fn spec_schedule_ok(now: i64, start_time: i64, end_time: i64) -> bool {
    end_time > 0 ==> (end_time > now + MIN_END_TIME_BUFFER && end_time > start_time)
}

/// Validate a proposed schedule against the clock reading `now`.
pub fn validate_escrow_dates(now: i64, start_time: i64, end_time: i64) -> (r: Result<
    (),
    EscrowError,
>)
    ensures
        r is Ok <==> spec_schedule_ok(now, start_time, end_time),
        r is Err ==> r == Err::<(), EscrowError>(EscrowError::InvalidEndDate),
{
    if end_time > 0 {
        // `end_time > now + 3600` is tested as `end_time - 3600 > now`, which
        // cannot underflow since `end_time` is positive here.
        if end_time - MIN_END_TIME_BUFFER > now && end_time > start_time {
            Ok(())
        } else {
            Err(EscrowError::InvalidEndDate)
        }
    } else {
        Ok(())
    }
}

} // verus!
