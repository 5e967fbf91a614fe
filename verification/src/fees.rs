use vstd::prelude::*;
use crate::constants::BPS_DENOMINATOR;
use crate::errors::EscrowError;

verus! {

/// The fee owed on `amount` at `fee_bps` basis points, before any clamping:
/// floor(amount * fee_bps / 10000), as an unbounded integer.
pub open spec fn spec_raw_fee(amount: u64, fee_bps: u16) -> int {
    (amount * fee_bps) / (BPS_DENOMINATOR as int)
}

/// The exact value of the fee/transfer split.
///
/// A zero rate splits into `(0, amount)` outright. Otherwise the fee is
/// `floor(amount * fee_bps / 10000)`, computed with overflow-checked
/// multiplication; a fee that would exceed `amount` (possible only when
/// `fee_bps > 10000`) falls back to `(0, amount)`.
pub open spec fn spec_fee_split(amount: u64, fee_bps: u16) -> Result<(u64, u64), EscrowError> {
    if fee_bps == 0 {
        Ok((0u64, amount))
    } else if amount * fee_bps > u64::MAX {
        Err(EscrowError::ArithmeticOverflow)
    } else if spec_raw_fee(amount, fee_bps) > amount {
        Ok((0u64, amount))
    } else {
        Ok((spec_raw_fee(amount, fee_bps) as u64, (amount - spec_raw_fee(amount, fee_bps)) as u64))
    }
}

/// Split `amount` into a fee for the fee vault and the amount to transfer.
///
/// Whatever the rate, a successful split conserves the whole: the two parts
/// sum back to `amount` and the fee never exceeds it. The only failure is
/// arithmetic overflow of `amount * fee_bps`, so a rate within the basis-point
/// range always succeeds on amounts whose product fits.
pub fn calculate_fee_and_amount(amount: u64, fee_bps: u16) -> (r: Result<(u64, u64), EscrowError>)
    ensures
        r == spec_fee_split(amount, fee_bps),
        r matches Ok(split) ==> split.0 + split.1 == amount && split.0 <= amount,
        r is Err <==> (fee_bps != 0 && amount * fee_bps > u64::MAX),
        r is Err ==> r == Err::<(u64, u64), EscrowError>(EscrowError::ArithmeticOverflow),
{
    if fee_bps == 0 {
        return Ok((0, amount));
    }

    let raw = match amount.checked_mul(fee_bps as u64) {
        Some(product) => product,
        None => {
            return Err(EscrowError::ArithmeticOverflow);
        },
    };
    let fee = match raw.checked_div(BPS_DENOMINATOR) {
        Some(quotient) => quotient,
        None => {
            return Err(EscrowError::ArithmeticOverflow);
        },
    };

    if fee > amount {
        return Ok((0, amount));
    }

    let amount_to_pay = match amount.checked_sub(fee) {
        Some(difference) => difference,
        None => {
            return Err(EscrowError::ArithmeticOverflow);
        },
    };

    Ok((fee, amount_to_pay))
}

} // verus!
