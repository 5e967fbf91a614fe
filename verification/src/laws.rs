use vstd::prelude::*;
use crate::errors::EscrowError;
use crate::fees::spec_fee_split;
use crate::lifecycle::{
    spec_create_error, spec_created_record, spec_place_payment, spec_refund, spec_release,
    CreateAsymEscrowParams, PaymentOutcome, EscrowRefundedEvent,
};
use crate::state::{Address, AsymEscrow, EscrowStatus, ProgramConfig};

verus! {

/// Law: a record created under a well-formed configuration satisfies the
/// record invariant — in particular its payment counter covers the refunded
/// and released counters, so `paid - refunded - released` is never negative.
pub proof fn lemma_create_establishes_invariant(
    cfg: ProgramConfig,
    params: CreateAsymEscrowParams,
    creator: Address,
    now: i64,
    id: [u8; 32],
    has_token_mint: bool,
)
    requires
        cfg.well_formed(),
        spec_create_error(cfg, params, has_token_mint, now) is None,
    ensures
        spec_created_record(cfg, params, creator, now, id).well_formed(),
{
}

/// Law: recording a payment preserves the record invariant, so
/// `paid - refunded - released` stays non-negative.
pub proof fn lemma_payment_preserves_invariant(
    e: AsymEscrow,
    cfg: ProgramConfig,
    payer: Address,
    amount: u64,
    now: i64,
)
    requires
        e.well_formed(),
    ensures
        spec_place_payment(e, cfg, payer, amount, now).0.well_formed(),
{
}

/// Law: a consent call, with or without the release it may trigger,
/// preserves the record invariant, so `paid - refunded - released` stays
/// non-negative.
pub proof fn lemma_release_preserves_invariant(
    e: AsymEscrow,
    cfg: ProgramConfig,
    signer: Address,
    now: i64,
)
    requires
        e.well_formed(),
    ensures
        spec_release(e, cfg, signer, now).0.well_formed(),
{
}

/// Law: a refund preserves the record invariant, so
/// `paid - refunded - released` stays non-negative.
pub proof fn lemma_refund_preserves_invariant(
    e: AsymEscrow,
    cfg: ProgramConfig,
    signer: Address,
    amount: u64,
    now: i64,
)
    requires
        e.well_formed(),
    ensures
        spec_refund(e, cfg, signer, amount, now).0.well_formed(),
{
}

/// Law: for every fee rate within the basis-point range and every amount
/// whose product with the rate is representable, the split succeeds, the fee
/// and the transfer amount sum back to the whole, and the fee never exceeds
/// it.
pub proof fn lemma_fee_split_conserves(amount: u64, fee_bps: u16)
    requires
        fee_bps <= crate::constants::BPS_DENOMINATOR,
        amount * fee_bps <= u64::MAX,
    ensures
        spec_fee_split(amount, fee_bps) is Ok,
        spec_fee_split(amount, fee_bps) matches Ok(split) ==> split.0 + split.1 == amount
            && split.0 <= amount,
{
}

/// Law: giving release consent twice is idempotent. If a first call
/// succeeds without triggering the release, a second call by the same party
/// leaves the record exactly as the first left it, signals no assent and
/// triggers no transfer.
pub proof fn lemma_consent_idempotent(
    e: AsymEscrow,
    cfg: ProgramConfig,
    signer: Address,
    now: i64,
)
    requires
        e.well_formed(),
        spec_release(e, cfg, signer, now).1 is Ok,
        spec_release(e, cfg, signer, now).1->Ok_0.released is None,
    ensures
        ({
            let e1 = spec_release(e, cfg, signer, now).0;
            let second = spec_release(e1, cfg, signer, now);
            &&& second.0 == e1
            &&& second.1 is Ok
            &&& second.1->Ok_0.assent is None
            &&& second.1->Ok_0.released is None
        }),
{
}

/// Law: once a release has completed the escrow, a further consent call is
/// rejected and changes nothing.
pub proof fn lemma_completed_escrow_rejects_consent(
    e: AsymEscrow,
    cfg: ProgramConfig,
    signer: Address,
    now: i64,
)
    requires
        e.status == EscrowStatus::Completed,
    ensures
        spec_release(e, cfg, signer, now).0 == e,
        spec_release(e, cfg, signer, now).1 is Err,
{
}

/// Law: the release executes exactly when both consent flags stand after
/// the call; with only one of them set, the remaining amount is unchanged
/// and no transfer order is issued.
pub proof fn lemma_dual_consent_gate(e: AsymEscrow, cfg: ProgramConfig, signer: Address, now: i64)
    requires
        e.well_formed(),
    ensures
        ({
            let e1 = spec_release(e, cfg, signer, now).0;
            let r = spec_release(e, cfg, signer, now).1;
            &&& r matches Ok(outcome) ==> (outcome.released is Some <==> (e1.payer.released
                && e1.receiver.released))
            &&& (r matches Ok(outcome) && outcome.released is None) ==> e1.spec_amount_remaining()
                == e.spec_amount_remaining()
        }),
{
}

/// Law: a payment by any caller other than the payer is rejected as
/// unauthorized, on any open, unpaused record.
pub proof fn lemma_payment_requires_payer(
    e: AsymEscrow,
    cfg: ProgramConfig,
    caller: Address,
    amount: u64,
    now: i64,
)
    requires
        !cfg.paused,
        e.status != EscrowStatus::Completed,
        e.status != EscrowStatus::Arbitration,
        caller != e.payer.addr,
    ensures
        spec_place_payment(e, cfg, caller, amount, now).0 == e,
        spec_place_payment(e, cfg, caller, amount, now).1 == Err::<PaymentOutcome, EscrowError>(
            EscrowError::Unauthorized,
        ),
{
}

/// Law: a consent call by any caller who is neither the payer nor the
/// receiver is rejected as unauthorized, on any open, unpaused record.
pub proof fn lemma_release_requires_party(
    e: AsymEscrow,
    cfg: ProgramConfig,
    caller: Address,
    now: i64,
)
    requires
        !cfg.paused,
        e.status != EscrowStatus::Completed,
        e.status != EscrowStatus::Arbitration,
        caller != e.payer.addr,
        caller != e.receiver.addr,
    ensures
        spec_release(e, cfg, caller, now).0 == e,
        spec_release(e, cfg, caller, now).1 is Err,
        spec_release(e, cfg, caller, now).1->Err_0 == EscrowError::Unauthorized,
{
}

/// Law: a refund by any caller other than the receiver is rejected as
/// unauthorized, on any open, unpaused record.
pub proof fn lemma_refund_requires_receiver(
    e: AsymEscrow,
    cfg: ProgramConfig,
    caller: Address,
    amount: u64,
    now: i64,
)
    requires
        !cfg.paused,
        e.status != EscrowStatus::Completed,
        e.status != EscrowStatus::Arbitration,
        caller != e.receiver.addr,
    ensures
        spec_refund(e, cfg, caller, amount, now).0 == e,
        spec_refund(e, cfg, caller, amount, now).1 == Err::<EscrowRefundedEvent, EscrowError>(
            EscrowError::Unauthorized,
        ),
{
}

/// Law: on a positive clock reading, a creation whose end time equals the
/// clock reading (with an immediate start) is rejected for its end date once
/// every earlier check has passed.
pub proof fn lemma_end_time_at_now_rejected(
    cfg: ProgramConfig,
    params: CreateAsymEscrowParams,
    has_token_mint: bool,
    now: i64,
)
    requires
        !cfg.paused,
        !params.payer.spec_is_zero(),
        !params.receiver.spec_is_zero(),
        params.payer != params.receiver,
        params.amount > 0,
        params.currency.spec_is_zero() || has_token_mint,
        now > 0,
        params.start_time == 0,
        params.end_time == now,
    ensures
        spec_create_error(cfg, params, has_token_mint, now) == Some(EscrowError::InvalidEndDate),
{
}

/// Law: a creation with a zero end time never expires and is accepted
/// regardless of the clock reading, once every earlier check has passed.
pub proof fn lemma_no_expiry_accepted(
    cfg: ProgramConfig,
    params: CreateAsymEscrowParams,
    has_token_mint: bool,
    now: i64,
)
    requires
        !cfg.paused,
        !params.payer.spec_is_zero(),
        !params.receiver.spec_is_zero(),
        params.payer != params.receiver,
        params.amount > 0,
        params.currency.spec_is_zero() || has_token_mint,
        params.end_time == 0,
    ensures
        spec_create_error(cfg, params, has_token_mint, now) is None,
{
}

/// The rank of a status along the happy path: Pending before Active before
/// Completed; Arbitration stands apart, reserved for transitions no
/// operation of this core performs.
pub open spec fn spec_status_rank(s: EscrowStatus) -> int {
    match s {
        EscrowStatus::Pending => 0,
        EscrowStatus::Active => 1,
        EscrowStatus::Completed => 2,
        EscrowStatus::Arbitration => 3,
    }
}

/// Law: a payment only advances the status along the happy path, and never
/// moves a record into or out of Arbitration.
pub proof fn lemma_payment_status_monotonic(
    e: AsymEscrow,
    cfg: ProgramConfig,
    payer: Address,
    amount: u64,
    now: i64,
)
    ensures
        spec_status_rank(spec_place_payment(e, cfg, payer, amount, now).0.status)
            >= spec_status_rank(e.status),
        (spec_place_payment(e, cfg, payer, amount, now).0.status == EscrowStatus::Arbitration)
            <==> e.status == EscrowStatus::Arbitration,
{
}

/// Law: a consent call only advances the status along the happy path, and
/// never moves a record into or out of Arbitration.
pub proof fn lemma_release_status_monotonic(
    e: AsymEscrow,
    cfg: ProgramConfig,
    signer: Address,
    now: i64,
)
    ensures
        spec_status_rank(spec_release(e, cfg, signer, now).0.status) >= spec_status_rank(e.status),
        (spec_release(e, cfg, signer, now).0.status == EscrowStatus::Arbitration) <==> e.status
            == EscrowStatus::Arbitration,
{
}

/// Law: a refund only advances the status along the happy path, and never
/// moves a record into or out of Arbitration.
pub proof fn lemma_refund_status_monotonic(
    e: AsymEscrow,
    cfg: ProgramConfig,
    signer: Address,
    amount: u64,
    now: i64,
)
    ensures
        spec_status_rank(spec_refund(e, cfg, signer, amount, now).0.status) >= spec_status_rank(
            e.status,
        ),
        (spec_refund(e, cfg, signer, amount, now).0.status == EscrowStatus::Arbitration) <==> e.status
            == EscrowStatus::Arbitration,
{
}

/// Law: consent flags are monotonic. Once a party has given its release
/// assent, no operation of this core resets the flag.
pub proof fn lemma_consent_monotonic(
    e: AsymEscrow,
    cfg: ProgramConfig,
    caller: Address,
    amount: u64,
    now: i64,
)
    ensures
        e.payer.released ==> spec_place_payment(e, cfg, caller, amount, now).0.payer.released,
        e.receiver.released ==> spec_place_payment(e, cfg, caller, amount, now).0.receiver.released,
        e.payer.released ==> spec_release(e, cfg, caller, now).0.payer.released,
        e.receiver.released ==> spec_release(e, cfg, caller, now).0.receiver.released,
        e.payer.released ==> spec_refund(e, cfg, caller, amount, now).0.payer.released,
        e.receiver.released ==> spec_refund(e, cfg, caller, amount, now).0.receiver.released,
{
}

} // verus!
