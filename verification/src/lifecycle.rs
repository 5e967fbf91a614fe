use vstd::prelude::*;
use crate::constants::BPS_DENOMINATOR;
use crate::errors::EscrowError;
use crate::fees::{calculate_fee_and_amount, spec_fee_split};
use crate::ident::{escrow_id_of, generate_escrow_id};
use crate::state::{
    Address, AsymEscrow, CurrencyType, EscrowParty, EscrowStatus, ProgramConfig,
    ReleaseAssentType,
};
use crate::timing::{spec_schedule_ok, spec_time_active, validate_escrow_dates};

verus! {

/// Signal: a new escrow record was created.
#[derive(Clone, Copy, Debug, PartialEq)]
pub struct EscrowCreatedEvent {
    pub escrow_id: [u8; 32],
    pub creator: Address,
    pub payer: Address,
    pub receiver: Address,
    pub amount: u64,
}

/// Signal: a payment was recorded against an escrow.
#[derive(Clone, Copy, Debug, PartialEq)]
pub struct PaymentReceivedEvent {
    pub escrow_id: [u8; 32],
    pub payer: Address,
    pub amount: u64,
    pub total_paid: u64,
    pub fully_paid: bool,
}

/// Signal: the cumulative payments reached the required amount.
#[derive(Clone, Copy, Debug, PartialEq)]
pub struct EscrowFullyPaidEvent {
    pub escrow_id: [u8; 32],
    pub total_amount: u64,
}

/// Signal: a party gave its release assent.
#[derive(Clone, Copy, Debug, PartialEq)]
pub struct ReleaseAssentGivenEvent {
    pub escrow_id: [u8; 32],
    pub assenting_address: Address,
    pub assent_type: ReleaseAssentType,
}

/// Signal: a release was executed. Its amounts are the transfer orders the
/// host must carry out: `amount` to the receiver and `fee` to the fee vault.
#[derive(Clone, Copy, Debug, PartialEq)]
pub struct EscrowReleasedEvent {
    pub escrow_id: [u8; 32],
    pub amount: u64,
    pub fee: u64,
}

/// Signal: a refund was executed. `amount` is the transfer order back to the
/// payer that the host must carry out.
#[derive(Clone, Copy, Debug, PartialEq)]
pub struct EscrowRefundedEvent {
    pub escrow_id: [u8; 32],
    pub amount: u64,
}

/// Caller-supplied parameters of `create_escrow`.
#[derive(Clone, Copy, Debug, PartialEq)]
pub struct CreateAsymEscrowParams {
    /// The paying party (an all-zero address is rejected).
    pub payer: Address,
    /// The receiving party (an all-zero address is rejected).
    pub receiver: Address,
    /// Currency reference; all-zero for the native asset.
    pub currency: Address,
    /// Amount the payer owes.
    pub amount: u64,
    /// When the active window opens (0 = immediately).
    pub start_time: i64,
    /// When the active window closes (0 = never).
    pub end_time: i64,
    /// Nonce that makes the record's identifier unique per creator.
    pub nonce: u64,
}

/// Caller-supplied parameters of `initialize_program`.
#[derive(Clone, Copy, Debug, PartialEq)]
pub struct InitializeProgramParams {
    /// Address credited with extracted fees.
    pub fee_vault: Address,
    /// Fee rate every new escrow record is seeded with.
    pub default_fee_bps: u16,
}

/// What a successful `place_payment` reports.
#[derive(Clone, Copy, Debug, PartialEq)]
pub struct PaymentOutcome {
    /// Signal emitted for every recorded payment.
    pub received: PaymentReceivedEvent,
    /// Signal emitted when this payment brought the total to the required
    /// amount or beyond.
    pub fully_paid: Option<EscrowFullyPaidEvent>,
}

/// What a successful `release_escrow` reports.
#[derive(Clone, Copy, Debug, PartialEq)]
pub struct ReleaseOutcome {
    /// Signal emitted when this call records a new assent; absent when the
    /// caller had already consented.
    pub assent: Option<ReleaseAssentGivenEvent>,
    /// Signal emitted when both assents are in and the release executed.
    pub released: Option<EscrowReleasedEvent>,
}

/// Build the program configuration: the given authority and fee vault, the
/// given default fee rate, and the pause switch off.
pub fn initialize_program(authority: &Address, params: &InitializeProgramParams) -> (cfg:
    ProgramConfig)
    ensures
        cfg.authority == *authority,
        cfg.fee_vault == params.fee_vault,
        cfg.default_fee_bps == params.default_fee_bps,
        cfg.paused == false,
        cfg.well_formed() <==> params.default_fee_bps <= BPS_DENOMINATOR,
{
    ProgramConfig {
        authority: *authority,
        fee_vault: params.fee_vault,
        default_fee_bps: params.default_fee_bps,
        paused: false,
    }
}

/// Reject the operation while the global pause switch is on.
pub fn require_not_paused(program_config: &ProgramConfig) -> (r: Result<(), EscrowError>)
    ensures
        r is Ok <==> !program_config.paused,
        r is Err ==> r == Err::<(), EscrowError>(EscrowError::ProgramPaused),
{
    if program_config.paused {
        Err(EscrowError::ProgramPaused)
    } else {
        Ok(())
    }
}

/// The first rejection `create_escrow` reports for these inputs, if any.
pub open spec fn spec_create_error(
    cfg: ProgramConfig,
    params: CreateAsymEscrowParams,
    has_token_mint: bool,
    now: i64,
) -> Option<EscrowError> {
    if cfg.paused {
        Some(EscrowError::ProgramPaused)
    } else if params.payer.spec_is_zero() || params.receiver.spec_is_zero() || params.payer
        == params.receiver {
        Some(EscrowError::InvalidParty)
    } else if params.amount == 0 {
        Some(EscrowError::InvalidAmount)
    } else if !params.currency.spec_is_zero() && !has_token_mint {
        Some(EscrowError::InvalidToken)
    } else if !spec_schedule_ok(now, params.start_time, params.end_time) {
        Some(EscrowError::InvalidEndDate)
    } else {
        None
    }
}

/// The record `create_escrow` builds once every check has passed, given the
/// digest `id` derived from (creator, nonce).
pub open spec fn spec_created_record(
    cfg: ProgramConfig,
    params: CreateAsymEscrowParams,
    creator: Address,
    now: i64,
    id: [u8; 32],
) -> AsymEscrow {
    AsymEscrow {
        id,
        payer: EscrowParty {
            addr: params.payer,
            currency: params.currency,
            currency_type: if params.currency.spec_is_zero() {
                CurrencyType::Native
            } else {
                CurrencyType::SplToken
            },
            amount: params.amount,
            amount_refunded: 0,
            amount_released: 0,
            amount_paid: 0,
            released: false,
        },
        receiver: EscrowParty {
            addr: params.receiver,
            currency: Address::spec_zero(),
            currency_type: CurrencyType::Native,
            amount: 0,
            amount_refunded: 0,
            amount_released: 0,
            amount_paid: 0,
            released: false,
        },
        timestamp: now,
        start_time: params.start_time,
        end_time: params.end_time,
        status: EscrowStatus::Pending,
        released: false,
        fee_bps: cfg.default_fee_bps,
        creator,
        nonce: params.nonce,
    }
}

/// Create a new escrow record.
///
/// Rejects a paused configuration, a missing or self-dealing party, a zero
/// amount, a token escrow without its currency descriptor, and a schedule
/// that fails the end-time rule — in that order, mutating nothing. On
/// success the record starts Pending with zero counters and no consents, its
/// fee rate seeded from the configuration and its identifier derived from
/// (creator, nonce).
pub fn create_escrow(
    program_config: &ProgramConfig,
    creator: &Address,
    params: &CreateAsymEscrowParams,
    has_token_mint: bool,
    now: i64,
) -> (r: Result<(AsymEscrow, EscrowCreatedEvent), EscrowError>)
    ensures
        r is Err <==> spec_create_error(*program_config, *params, has_token_mint, now) is Some,
        r matches Err(e) ==> Some(e) == spec_create_error(
            *program_config,
            *params,
            has_token_mint,
            now,
        ),
        r matches Ok(created) ==> {
            &&& created.0 == spec_created_record(
                *program_config,
                *params,
                *creator,
                now,
                created.0.id,
            )
            &&& created.0.id@ == escrow_id_of(creator.bytes@, params.nonce)
            &&& created.1 == (EscrowCreatedEvent {
                escrow_id: created.0.id,
                creator: *creator,
                payer: params.payer,
                receiver: params.receiver,
                amount: params.amount,
            })
        },
        program_config.well_formed() ==> (r matches Ok(created) ==> created.0.well_formed()),
        r matches Ok(created) ==> created.0.spec_amount_remaining() == 0,
{
    require_not_paused(program_config)?;

    if params.payer.is_zero() {
        return Err(EscrowError::InvalidParty);
    }
    if params.receiver.is_zero() {
        return Err(EscrowError::InvalidParty);
    }
    if params.payer == params.receiver {
        return Err(EscrowError::InvalidParty);
    }
    if params.amount == 0 {
        return Err(EscrowError::InvalidAmount);
    }

    let currency_is_native = params.currency.is_zero();
    if !currency_is_native && !has_token_mint {
        return Err(EscrowError::InvalidToken);
    }

    validate_escrow_dates(now, params.start_time, params.end_time)?;

    let escrow_id = generate_escrow_id(creator, params.nonce);
    let escrow = AsymEscrow {
        id: escrow_id,
        payer: EscrowParty {
            addr: params.payer,
            currency: params.currency,
            currency_type: if currency_is_native {
                CurrencyType::Native
            } else {
                CurrencyType::SplToken
            },
            amount: params.amount,
            amount_refunded: 0,
            amount_released: 0,
            amount_paid: 0,
            released: false,
        },
        receiver: EscrowParty {
            addr: params.receiver,
            currency: Address::zero(),
            currency_type: CurrencyType::Native,
            amount: 0,
            amount_refunded: 0,
            amount_released: 0,
            amount_paid: 0,
            released: false,
        },
        timestamp: now,
        start_time: params.start_time,
        end_time: params.end_time,
        status: EscrowStatus::Pending,
        released: false,
        fee_bps: program_config.default_fee_bps,
        creator: *creator,
        nonce: params.nonce,
    };
    let event = EscrowCreatedEvent {
        escrow_id,
        creator: *creator,
        payer: params.payer,
        receiver: params.receiver,
        amount: params.amount,
    };
    Ok((escrow, event))
}

/// The record after a recorded payment, paired with what the call reports.
///
/// A rejected call leaves the record unchanged and reports the first failing
/// check: the pause switch, a closed status, a caller other than the payer,
/// a clock reading outside the window, a zero amount, or an overflowing
/// payment counter — in that order.
pub open spec fn spec_place_payment(
    e: AsymEscrow,
    cfg: ProgramConfig,
    payer: Address,
    amount: u64,
    now: i64,
) -> (AsymEscrow, Result<PaymentOutcome, EscrowError>) {
    if cfg.paused {
        (e, Err(EscrowError::ProgramPaused))
    } else if e.status == EscrowStatus::Completed || e.status == EscrowStatus::Arbitration {
        (e, Err(EscrowError::InvalidEscrowState))
    } else if payer != e.payer.addr {
        (e, Err(EscrowError::Unauthorized))
    } else if !spec_time_active(now, e.start_time, e.end_time) {
        (e, Err(EscrowError::EscrowNotActive))
    } else if amount == 0 {
        (e, Err(EscrowError::InvalidAmount))
    } else if e.payer.amount_paid + amount > u64::MAX {
        (e, Err(EscrowError::ArithmeticOverflow))
    } else {
        let total = (e.payer.amount_paid + amount) as u64;
        let fully = total >= e.payer.amount;
        let e2 = AsymEscrow {
            status: EscrowStatus::Active,
            payer: EscrowParty { amount_paid: total, ..e.payer },
            ..e
        };
        (
            e2,
            Ok(
                PaymentOutcome {
                    received: PaymentReceivedEvent {
                        escrow_id: e.id,
                        payer,
                        amount,
                        total_paid: total,
                        fully_paid: fully,
                    },
                    fully_paid: if fully {
                        Some(EscrowFullyPaidEvent { escrow_id: e.id, total_amount: total })
                    } else {
                        None
                    },
                },
            ),
        )
    }
}

/// Record a payment the custody transfer has already delivered.
///
/// The record does not move funds itself: the host performs the transfer
/// into custody and calls this exactly when it succeeded, so bookkeeping and
/// custody change together. On success the payment counter grows by `amount`
/// and the record turns Active; the outcome says whether this payment
/// reached the required total.
pub fn place_payment(
    escrow: &mut AsymEscrow,
    program_config: &ProgramConfig,
    payer: &Address,
    amount: u64,
    now: i64,
) -> (r: Result<PaymentOutcome, EscrowError>)
    requires
        old(escrow).well_formed(),
    ensures
        (*final(escrow), r) == spec_place_payment(
            *old(escrow),
            *program_config,
            *payer,
            amount,
            now,
        ),
        r is Err ==> *final(escrow) == *old(escrow),
        final(escrow).well_formed(),
        r is Ok ==> final(escrow).payer.amount_paid == old(escrow).payer.amount_paid + amount,
{
    require_not_paused(program_config)?;
    if escrow.status == EscrowStatus::Completed || escrow.status == EscrowStatus::Arbitration {
        return Err(EscrowError::InvalidEscrowState);
    }
    if *payer != escrow.payer.addr {
        return Err(EscrowError::Unauthorized);
    }
    if !escrow.is_active_time(now) {
        return Err(EscrowError::EscrowNotActive);
    }
    if amount == 0 {
        return Err(EscrowError::InvalidAmount);
    }

    let total = match escrow.payer.amount_paid.checked_add(amount) {
        Some(t) => t,
        None => {
            return Err(EscrowError::ArithmeticOverflow);
        },
    };

    escrow.status = EscrowStatus::Active;
    escrow.payer.amount_paid = total;

    let fully_paid = total >= escrow.payer.amount;
    Ok(
        PaymentOutcome {
            received: PaymentReceivedEvent {
                escrow_id: escrow.id,
                payer: *payer,
                amount,
                total_paid: total,
                fully_paid,
            },
            fully_paid: if fully_paid {
                Some(EscrowFullyPaidEvent { escrow_id: escrow.id, total_amount: total })
            } else {
                None
            },
        },
    )
}

/// The bookkeeping of a release of `amount` from custody: the fee split, the
/// released counter, the global released flag, and completion when nothing
/// remains. A failing fee split or an overflowing counter rejects the whole
/// step with the record unchanged.
pub open spec fn spec_execute_release(e: AsymEscrow, amount: u64) -> Result<
    (AsymEscrow, EscrowReleasedEvent),
    EscrowError,
> {
    match spec_fee_split(amount, e.fee_bps) {
        Err(err) => Err(err),
        Ok(split) => {
            if e.payer.amount_released + split.1 > u64::MAX {
                Err(EscrowError::ArithmeticOverflow)
            } else {
                let grown = AsymEscrow {
                    released: true,
                    payer: EscrowParty {
                        amount_released: (e.payer.amount_released + split.1) as u64,
                        ..e.payer
                    },
                    ..e
                };
                let e2 = if grown.spec_amount_remaining() == 0 {
                    AsymEscrow { status: EscrowStatus::Completed, ..grown }
                } else {
                    grown
                };
                Ok((e2, EscrowReleasedEvent { escrow_id: e.id, amount: split.1, fee: split.0 }))
            }
        },
    }
}

/// Apply the bookkeeping of an executed release of `amount` from custody.
///
/// The reported event carries the two transfer orders the host must carry
/// out from custody: `amount` to the receiver and `fee` to the fee vault.
pub fn execute_release(escrow: &mut AsymEscrow, amount: u64) -> (r: Result<
    EscrowReleasedEvent,
    EscrowError,
>)
    requires
        amount <= old(escrow).spec_amount_remaining(),
    ensures
        match spec_execute_release(*old(escrow), amount) {
            Ok(applied) => r == Ok::<EscrowReleasedEvent, EscrowError>(applied.1) && *final(escrow)
                == applied.0,
            Err(err) => r == Err::<EscrowReleasedEvent, EscrowError>(err) && *final(escrow) == *old(
                escrow,
            ),
        },
        old(escrow).well_formed() ==> final(escrow).well_formed(),
{
    let split = calculate_fee_and_amount(amount, escrow.fee_bps)?;
    let fee = split.0;
    let amount_to_transfer = split.1;

    let released_total = match escrow.payer.amount_released.checked_add(amount_to_transfer) {
        Some(t) => t,
        None => {
            return Err(EscrowError::ArithmeticOverflow);
        },
    };

    escrow.released = true;
    escrow.payer.amount_released = released_total;
    if escrow.get_amount_remaining() == 0 {
        escrow.status = EscrowStatus::Completed;
    }

    Ok(EscrowReleasedEvent { escrow_id: escrow.id, amount: amount_to_transfer, fee })
}

/// The record after a consent call, paired with what the call reports.
///
/// A rejected call leaves the record unchanged and reports the first failing
/// check: the pause switch, a closed status, a caller who is neither party,
/// a clock reading outside the window, or an empty custody — in that order.
/// Otherwise the caller's consent flag is set if it was not already (only a
/// new assent is signalled), and when both flags stand the release of the
/// whole remaining amount executes; a failing release rejects the entire
/// call, consent update included.
pub open spec fn spec_release(
    e: AsymEscrow,
    cfg: ProgramConfig,
    signer: Address,
    now: i64,
) -> (AsymEscrow, Result<ReleaseOutcome, EscrowError>) {
    let is_payer = signer == e.payer.addr;
    let is_receiver = signer == e.receiver.addr;
    if cfg.paused {
        (e, Err(EscrowError::ProgramPaused))
    } else if e.status == EscrowStatus::Completed || e.status == EscrowStatus::Arbitration {
        (e, Err(EscrowError::InvalidEscrowState))
    } else if !is_payer && !is_receiver {
        (e, Err(EscrowError::Unauthorized))
    } else if !spec_time_active(now, e.start_time, e.end_time) {
        (e, Err(EscrowError::EscrowNotActive))
    } else if e.spec_amount_remaining() == 0 {
        (e, Err(EscrowError::InvalidEscrowState))
    } else {
        let remaining = e.spec_amount_remaining();
        let consented = if is_payer && !e.payer.released {
            (
                AsymEscrow { payer: EscrowParty { released: true, ..e.payer }, ..e },
                Some(
                    ReleaseAssentGivenEvent {
                        escrow_id: e.id,
                        assenting_address: signer,
                        assent_type: ReleaseAssentType::Payer,
                    },
                ),
            )
        } else if is_receiver && !e.receiver.released {
            (
                AsymEscrow { receiver: EscrowParty { released: true, ..e.receiver }, ..e },
                Some(
                    ReleaseAssentGivenEvent {
                        escrow_id: e.id,
                        assenting_address: signer,
                        assent_type: ReleaseAssentType::Receiver,
                    },
                ),
            )
        } else {
            (e, None)
        };
        let e1 = consented.0;
        let assent = consented.1;
        if e1.payer.released && e1.receiver.released {
            match spec_execute_release(e1, remaining) {
                Ok(applied) => (
                    applied.0,
                    Ok(ReleaseOutcome { assent, released: Some(applied.1) }),
                ),
                Err(err) => (e, Err(err)),
            }
        } else {
            (e1, Ok(ReleaseOutcome { assent, released: None }))
        }
    }
}

/// Record the caller's release assent, and execute the release once both
/// parties have assented.
///
/// Giving consent twice is a silent no-op: the second call changes nothing
/// and signals nothing. The release itself — moving the remaining amount,
/// less the fee, to the receiver — happens exactly when both consent flags
/// stand after this call; the host then carries out the transfer orders in
/// the reported event. Consent flags only ever go from unset to set.
pub fn release_escrow(
    escrow: &mut AsymEscrow,
    program_config: &ProgramConfig,
    signer: &Address,
    now: i64,
) -> (r: Result<ReleaseOutcome, EscrowError>)
    requires
        old(escrow).well_formed(),
    ensures
        (*final(escrow), r) == spec_release(*old(escrow), *program_config, *signer, now),
        r is Err ==> *final(escrow) == *old(escrow),
        final(escrow).well_formed(),
        old(escrow).payer.released ==> final(escrow).payer.released,
        old(escrow).receiver.released ==> final(escrow).receiver.released,
        r matches Ok(outcome) ==> (outcome.released is Some <==> final(escrow).payer.released
            && final(escrow).receiver.released),
{
    require_not_paused(program_config)?;
    if escrow.status == EscrowStatus::Completed || escrow.status == EscrowStatus::Arbitration {
        return Err(EscrowError::InvalidEscrowState);
    }

    let is_payer = *signer == escrow.payer.addr;
    let is_receiver = *signer == escrow.receiver.addr;
    if !is_payer && !is_receiver {
        return Err(EscrowError::Unauthorized);
    }
    if !escrow.is_active_time(now) {
        return Err(EscrowError::EscrowNotActive);
    }

    let remaining = escrow.get_amount_remaining();
    if remaining == 0 {
        return Err(EscrowError::InvalidEscrowState);
    }

    let saved: AsymEscrow = *escrow;
    let assent: Option<ReleaseAssentGivenEvent> = if is_payer && !escrow.payer.released {
        escrow.payer.released = true;
        Some(
            ReleaseAssentGivenEvent {
                escrow_id: escrow.id,
                assenting_address: *signer,
                assent_type: ReleaseAssentType::Payer,
            },
        )
    } else if is_receiver && !escrow.receiver.released {
        escrow.receiver.released = true;
        Some(
            ReleaseAssentGivenEvent {
                escrow_id: escrow.id,
                assenting_address: *signer,
                assent_type: ReleaseAssentType::Receiver,
            },
        )
    } else {
        None
    };

    if escrow.payer.released && escrow.receiver.released {
        match execute_release(escrow, remaining) {
            Ok(released_event) => Ok(ReleaseOutcome { assent, released: Some(released_event) }),
            Err(err) => {
                // the whole operation fails atomically, consent update included
                *escrow = saved;
                Err(err)
            },
        }
    } else {
        Ok(ReleaseOutcome { assent, released: None })
    }
}

/// The bookkeeping of a refund of `amount` from custody back to the payer:
/// the refunded counter grows and the record completes when nothing remains.
/// An overflowing counter rejects the step with the record unchanged.
pub open spec fn spec_execute_refund(e: AsymEscrow, amount: u64) -> Result<
    (AsymEscrow, EscrowRefundedEvent),
    EscrowError,
> {
    if e.payer.amount_refunded + amount > u64::MAX {
        Err(EscrowError::ArithmeticOverflow)
    } else {
        let grown = AsymEscrow {
            payer: EscrowParty {
                amount_refunded: (e.payer.amount_refunded + amount) as u64,
                ..e.payer
            },
            ..e
        };
        let e2 = if grown.spec_amount_remaining() == 0 {
            AsymEscrow { status: EscrowStatus::Completed, ..grown }
        } else {
            grown
        };
        Ok((e2, EscrowRefundedEvent { escrow_id: e.id, amount }))
    }
}

/// Apply the bookkeeping of an executed refund of `amount` from custody.
///
/// The reported event carries the transfer order the host must carry out:
/// `amount` from custody back to the payer.
pub fn execute_refund(escrow: &mut AsymEscrow, amount: u64) -> (r: Result<
    EscrowRefundedEvent,
    EscrowError,
>)
    requires
        amount <= old(escrow).spec_amount_remaining(),
    ensures
        match spec_execute_refund(*old(escrow), amount) {
            Ok(applied) => r == Ok::<EscrowRefundedEvent, EscrowError>(applied.1) && *final(escrow)
                == applied.0,
            Err(err) => r == Err::<EscrowRefundedEvent, EscrowError>(err) && *final(escrow) == *old(
                escrow,
            ),
        },
        old(escrow).well_formed() ==> final(escrow).well_formed(),
        old(escrow).well_formed() ==> r is Ok,
{
    let refunded_total = match escrow.payer.amount_refunded.checked_add(amount) {
        Some(t) => t,
        None => {
            return Err(EscrowError::ArithmeticOverflow);
        },
    };

    escrow.payer.amount_refunded = refunded_total;
    if escrow.get_amount_remaining() == 0 {
        escrow.status = EscrowStatus::Completed;
    }

    Ok(EscrowRefundedEvent { escrow_id: escrow.id, amount })
}

/// The record after a refund call, paired with what the call reports.
///
/// A rejected call leaves the record unchanged and reports the first failing
/// check: the pause switch, a closed status, a caller other than the
/// receiver, a clock reading outside the window, an amount beyond what
/// custody holds, a zero amount, or an already-released escrow — in that
/// order.
pub open spec fn spec_refund(
    e: AsymEscrow,
    cfg: ProgramConfig,
    signer: Address,
    amount: u64,
    now: i64,
) -> (AsymEscrow, Result<EscrowRefundedEvent, EscrowError>) {
    if cfg.paused {
        (e, Err(EscrowError::ProgramPaused))
    } else if e.status == EscrowStatus::Completed || e.status == EscrowStatus::Arbitration {
        (e, Err(EscrowError::InvalidEscrowState))
    } else if signer != e.receiver.addr {
        (e, Err(EscrowError::Unauthorized))
    } else if !spec_time_active(now, e.start_time, e.end_time) {
        (e, Err(EscrowError::EscrowNotActive))
    } else if e.spec_amount_remaining() < amount {
        (e, Err(EscrowError::AmountExceeded))
    } else if amount == 0 {
        (e, Err(EscrowError::InvalidAmount))
    } else if e.released {
        (e, Err(EscrowError::AlreadyReleased))
    } else {
        match spec_execute_refund(e, amount) {
            Ok(applied) => (applied.0, Ok(applied.1)),
            Err(err) => (e, Err(err)),
        }
    }
}

/// Refund part of the custody to the payer, at the receiver's request.
///
/// Only the receiver may initiate a refund, only while the escrow is open,
/// inside its window and not yet released, and only up to the remaining
/// amount. On success the refunded counter grows by `amount`, the record
/// completes when nothing remains, and the host carries out the transfer
/// order in the reported event. On a well-formed record the refunded counter
/// cannot overflow, so every call that passes the checks succeeds.
pub fn refund_escrow(
    escrow: &mut AsymEscrow,
    program_config: &ProgramConfig,
    signer: &Address,
    amount: u64,
    now: i64,
) -> (r: Result<EscrowRefundedEvent, EscrowError>)
    requires
        old(escrow).well_formed(),
    ensures
        (*final(escrow), r) == spec_refund(*old(escrow), *program_config, *signer, amount, now),
        r is Err ==> *final(escrow) == *old(escrow),
        final(escrow).well_formed(),
        r is Ok ==> final(escrow).payer.amount_refunded == old(escrow).payer.amount_refunded
            + amount,
{
    require_not_paused(program_config)?;
    if escrow.status == EscrowStatus::Completed || escrow.status == EscrowStatus::Arbitration {
        return Err(EscrowError::InvalidEscrowState);
    }
    if *signer != escrow.receiver.addr {
        return Err(EscrowError::Unauthorized);
    }
    if !escrow.is_active_time(now) {
        return Err(EscrowError::EscrowNotActive);
    }

    let remaining = escrow.get_amount_remaining();
    if remaining < amount {
        return Err(EscrowError::AmountExceeded);
    }
    if amount == 0 {
        return Err(EscrowError::InvalidAmount);
    }
    if escrow.released {
        return Err(EscrowError::AlreadyReleased);
    }

    match execute_refund(escrow, amount) {
        Ok(refunded_event) => Ok(refunded_event),
        Err(err) => Err(err),
    }
}

} // verus!
