use vstd::prelude::*;

verus! {

/// The error taxonomy of the escrow core.
///
/// Every lifecycle operation either succeeds or reports exactly one of these;
/// a rejected operation mutates nothing. All of them are caller-recoverable.
#[derive(Clone, Copy, Debug, PartialEq, Eq, Structural)]
pub enum EscrowError {
    /// The escrow record is not usable for the requested operation.
    InvalidEscrow,
    /// The payer address is missing.
    InvalidPayer,
    /// The receiver address is missing.
    InvalidReceiver,
    /// A party address is missing, or payer and receiver coincide.
    InvalidParty,
    /// A party address is malformed.
    InvalidPartyAddress,
    /// A zero amount was supplied where a positive one is required.
    InvalidAmount,
    /// The global pause switch is on.
    ProgramPaused,
    /// The proposed schedule fails the end-time rule.
    InvalidEndDate,
    /// A token escrow was requested without its currency descriptor.
    InvalidToken,
    /// Custody holds less than the operation needs.
    InsufficientFunds,
    /// A checked arithmetic operation would overflow.
    ArithmeticOverflow,
    /// The record's status or balances forbid the operation.
    InvalidEscrowState,
    /// The clock reading falls outside the record's time window.
    EscrowNotActive,
    /// The currency descriptor does not match the record.
    InvalidCurrency,
    /// The caller is not the party this operation belongs to.
    Unauthorized,
    /// A refund was requested for more than the remaining amount.
    AmountExceeded,
    /// The escrow was already released.
    AlreadyReleased,
}

} // verus!
