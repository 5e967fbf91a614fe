use vstd::prelude::*;
use crate::constants::BPS_DENOMINATOR;
use crate::timing::spec_time_active;

verus! {

broadcast use vstd::array::group_array_axioms;

/// A 32-byte account identity. The all-zero value stands for "no address";
/// as a currency reference it stands for the native asset.
#[derive(Clone, Copy, Debug)]
pub struct Address {
    pub bytes: [u8; 32],
}

impl Address {
    /// Whether this is the all-zero identity.
    pub open spec fn spec_is_zero(self) -> bool {
        forall|i: int| 0 <= i < 32 ==> self.bytes[i] == 0
    }

    /// The all-zero identity, as a specification-level value.
    pub open spec fn spec_zero() -> Address {
        Address { bytes: vstd::array::spec_array_fill_for_copy_type::<u8, 32>(0u8) }
    }

    /// The all-zero identity.
    pub fn zero() -> (r: Address)
        ensures
            r == Address::spec_zero(),
            r.spec_is_zero(),
    {
        let r = Address { bytes: [0u8; 32] };
        proof {
            assert(r.bytes =~= Address::spec_zero().bytes);
        }
        r
    }

    /// An identity is all-zero exactly when it is the zero value.
    pub proof fn lemma_is_zero_iff(self)
        ensures
            self.spec_is_zero() <==> self == Address::spec_zero(),
    {
        if self.spec_is_zero() {
            assert(self.bytes =~= Address::spec_zero().bytes);
        }
    }

    /// Whether this is the all-zero identity.
    pub fn is_zero(&self) -> (r: bool)
        ensures
            r == self.spec_is_zero(),
    {
        let mut i: usize = 0;
        while i < 32
            invariant
                0 <= i <= 32,
                forall|j: int| 0 <= j < i ==> self.bytes[j] == 0,
            decreases 32 - i,
        {
            if self.bytes[i] != 0 {
                return false;
            }
            i += 1;
        }
        true
    }
}

impl PartialEq for Address {
    /// Byte-for-byte comparison of the two identities.
    fn eq(&self, other: &Self) -> (r: bool) {
        let mut i: usize = 0;
        while i < 32
            invariant
                0 <= i <= 32,
                forall|j: int| 0 <= j < i ==> self.bytes[j] == other.bytes[j],
            decreases 32 - i,
        {
            if self.bytes[i] != other.bytes[i] {
                return false;
            }
            i += 1;
        }
        proof {
            assert(self.bytes =~= other.bytes);
        }
        true
    }
}

impl vstd::std_specs::cmp::PartialEqSpecImpl for Address {
    open spec fn obeys_eq_spec() -> bool {
        true
    }

    open spec fn eq_spec(&self, other: &Self) -> bool {
        self.bytes == other.bytes
    }
}

/// Lifecycle state of an escrow record.
#[derive(Clone, Copy, Debug, PartialEq, Eq, Structural)]
pub enum EscrowStatus {
    /// Created; no payment recorded yet.
    Pending,
    /// At least one payment recorded.
    Active,
    /// Fully refunded or released.
    Completed,
    /// Reserved for dispute resolution; no transition of this core enters or
    /// leaves it.
    Arbitration,
}

impl Default for EscrowStatus {
    fn default() -> (r: Self)
        ensures
            r == EscrowStatus::Pending,
    {
        EscrowStatus::Pending
    }
}

/// Kind of currency an escrow is denominated in.
#[derive(Clone, Copy, Debug, PartialEq, Eq, Structural)]
pub enum CurrencyType {
    /// The native asset of the ledger.
    Native,
    /// A token described by a non-zero currency reference.
    SplToken,
}

impl Default for CurrencyType {
    fn default() -> (r: Self)
        ensures
            r == CurrencyType::Native,
    {
        CurrencyType::Native
    }
}

/// Which side of the trade gave a release assent.
#[derive(Clone, Copy, Debug, PartialEq, Eq, Structural)]
pub enum ReleaseAssentType {
    Payer,
    Receiver,
}

/// One side of the trade, with its own counters and consent flag.
#[derive(Clone, Copy, Debug, PartialEq)]
pub struct EscrowParty {
    /// Party's wallet address.
    pub addr: Address,
    /// Currency mint address (all-zero for the native asset).
    pub currency: Address,
    /// Kind of currency, derived from `currency`.
    pub currency_type: CurrencyType,
    /// Amount required of this party.
    pub amount: u64,
    /// Cumulative amount refunded to this party.
    pub amount_refunded: u64,
    /// Cumulative amount released out on this party's behalf.
    pub amount_released: u64,
    /// Cumulative amount paid by this party.
    pub amount_paid: u64,
    /// Whether this party has given its release consent.
    pub released: bool,
}

impl Default for EscrowParty {
    /// The empty party: zero addresses, zero counters, no consent.
    fn default() -> (r: Self)
        ensures
            r.addr.spec_is_zero(),
            r.currency.spec_is_zero(),
            r.currency_type == CurrencyType::Native,
            r.amount == 0,
            r.amount_refunded == 0,
            r.amount_released == 0,
            r.amount_paid == 0,
            r.released == false,
    {
        EscrowParty {
            addr: Address::zero(),
            currency: Address::zero(),
            currency_type: CurrencyType::Native,
            amount: 0,
            amount_refunded: 0,
            amount_released: 0,
            amount_paid: 0,
            released: false,
        }
    }
}

/// The persisted state of one payer/receiver trade.
#[derive(Clone, Copy, Debug, PartialEq)]
pub struct AsymEscrow {
    /// Unique identifier: a 32-byte digest of (creator, nonce).
    pub id: [u8; 32],
    /// The paying side.
    pub payer: EscrowParty,
    /// The receiving side.
    pub receiver: EscrowParty,
    /// Clock reading at creation.
    pub timestamp: i64,
    /// When the active window opens (0 = immediately).
    pub start_time: i64,
    /// When the active window closes (0 = never).
    pub end_time: i64,
    /// Lifecycle state.
    pub status: EscrowStatus,
    /// Whether a release has been executed.
    pub released: bool,
    /// Fee rate in basis points.
    pub fee_bps: u16,
    /// Originator, recorded for identity derivation.
    pub creator: Address,
    /// Nonce that makes the identifier unique per creator.
    pub nonce: u64,
}

impl AsymEscrow {
    /// Storage bytes to reserve for a persisted record: an 8-byte account
    /// discriminator, each scalar field at its serialized width, 200 bytes of
    /// room per party, and one byte reserved for the host's derivation seed.
    pub fn space() -> (n: usize)
        ensures
            n == 509,
    {
        8 + 32 + 200 + 200 + 8 + 8 + 8 + 1 + 1 + 2 + 32 + 8 + 1
    }

    /// Funds still in custody: paid, less refunded, less released, floored at
    /// zero by saturating subtraction.
    pub open spec fn spec_amount_remaining(self) -> u64 {
        self.payer.amount_paid.saturating_sub(self.payer.amount_refunded).saturating_sub(
            self.payer.amount_released,
        )
    }

    /// Funds still in custody, the authoritative figure for both the release
    /// and the refund path.
    pub fn get_amount_remaining(&self) -> (r: u64)
        ensures
            r == self.spec_amount_remaining(),
    {
        self.payer.amount_paid.saturating_sub(self.payer.amount_refunded).saturating_sub(
            self.payer.amount_released,
        )
    }

    /// Whether `now` falls in this record's active window.
    pub fn is_active_time(&self, now: i64) -> (r: bool)
        ensures
            r == spec_time_active(now, self.start_time, self.end_time),
    {
        let start_valid = if self.start_time > 0 {
            now >= self.start_time
        } else {
            true
        };
        let end_valid = if self.end_time > 0 {
            now <= self.end_time
        } else {
            true
        };
        start_valid && end_valid
    }

    /// The record invariant: both parties are present and distinct, the fee
    /// rate is within the basis-point range, and the payment counter covers
    /// the refunded and released counters together, so the remaining amount
    /// is the plain difference and never negative.
    pub open spec fn well_formed(self) -> bool {
        &&& !self.payer.addr.spec_is_zero()
        &&& !self.receiver.addr.spec_is_zero()
        &&& self.payer.addr != self.receiver.addr
        &&& self.fee_bps <= BPS_DENOMINATOR
        &&& self.payer.amount_paid >= self.payer.amount_refunded + self.payer.amount_released
    }

    /// Whether this record satisfies the record invariant; hosts test this
    /// before handing a record they deserialized to a lifecycle operation.
    pub fn check_well_formed(&self) -> (r: bool)
        ensures
            r == self.well_formed(),
    {
        !self.payer.addr.is_zero() && !self.receiver.addr.is_zero() && !(self.payer.addr
            == self.receiver.addr) && self.fee_bps as u64 <= BPS_DENOMINATOR
            && self.payer.amount_refunded <= self.payer.amount_paid && self.payer.amount_released
            <= self.payer.amount_paid - self.payer.amount_refunded
    }

    /// On a well-formed record the saturating subtractions never clip: the
    /// remaining amount is exactly paid minus refunded minus released.
    pub proof fn lemma_remaining_exact(self)
        requires
            self.well_formed(),
        ensures
            self.spec_amount_remaining() == self.payer.amount_paid - self.payer.amount_refunded
                - self.payer.amount_released,
    {
    }
}

/// Administrator configuration, passed explicitly to every lifecycle call.
#[derive(Clone, Copy, Debug, PartialEq)]
pub struct ProgramConfig {
    /// Program authority.
    pub authority: Address,
    /// Address credited with extracted fees.
    pub fee_vault: Address,
    /// Fee rate a new record is created with.
    pub default_fee_bps: u16,
    /// Global pause switch; every lifecycle operation requires it off.
    pub paused: bool,
}

impl ProgramConfig {
    /// Storage bytes to reserve for a persisted configuration: an 8-byte
    /// account discriminator, each field at its serialized width, and one
    /// byte reserved for the host's derivation seed.
    pub fn space() -> (n: usize)
        ensures
            n == 76,
    {
        8 + 32 + 32 + 2 + 1 + 1
    }

    /// The configuration invariant: the default fee rate stays within the
    /// basis-point range, so the records it seeds are well formed.
    pub open spec fn well_formed(self) -> bool {
        self.default_fee_bps <= BPS_DENOMINATOR
    }
}

} // verus!
