use vstd::prelude::*;
use vstd::bytes::{spec_u16_to_le_bytes, spec_u64_to_le_bytes, u16_to_le_bytes, u64_to_le_bytes};
use crate::lifecycle::InitializeProgramParams;
use crate::state::{Address, AsymEscrow, CurrencyType, EscrowParty, EscrowStatus};

verus! {

broadcast use vstd::array::group_array_axioms;

/// The unsigned reading of a signed 64-bit value's two's-complement bits.
pub open spec fn spec_i64_as_u64(x: i64) -> u64 {
    if x >= 0 {
        x as u64
    } else {
        (x + 0x1_0000_0000_0000_0000) as u64
    }
}

/// The eight little-endian bytes of a signed 64-bit value.
pub open spec fn spec_i64_to_le_bytes(x: i64) -> Seq<u8> {
    spec_u64_to_le_bytes(spec_i64_as_u64(x))
}

/// The single byte a lifecycle status serializes to.
pub open spec fn spec_status_byte(s: EscrowStatus) -> u8 {
    match s {
        EscrowStatus::Pending => 0,
        EscrowStatus::Active => 1,
        EscrowStatus::Completed => 2,
        EscrowStatus::Arbitration => 3,
    }
}

/// The single byte a currency kind serializes to.
pub open spec fn spec_currency_byte(c: CurrencyType) -> u8 {
    match c {
        CurrencyType::Native => 0,
        CurrencyType::SplToken => 1,
    }
}

/// The single byte a flag serializes to.
pub open spec fn spec_bool_byte(b: bool) -> u8 {
    if b {
        1
    } else {
        0
    }
}

/// The serialized form of one party: address, currency reference, currency
/// kind, the required, refunded, released and paid counters in little
/// endian, then the consent flag — 98 bytes.
pub open spec fn spec_encode_party(p: EscrowParty) -> Seq<u8> {
    p.addr.bytes@ + p.currency.bytes@ + seq![spec_currency_byte(p.currency_type)]
        + spec_u64_to_le_bytes(p.amount) + spec_u64_to_le_bytes(p.amount_refunded)
        + spec_u64_to_le_bytes(p.amount_released) + spec_u64_to_le_bytes(p.amount_paid)
        + seq![spec_bool_byte(p.released)]
}

/// The serialized form of a record: identifier, payer, receiver, the
/// creation, start and end times, status, released flag, fee rate, creator,
/// nonce — 296 bytes, each field at its width and in this order.
pub open spec fn spec_encode_escrow(e: AsymEscrow) -> Seq<u8> {
    e.id@ + spec_encode_party(e.payer) + spec_encode_party(e.receiver) + spec_i64_to_le_bytes(
        e.timestamp,
    ) + spec_i64_to_le_bytes(e.start_time) + spec_i64_to_le_bytes(e.end_time) + seq![
        spec_status_byte(e.status),
    ] + seq![spec_bool_byte(e.released)] + spec_u16_to_le_bytes(e.fee_bps) + e.creator.bytes@
        + spec_u64_to_le_bytes(e.nonce)
}

/// The serialized form of the initialization parameters: the fee vault
/// address then the default fee rate — 34 bytes.
pub open spec fn spec_encode_init_params(p: InitializeProgramParams) -> Seq<u8> {
    p.fee_vault.bytes@ + spec_u16_to_le_bytes(p.default_fee_bps)
}

fn push_address(out: &mut Vec<u8>, a: &Address)
    ensures
        final(out)@ == old(out)@ + a.bytes@,
{
    let mut bytes = vstd::slice::slice_to_vec(vstd::array::array_as_slice(&a.bytes));
    out.append(&mut bytes);
}

fn push_u64_le(out: &mut Vec<u8>, x: u64)
    ensures
        final(out)@ == old(out)@ + spec_u64_to_le_bytes(x),
{
    let mut bytes = u64_to_le_bytes(x);
    out.append(&mut bytes);
}

fn push_i64_le(out: &mut Vec<u8>, x: i64)
    ensures
        final(out)@ == old(out)@ + spec_i64_to_le_bytes(x),
{
    let unsigned: u64 = if x >= 0 {
        x as u64
    } else {
        // shift into the non-negative range first, then add the high bit back
        let low = (x - i64::MIN) as u64;
        low + 0x8000_0000_0000_0000u64
    };
    push_u64_le(out, unsigned);
}

fn push_u16_le(out: &mut Vec<u8>, x: u16)
    ensures
        final(out)@ == old(out)@ + spec_u16_to_le_bytes(x),
{
    let mut bytes = u16_to_le_bytes(x);
    out.append(&mut bytes);
}

fn push_party(out: &mut Vec<u8>, p: &EscrowParty)
    ensures
        final(out)@ == old(out)@ + spec_encode_party(*p),
{
    push_address(out, &p.addr);
    push_address(out, &p.currency);
    let kind: u8 = match p.currency_type {
        CurrencyType::Native => 0,
        CurrencyType::SplToken => 1,
    };
    out.push(kind);
    push_u64_le(out, p.amount);
    push_u64_le(out, p.amount_refunded);
    push_u64_le(out, p.amount_released);
    push_u64_le(out, p.amount_paid);
    let flag: u8 = if p.released {
        1
    } else {
        0
    };
    out.push(flag);
    proof {
        assert(out@ =~= old(out)@ + spec_encode_party(*p));
    }
}

/// Serialize one party for an external reader, field by field at the
/// documented widths.
pub fn encode_party(p: &EscrowParty) -> (out: Vec<u8>)
    ensures
        out@ == spec_encode_party(*p),
        out@.len() == 98,
{
    let mut out: Vec<u8> = Vec::new();
    push_party(&mut out, p);
    proof {
        vstd::bytes::lemma_auto_spec_u64_to_from_le_bytes();
        assert(out@ =~= spec_encode_party(*p));
    }
    out
}

/// Serialize a record for an external reader, preserving the documented
/// field order and widths.
pub fn encode_escrow(e: &AsymEscrow) -> (out: Vec<u8>)
    ensures
        out@ == spec_encode_escrow(*e),
        out@.len() == 296,
{
    let mut out: Vec<u8> = Vec::new();
    let mut id = vstd::slice::slice_to_vec(vstd::array::array_as_slice(&e.id));
    out.append(&mut id);
    push_party(&mut out, &e.payer);
    push_party(&mut out, &e.receiver);
    push_i64_le(&mut out, e.timestamp);
    push_i64_le(&mut out, e.start_time);
    push_i64_le(&mut out, e.end_time);
    let status: u8 = match e.status {
        EscrowStatus::Pending => 0,
        EscrowStatus::Active => 1,
        EscrowStatus::Completed => 2,
        EscrowStatus::Arbitration => 3,
    };
    out.push(status);
    let flag: u8 = if e.released {
        1
    } else {
        0
    };
    out.push(flag);
    push_u16_le(&mut out, e.fee_bps);
    push_address(&mut out, &e.creator);
    push_u64_le(&mut out, e.nonce);
    proof {
        vstd::bytes::lemma_auto_spec_u64_to_from_le_bytes();
        vstd::bytes::lemma_auto_spec_u16_to_from_le_bytes();
        assert(out@ =~= spec_encode_escrow(*e));
    }
    out
}

/// Serialize the initialization parameters for an external reader.
pub fn encode_init_params(p: &InitializeProgramParams) -> (out: Vec<u8>)
    ensures
        out@ == spec_encode_init_params(*p),
        out@.len() == 34,
{
    let mut out: Vec<u8> = Vec::new();
    push_address(&mut out, &p.fee_vault);
    push_u16_le(&mut out, p.default_fee_bps);
    proof {
        vstd::bytes::lemma_auto_spec_u16_to_from_le_bytes();
        assert(out@ =~= spec_encode_init_params(*p));
    }
    out
}

} // verus!
