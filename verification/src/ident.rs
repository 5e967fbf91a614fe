use vstd::prelude::*;
use crate::state::Address;

verus! {

/// The 32-byte digest the host ledger's SHA-256 hasher produces from a
/// creator identity followed by a little-endian nonce. The digest is a
/// function of those two inputs alone.
pub uninterp spec fn escrow_id_of(creator: Seq<u8>, nonce: u64) -> Seq<u8>;

/// Derive the deterministic identifier of an escrow from its creator and its
/// nonce.
///
/// Relies on `anchor_lang::solana_program::hash::Hasher`: a SHA-256 hasher
/// whose 32-byte digest depends only on the bytes fed to it, here the
/// creator's bytes followed by the nonce's little-endian bytes.
#[verifier::external_body]
pub fn generate_escrow_id(creator: &Address, nonce: u64) -> (r: [u8; 32])
    ensures
        r@ == escrow_id_of(creator.bytes@, nonce),
{
    let mut hasher = anchor_lang::solana_program::hash::Hasher::default();
    hasher.hash(&creator.bytes);
    hasher.hash(&nonce.to_le_bytes());
    hasher.result().to_bytes()
}

} // verus!
