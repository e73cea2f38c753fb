//! The hash-based computations the program takes from outside crates:
//! program-derived addresses and the BLAKE3 digest.

use vstd::prelude::*;
use anchor_lang::prelude::Pubkey as SolanaPubkey;
use crate::pubkey::Pubkey;

verus! {

/// The program-derived address (and bump seed) for the seeds `[seed_a,
/// seed_b]` under `program_id`, or none when no bump yields an address off
/// the curve or a seed is longer than 32 bytes.
pub uninterp spec fn program_address(seed_a: Seq<u8>, seed_b: Seq<u8>, program_id: Seq<u8>) -> Option<
    (Seq<u8>, u8),
>;

/// Calls `Pubkey::try_find_program_address` of the Solana SDK (re-exported by
/// anchor-lang) with the two seeds. Claimed: the result is the named
/// `program_address` of the seeds and program id, a function of those bytes
/// alone (SHA-256 over the seeds, the id and a marker, searched over bump
/// seeds). Nothing more is claimed of which address that is.
#[verifier::external_body]
pub(crate) fn find_program_address(seed_a: &[u8], seed_b: &[u8], program_id: &Pubkey) -> (r: Option<
    (Pubkey, u8),
>)
    ensures
        match r {
            Some(found) => program_address(seed_a@, seed_b@, program_id@) == Some(
                (found.0@, found.1),
            ),
            None => program_address(seed_a@, seed_b@, program_id@) is None,
        },
{
    match SolanaPubkey::try_find_program_address(
        &[seed_a, seed_b],
        &SolanaPubkey::new_from_array(program_id.bytes),
    ) {
        Some((key, bump)) => Some((Pubkey { bytes: key.to_bytes() }, bump)),
        None => None,
    }
}

/// The BLAKE3 digest of the input.
pub uninterp spec fn blake3_digest(input: Seq<u8>) -> Seq<u8>;

/// Calls `blake3::hash`. Claimed: the 32 bytes returned are the named
/// `blake3_digest` of the input, a function of the input alone. Nothing is
/// claimed of their values.
#[verifier::external_body]
pub(crate) fn blake3_hash(input: &[u8]) -> (r: [u8; 32])
    ensures
        r@ == blake3_digest(input@),
{
    *blake3::hash(input).as_bytes()
}

} // verus!
