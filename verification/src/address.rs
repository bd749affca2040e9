//! Deterministic addressing of hire records.
//!
//! A record lives at the address derived from a namespace tag, the asset and
//! the lender, under the program that owns it. Whoever knows these can
//! compute the address; nobody holds a key for it. The escrow acts under that
//! address by presenting the derivation path again.

use crate::pubkey::Pubkey;
use crate::state::hire::Hire;
use vstd::prelude::*;

verus! {

/// The address and bump seed that `Pubkey::try_find_program_address` of
/// `solana_program` derives from `seeds` under the program `program_id`, if it
/// derives one.
pub uninterp spec fn program_address(seeds: Seq<Seq<u8>>, program_id: Seq<u8>) -> Option<
    (Seq<u8>, u8),
>;

/// The seeds from which the address of the hire record of `mint`, listed by
/// `lender`, is derived: the tag, the asset, the lender.
pub open spec fn hire_seeds(mint: Seq<u8>, lender: Seq<u8>) -> Seq<Seq<u8>> {
    seq![Hire::PREFIX@, mint, lender]
}

/// The address of the hire record of `mint` and `lender` under `program_id`,
/// with its bump seed.
pub open spec fn hire_address(program_id: Pubkey, mint: Pubkey, lender: Pubkey) -> Option<
    (Seq<u8>, u8),
> {
    program_address(hire_seeds(mint@, lender@), program_id@)
}

/// A derived address and bump seed, the address as its bytes.
pub open spec fn address_view(found: Option<(Pubkey, u8)>) -> Option<(Seq<u8>, u8)> {
    match found {
        Some((address, bump)) => Some((address@, bump)),
        None => None,
    }
}

/// Whether `derived` is the address `key`, whatever the bump seed.
pub open spec fn derives_key(derived: Option<(Seq<u8>, u8)>, key: Pubkey) -> bool {
    derived matches Some((address, _)) && address == key@
}

/// Whether `derived` is the address `key` with the bump seed `bump`.
pub open spec fn derives(derived: Option<(Seq<u8>, u8)>, key: Pubkey, bump: u8) -> bool {
    derived == Some((key@, bump))
}

/// Calls `Pubkey::try_find_program_address` of `solana_program` (reached
/// through `anchor_lang`). It hashes the seeds with a bump seed, counting the
/// bump down from 255, and with the program's identity, until the digest is no
/// point of the ed25519 curve; it returns that digest and bump. Nothing comes
/// back where none of the bumps from 255 down to 1 serves, where a seed is
/// longer than 32 bytes, or where there are more than 15 seeds. The result
/// depends on the arguments alone; the contract gives it the name
/// `program_address` and claims no more.
#[verifier::external_body]
fn try_find_program_address(seeds: &Vec<Vec<u8>>, program_id: &Pubkey) -> (found: Option<
    (Pubkey, u8),
>)
    ensures
        address_view(found) == program_address(seeds.deep_view(), program_id@),
{
    let parts: Vec<&[u8]> = seeds.iter().map(|seed| seed.as_slice()).collect();
    let program = anchor_lang::prelude::Pubkey::new_from_array(program_id.bytes);
    match anchor_lang::prelude::Pubkey::try_find_program_address(&parts, &program) {
        Some((address, bump)) => Some((Pubkey { bytes: address.to_bytes() }, bump)),
        None => None,
    }
}

/// Builds the seeds of the hire record of `mint` and `lender`.
pub fn build_hire_seeds(mint: &Pubkey, lender: &Pubkey) -> (seeds: Vec<Vec<u8>>)
    ensures
        seeds.deep_view() == hire_seeds(mint@, lender@),
{
    let mut tag: Vec<u8> = Vec::new();
    tag.push(Hire::PREFIX[0]);
    tag.push(Hire::PREFIX[1]);
    tag.push(Hire::PREFIX[2]);
    tag.push(Hire::PREFIX[3]);
    assert(tag@ == Hire::PREFIX@);
    let mut seeds: Vec<Vec<u8>> = Vec::new();
    seeds.push(tag);
    seeds.push(mint.to_vec());
    seeds.push(lender.to_vec());
    assert(seeds.deep_view() =~= hire_seeds(mint@, lender@)) by {
        assert(seeds.deep_view()[0] =~= Hire::PREFIX@);
        assert(seeds.deep_view()[1] =~= mint@);
        assert(seeds.deep_view()[2] =~= lender@);
    }
    seeds
}

/// Whether `found` is the address `key`, and with which bump seed.
pub fn bump_of(found: &Option<(Pubkey, u8)>, key: &Pubkey) -> (bump: Option<u8>)
    ensures
        match bump {
            Some(bump) => derives(address_view(*found), *key, bump),
            None => !derives_key(address_view(*found), *key),
        },
{
    match found {
        Some((address, bump)) => {
            proof {
                Pubkey::lemma_view_injective(*address, *key);
            }
            if *address == *key {
                Some(*bump)
            } else {
                None
            }
        },
        None => None,
    }
}

/// Derives the address of the hire record of `mint` and `lender` under
/// `program_id`, and the bump seed that completes the derivation.
pub fn find_hire_address(program_id: &Pubkey, mint: &Pubkey, lender: &Pubkey) -> (found: Option<
    (Pubkey, u8),
>)
    ensures
        address_view(found) == hire_address(*program_id, *mint, *lender),
{
    let seeds = build_hire_seeds(mint, lender);
    try_find_program_address(&seeds, program_id)
}

} // verus!
