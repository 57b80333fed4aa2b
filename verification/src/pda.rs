use vstd::prelude::*;

use crate::pubkey::Pubkey;
use crate::seeds::{seeds_view, within_seed_limits};

verus! {

/// The program-derived address (and its bump) that the Solana runtime finds
/// for `seeds` under `program_id`: the first bump from 255 down whose hash of
/// seeds, bump, program id and marker is off the ed25519 curve; `None` when
/// no bump gives one.
pub uninterp spec fn program_address(seeds: Seq<Seq<u8>>, program_id: Seq<u8>) -> Option<(Seq<u8>, u8)>;

/// Searches the program-derived address for `seeds` under `program_id`.
///
/// Trusted: calls `Pubkey::try_find_program_address` of `solana_program`
/// (reached through `anchor_lang`), a deterministic computation of its two
/// arguments (SHA-256 and an off-curve test); the contract only ties the
/// result to those arguments through `program_address`. The seeds must keep
/// to the runtime's limits, which every list of seeds built here does.
#[verifier::external_body]
pub fn find_program_address(seeds: &Vec<Vec<u8>>, program_id: &Pubkey) -> (found: Option<(Pubkey, u8)>)
    requires
        within_seed_limits(seeds_view(seeds@)),
    ensures
        found is Some <==> program_address(seeds_view(seeds@), program_id@) is Some,
        found matches Some((address, bump)) ==>
            program_address(seeds_view(seeds@), program_id@) == Some((address@, bump)),
{
    let refs: Vec<&[u8]> = seeds.iter().map(|s| s.as_slice()).collect();
    let program = anchor_lang::prelude::Pubkey::new_from_array(program_id.bytes);
    anchor_lang::prelude::Pubkey::try_find_program_address(&refs, &program)
        .map(|(address, bump)| (Pubkey { bytes: address.to_bytes() }, bump))
}

} // verus!
