//! The calls into the hosting runtime, all through `anchor_lang`. Nothing
//! in this file is proved: each contract records what the runtime's source
//! shows, and the proofs elsewhere rest on it.

use vstd::prelude::*;
use crate::structs::models::{Instruction, Pubkey};

verus! {

/// The runtime's error type, carried through unopened.
#[verifier::external_type_specification]
#[verifier::external_body]
pub struct ExProgramError(anchor_lang::prelude::ProgramError);

/// The runtime's handle on one account of a request, carried through unopened.
#[verifier::external_type_specification]
#[verifier::external_body]
pub struct ExAccountInfo<'a>(anchor_lang::prelude::AccountInfo<'a>);

/// What `Pubkey::try_find_program_address` returns for the given seeds and
/// program: the derived address with its bump, or `None` where no bump
/// gives an address off the curve or the seeds are too many or too long.
pub uninterp spec fn program_address(seeds: Seq<Seq<u8>>, program_id: Seq<u8>) -> Option<
    (Seq<u8>, u8),
>;

/// The seeds as the sequences of bytes that they hold.
pub open spec fn seeds_view(seeds: Seq<Vec<u8>>) -> Seq<Seq<u8>> {
    Seq::new(seeds.len(), |i: int| seeds[i]@)
}

/// The derived address as the bytes that it holds.
pub open spec fn address_view(found: Option<(Pubkey, u8)>) -> Option<(Seq<u8>, u8)> {
    match found {
        Some((address, bump)) => Some((address@, bump)),
        None => None,
    }
}

/// Calls `Pubkey::try_find_program_address`. The result is a function of
/// the seeds and the program alone; the contract gives it its name and
/// claims nothing else.
#[verifier::external_body]
pub(crate) fn try_find_program_address(seeds: &Vec<Vec<u8>>, program_id: &Pubkey) -> (found: Option<
    (Pubkey, u8),
>)
    ensures
        address_view(found) == program_address(seeds_view(seeds@), program_id@),
{
    let slices: Vec<&[u8]> = seeds.iter().map(|seed| seed.as_slice()).collect();
    let program = anchor_lang::prelude::Pubkey::new_from_array(program_id.bytes);
    anchor_lang::prelude::Pubkey::try_find_program_address(&slices, &program).map(
        |(address, bump)| (Pubkey { bytes: address.to_bytes() }, bump),
    )
}

/// Calls `Clock::get` and picks the unix timestamp. The ledger decides the
/// time, so nothing is claimed of the result.
#[verifier::external_body]
pub(crate) fn unix_timestamp() -> (now: Result<i64, anchor_lang::prelude::ProgramError>) {
    <anchor_lang::prelude::Clock as anchor_lang::prelude::SolanaSysvar>::get().map(
        |clock| clock.unix_timestamp,
    )
}

/// Calls `invoke_signed` on the operation, written in the runtime's own
/// types, with one list of signer seeds. The target program and the ledger
/// decide the outcome, so nothing is claimed of the result.
#[verifier::external_body]
pub(crate) fn invoke_signed(
    instruction: &Instruction,
    account_infos: &[anchor_lang::prelude::AccountInfo<'_>],
    signer_seeds: &Vec<Vec<u8>>,
) -> (outcome: Result<(), anchor_lang::prelude::ProgramError>) {
    let accounts = instruction.keys.iter().map(
        |meta| anchor_lang::prelude::AccountMeta {
            pubkey: anchor_lang::prelude::Pubkey::new_from_array(meta.pubkey.bytes),
            is_signer: meta.is_signer,
            is_writable: meta.is_writable,
        },
    ).collect();
    let program_id = anchor_lang::prelude::Pubkey::new_from_array(instruction.program_id.bytes);
    let data = instruction.data.clone();
    let relayed = anchor_lang::solana_program::instruction::Instruction { program_id, accounts, data };
    let seeds: Vec<&[u8]> = signer_seeds.iter().map(|seed| seed.as_slice()).collect();
    anchor_lang::solana_program::program::invoke_signed(&relayed, account_infos, &[&seeds])
}

} // verus!
