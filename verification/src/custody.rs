use vstd::prelude::*;

verus! {

use crate::account::AccountId;
use crate::state::Lemconn;
use anchor_lang::solana_program::pubkey::Pubkey;

/// What the platform's program-address derivation returns for the seed tuple
/// `(distributor, fee mint, token mint)` under a given program: the derived
/// escrow-authority address and its disambiguator byte, or nothing where no
/// disambiguator yields a valid address. The result depends on the four
/// identities alone.
pub uninterp spec fn pda_derivation(
    program: Seq<u8>,
    distributor: Seq<u8>,
    fee_mint: Seq<u8>,
    token_mint: Seq<u8>,
) -> Option<(Seq<u8>, u8)>;

/// Relies on `Pubkey::try_find_program_address` (reached through
/// `anchor_lang::solana_program`): a deterministic derivation from the seeds
/// and the program address alone. It tries disambiguator bytes from 255
/// downward (0 is never tried) and returns a 32-byte address with the first
/// byte that yields a valid one, or `None` where none works.
#[verifier::external_body]
fn find_custody(
    program: &AccountId,
    distributor: &AccountId,
    fee_mint: &AccountId,
    token_mint: &AccountId,
) -> (r: Option<(AccountId, u8)>)
    ensures
        match r {
            Some(d) => pda_derivation(program@, distributor@, fee_mint@, token_mint@)
                == Some((d.0@, d.1)),
            None => pda_derivation(program@, distributor@, fee_mint@, token_mint@) is None,
        },
{
    let seeds: [&[u8]; 3] = [&distributor.bytes, &fee_mint.bytes, &token_mint.bytes];
    Pubkey::try_find_program_address(&seeds, &Pubkey::new_from_array(program.bytes))
        .map(|(addr, bump)| (AccountId { bytes: addr.to_bytes() }, bump))
}

/// The custody invariant of an agreement under a program: the derivation,
/// recomputed from the stored seed tuple, exists and yields the stored bump.
pub open spec fn custody_ok(a: Lemconn, program: AccountId) -> bool {
    pda_derivation(
        program@,
        a.lemconn_owner_account@,
        a.lemconn_fees_mint@,
        a.lemconn_token_mint@,
    ) matches Some(d) && d.1 == a.pda_owner_bump
}

/// Derives the escrow authority for a seed tuple: the address the signing
/// capability is scoped to, and the discovered bump.
pub fn derive_escrow_authority(
    program: &AccountId,
    distributor: &AccountId,
    fee_mint: &AccountId,
    token_mint: &AccountId,
) -> (r: Option<(AccountId, u8)>)
    ensures
        match r {
            Some(d) => pda_derivation(program@, distributor@, fee_mint@, token_mint@)
                == Some((d.0@, d.1)),
            None => pda_derivation(program@, distributor@, fee_mint@, token_mint@) is None,
        },
{
    find_custody(program, distributor, fee_mint, token_mint)
}

/// Recomputes the custody derivation from the agreement's stored seed tuple
/// and compares it against the stored bump, as every claim, update and close
/// must.
pub fn check_custody(a: &Lemconn, program: &AccountId) -> (r: bool)
    ensures
        r == custody_ok(*a, *program),
{
    match find_custody(
        program,
        &a.lemconn_owner_account,
        &a.lemconn_fees_mint,
        &a.lemconn_token_mint,
    ) {
        Some(d) => d.1 == a.pda_owner_bump,
        None => false,
    }
}

} // verus!
