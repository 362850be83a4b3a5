use vstd::prelude::*;

verus! {

use crate::account::AccountId;
use crate::fees::FeeMode;

/// The durable record of one distribution agreement, one per seed tuple
/// `(distributor, fee mint, token mint)`.
#[derive(Clone, Copy, Debug, PartialEq, Eq)]
pub struct Lemconn {
    /// Flips false to true exactly once, at initialization.
    pub initialized: bool,
    /// The distributor principal that funded and configured the agreement.
    pub lemconn_owner_account: AccountId,
    /// The mint of the distributed token.
    pub lemconn_token_mint: AccountId,
    /// The distributor's own token account, source of deposits and top-ups.
    pub lemconn_token_account: AccountId,
    /// The fee parameter: the whole fee under `FlatPerClaim`, the per-unit
    /// rate under `PerUnit`.
    pub lemconn_token_fees: u64,
    /// The fee policy.
    pub lemconn_token_mode: FeeMode,
    /// Display units scale by `10^lemconn_token_decimal`; fixed at
    /// initialization.
    pub lemconn_token_decimal: u8,
    /// The escrow token account, owned by the derived signing capability.
    pub pda_token_account: AccountId,
    /// The disambiguator byte discovered by the custody derivation.
    pub pda_owner_bump: u8,
    /// The mint fees are paid in; the native mint selects the native path.
    pub lemconn_fees_mint: AccountId,
    /// The distributor's fee account, destination of asset-denominated fees.
    pub lemconn_fees_account: AccountId,
}

/// The identity of the platform's native currency mint.
pub open spec fn native_mint_seq() -> Seq<u8> {
    seq![
        6u8, 155u8, 136u8, 87u8, 254u8, 171u8, 129u8, 132u8, 251u8, 104u8, 127u8, 99u8, 70u8,
        24u8, 192u8, 53u8, 218u8, 196u8, 57u8, 220u8, 26u8, 235u8, 59u8, 85u8, 152u8, 160u8,
        240u8, 0u8, 0u8, 0u8, 0u8, 1u8,
    ]
}

/// The native currency mint as an `AccountId`.
pub fn native_mint() -> (r: AccountId)
    ensures
        r@ == native_mint_seq(),
{
    let bytes: [u8; 32] = [
        6u8, 155u8, 136u8, 87u8, 254u8, 171u8, 129u8, 132u8, 251u8, 104u8, 127u8, 99u8, 70u8,
        24u8, 192u8, 53u8, 218u8, 196u8, 57u8, 220u8, 26u8, 235u8, 59u8, 85u8, 152u8, 160u8,
        240u8, 0u8, 0u8, 0u8, 0u8, 1u8,
    ];
    let r = AccountId { bytes };
    proof {
        assert(r@ =~= native_mint_seq());
    }
    r
}

/// Whether an identity is the native currency mint.
pub fn is_native_mint(id: &AccountId) -> (r: bool)
    ensures
        r == (id@ == native_mint_seq()),
{
    let native = native_mint();
    crate::account::id_eq(id, &native)
}

} // verus!
