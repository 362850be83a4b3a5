use vstd::prelude::*;

verus! {

use crate::account::{AccountId, id_eq};
use crate::custody::{custody_ok, derive_escrow_authority, check_custody, pda_derivation};
use crate::error::ErrorCode;
use crate::fees::{FeeMode, fee_owed, scaled_amount, compute_fee, scale_to_base};
use crate::state::{Lemconn, native_mint_seq, is_native_mint};

/// The balances a native-fee claim reads and writes. The fee moves between
/// the claimant's and the distributor's native balances; the claimed tokens
/// move from escrow to the claimant.
#[derive(Clone, Copy, Debug, PartialEq, Eq, Structural)]
pub struct NativeClaimState {
    /// The claimant's native balance, the fee's source.
    pub claimant_lamports: u64,
    /// The distributor's native balance, the fee's destination.
    pub distributor_lamports: u64,
    /// The escrow token account's balance, in base units.
    pub escrow_tokens: u64,
    /// The claimant's token balance, in base units.
    pub claimant_tokens: u64,
}

/// The balances an asset-fee claim reads and writes. The fee moves between
/// the fee-asset custody accounts of the claimant and the distributor.
#[derive(Clone, Copy, Debug, PartialEq, Eq, Structural)]
pub struct AssetClaimState {
    /// The claimant's fee-asset balance, the fee's source.
    pub claimant_fees: u64,
    /// The distributor's fee-asset balance, the fee's destination.
    pub distributor_fees: u64,
    /// The escrow token account's balance, in base units.
    pub escrow_tokens: u64,
    /// The claimant's token balance, in base units.
    pub claimant_tokens: u64,
}

/// The token balances a deposit (at initialization) or a top-up (at update)
/// moves between.
#[derive(Clone, Copy, Debug, PartialEq, Eq, Structural)]
pub struct DepositBalances {
    /// The distributor's token balance, in base units.
    pub distributor_tokens: u64,
    /// The escrow token account's balance, in base units.
    pub escrow_tokens: u64,
}

/// The balances a close drains: the whole escrow token balance moves to the
/// distributor's token account, which — as the destination of the escrow
/// account's closure — also receives that account's backing deposit; the
/// registry record's own backing deposit returns to the distributor's
/// native balance.
#[derive(Clone, Copy, Debug, PartialEq, Eq, Structural)]
pub struct CloseBalances {
    /// The escrow token account's balance, in base units.
    pub escrow_tokens: u64,
    /// The distributor's token balance, in base units.
    pub distributor_tokens: u64,
    /// The native deposit backing the escrow token account.
    pub escrow_account_lamports: u64,
    /// The native deposit backing the registry record.
    pub registry_lamports: u64,
    /// The native balance carried by the distributor's token account: the
    /// destination of the escrow account's reclaimed deposit.
    pub distributor_token_account_lamports: u64,
    /// The distributor's own native balance: the destination of the
    /// record's reclaimed deposit.
    pub distributor_lamports: u64,
}

/// What `initialize` returns and stores, as a function of its inputs: the
/// populated agreement and the balances after the initial deposit, or the
/// first error in check order.
pub open spec fn initialize_outcome(
    old_a: Lemconn,
    program: AccountId,
    distributor: AccountId,
    fees_mint: AccountId,
    token_mint: AccountId,
    distributor_token_account: AccountId,
    distributor_fees_account: AccountId,
    escrow_token_account: AccountId,
    token_amount: u64,
    token_fees: u64,
    token_mode: FeeMode,
    token_decimal: u8,
    st: DepositBalances,
) -> Result<(Lemconn, DepositBalances), ErrorCode> {
    if old_a.initialized {
        Err(ErrorCode::ContractInitialized)
    } else {
        match pda_derivation(program@, distributor@, fees_mint@, token_mint@) {
            Option::None => Err(ErrorCode::AccountNotCorrect),
            Option::Some(d) => {
                let a2 = Lemconn {
                    initialized: true,
                    lemconn_owner_account: distributor,
                    lemconn_token_mint: token_mint,
                    lemconn_token_account: distributor_token_account,
                    lemconn_token_fees: token_fees,
                    lemconn_token_mode: token_mode,
                    lemconn_token_decimal: token_decimal,
                    pda_token_account: escrow_token_account,
                    pda_owner_bump: d.1,
                    lemconn_fees_mint: fees_mint,
                    lemconn_fees_account: distributor_fees_account,
                };
                if token_amount == 0 {
                    Ok((a2, st))
                } else if scaled_amount(token_amount, token_decimal) > u64::MAX {
                    Err(ErrorCode::ArithmeticOverflow)
                } else if st.distributor_tokens < scaled_amount(token_amount, token_decimal) {
                    Err(ErrorCode::TokenAmountNotEnough)
                } else {
                    Ok(
                        (
                            a2,
                            DepositBalances {
                                distributor_tokens: (st.distributor_tokens - scaled_amount(
                                    token_amount,
                                    token_decimal,
                                )) as u64,
                                escrow_tokens: (st.escrow_tokens + scaled_amount(
                                    token_amount,
                                    token_decimal,
                                )) as u64,
                            },
                        ),
                    )
                }
            },
        }
    }
}

/// Creates the agreement for the seed tuple `(distributor, fees_mint,
/// token_mint)`: discovers the custody bump, populates every field of the
/// record, and, where `token_amount > 0`, moves `token_amount *
/// 10^token_decimal` base units from the distributor's token account into
/// escrow. Fails with `ContractInitialized` — mutating nothing — where the
/// record is already initialized. Either every effect commits or none does.
///
/// The balance-sum bound holds of any real ledger: the token's total supply
/// fits in 64 bits.
pub fn initialize(
    agreement: &mut Lemconn,
    program_id: &AccountId,
    distributor: &AccountId,
    fees_mint: &AccountId,
    token_mint: &AccountId,
    distributor_token_account: &AccountId,
    distributor_fees_account: &AccountId,
    escrow_token_account: &AccountId,
    token_amount: u64,
    token_fees: u64,
    token_mode: FeeMode,
    token_decimal: u8,
    st: DepositBalances,
) -> (r: Result<DepositBalances, ErrorCode>)
    requires
        st.distributor_tokens + st.escrow_tokens <= u64::MAX,
    ensures
        match initialize_outcome(
            *old(agreement),
            *program_id,
            *distributor,
            *fees_mint,
            *token_mint,
            *distributor_token_account,
            *distributor_fees_account,
            *escrow_token_account,
            token_amount,
            token_fees,
            token_mode,
            token_decimal,
            st,
        ) {
            Ok(p) => r == Ok::<DepositBalances, ErrorCode>(p.1) && *final(agreement) == p.0,
            Err(e) => r == Err::<DepositBalances, ErrorCode>(e) && *final(agreement) == *old(
                agreement,
            ),
        },
        r is Ok ==> final(agreement).initialized && custody_ok(*final(agreement), *program_id),
{
    if agreement.initialized {
        return Err(ErrorCode::ContractInitialized);
    }
    let bump = match derive_escrow_authority(program_id, distributor, fees_mint, token_mint) {
        Some(d) => d.1,
        None => {
            return Err(ErrorCode::AccountNotCorrect);
        },
    };
    let new_balances: DepositBalances = if token_amount == 0 {
        st
    } else {
        let base = match scale_to_base(token_amount, token_decimal) {
            Ok(b) => b,
            Err(e) => {
                return Err(e);
            },
        };
        if st.distributor_tokens < base {
            return Err(ErrorCode::TokenAmountNotEnough);
        }
        DepositBalances {
            distributor_tokens: st.distributor_tokens - base,
            escrow_tokens: st.escrow_tokens + base,
        }
    };
    *agreement = Lemconn {
        initialized: true,
        lemconn_owner_account: *distributor,
        lemconn_token_mint: *token_mint,
        lemconn_token_account: *distributor_token_account,
        lemconn_token_fees: token_fees,
        lemconn_token_mode: token_mode,
        lemconn_token_decimal: token_decimal,
        pda_token_account: *escrow_token_account,
        pda_owner_bump: bump,
        lemconn_fees_mint: *fees_mint,
        lemconn_fees_account: *distributor_fees_account,
    };
    Ok(new_balances)
}

/// What `claim` returns, as a function of its inputs: the balances after a
/// native-fee claim, or the first error in check order.
pub open spec fn claim_outcome(
    a: Lemconn,
    program: AccountId,
    claimant: AccountId,
    amount: u64,
    st: NativeClaimState,
) -> Result<NativeClaimState, ErrorCode> {
    if !a.initialized {
        Err(ErrorCode::ContractNotInitialized)
    } else if a.lemconn_fees_mint@ != native_mint_seq() {
        Err(ErrorCode::TransactionPairNotSupported)
    } else if amount == 0 {
        Err(ErrorCode::ClaimTokenAmountIsZero)
    } else if claimant@ == a.lemconn_owner_account@ {
        Err(ErrorCode::AccountNotCorrect)
    } else if !custody_ok(a, program) {
        Err(ErrorCode::AccountNotCorrect)
    } else if fee_owed(a.lemconn_token_mode, a.lemconn_token_fees, amount) > u64::MAX {
        Err(ErrorCode::ArithmeticOverflow)
    } else if st.claimant_lamports < fee_owed(a.lemconn_token_mode, a.lemconn_token_fees, amount) {
        Err(ErrorCode::GasFeeNotEnough)
    } else if scaled_amount(amount, a.lemconn_token_decimal) > u64::MAX {
        Err(ErrorCode::ArithmeticOverflow)
    } else if st.escrow_tokens < scaled_amount(amount, a.lemconn_token_decimal) {
        Err(ErrorCode::TokenAmountNotEnough)
    } else {
        let fee = fee_owed(a.lemconn_token_mode, a.lemconn_token_fees, amount);
        let base = scaled_amount(amount, a.lemconn_token_decimal);
        Ok(
            NativeClaimState {
                claimant_lamports: (st.claimant_lamports - fee) as u64,
                distributor_lamports: (st.distributor_lamports + fee) as u64,
                escrow_tokens: (st.escrow_tokens - base) as u64,
                claimant_tokens: (st.claimant_tokens + base) as u64,
            },
        )
    }
}

/// The native-fee claim path. The claimant — who must differ from the
/// distributor — pays the policy fee from their native balance straight to
/// the distributor's native balance (no escrow hop), and receives `amount *
/// 10^decimals` base units out of escrow, authorized by the re-derived
/// custody capability. Both movements commit together or not at all.
///
/// The two balance-sum bounds hold of any real ledger: each asset's total
/// supply fits in 64 bits.
pub fn claim(
    agreement: &Lemconn,
    program_id: &AccountId,
    claimant: &AccountId,
    amount: u64,
    st: NativeClaimState,
) -> (r: Result<NativeClaimState, ErrorCode>)
    requires
        st.claimant_lamports + st.distributor_lamports <= u64::MAX,
        st.escrow_tokens + st.claimant_tokens <= u64::MAX,
    ensures
        r == claim_outcome(*agreement, *program_id, *claimant, amount, st),
        r matches Ok(st2) ==> {
            let fee = fee_owed(agreement.lemconn_token_mode, agreement.lemconn_token_fees, amount);
            let base = scaled_amount(amount, agreement.lemconn_token_decimal);
            &&& st2.claimant_lamports == st.claimant_lamports - fee
            &&& st2.distributor_lamports == st.distributor_lamports + fee
            &&& st2.escrow_tokens == st.escrow_tokens - base
            &&& st2.claimant_tokens == st.claimant_tokens + base
        },
{
    if !agreement.initialized {
        return Err(ErrorCode::ContractNotInitialized);
    }
    if !is_native_mint(&agreement.lemconn_fees_mint) {
        return Err(ErrorCode::TransactionPairNotSupported);
    }
    if amount == 0 {
        return Err(ErrorCode::ClaimTokenAmountIsZero);
    }
    if id_eq(claimant, &agreement.lemconn_owner_account) {
        return Err(ErrorCode::AccountNotCorrect);
    }
    if !check_custody(agreement, program_id) {
        return Err(ErrorCode::AccountNotCorrect);
    }
    let fee = match compute_fee(
        agreement.lemconn_token_mode,
        agreement.lemconn_token_fees,
        amount,
    ) {
        Ok(f) => f,
        Err(e) => {
            return Err(e);
        },
    };
    if st.claimant_lamports < fee {
        return Err(ErrorCode::GasFeeNotEnough);
    }
    let base = match scale_to_base(amount, agreement.lemconn_token_decimal) {
        Ok(b) => b,
        Err(e) => {
            return Err(e);
        },
    };
    if st.escrow_tokens < base {
        return Err(ErrorCode::TokenAmountNotEnough);
    }
    Ok(
        NativeClaimState {
            claimant_lamports: st.claimant_lamports - fee,
            distributor_lamports: st.distributor_lamports + fee,
            escrow_tokens: st.escrow_tokens - base,
            claimant_tokens: st.claimant_tokens + base,
        },
    )
}

/// What `claim2` returns, as a function of its inputs: the balances after an
/// asset-fee claim, or the first error in check order.
pub open spec fn claim2_outcome(
    a: Lemconn,
    program: AccountId,
    claimant: AccountId,
    claimant_fees_account: AccountId,
    amount: u64,
    st: AssetClaimState,
) -> Result<AssetClaimState, ErrorCode> {
    if !a.initialized {
        Err(ErrorCode::ContractNotInitialized)
    } else if a.lemconn_fees_mint@ == native_mint_seq() {
        Err(ErrorCode::TransactionPairNotSupported)
    } else if amount == 0 {
        Err(ErrorCode::ClaimTokenAmountIsZero)
    } else if claimant@ == a.lemconn_owner_account@ {
        Err(ErrorCode::AccountNotCorrect)
    } else if claimant_fees_account@ == a.lemconn_fees_account@ {
        Err(ErrorCode::AccountNotCorrect)
    } else if !custody_ok(a, program) {
        Err(ErrorCode::AccountNotCorrect)
    } else if fee_owed(a.lemconn_token_mode, a.lemconn_token_fees, amount) > u64::MAX {
        Err(ErrorCode::ArithmeticOverflow)
    } else if st.claimant_fees < fee_owed(a.lemconn_token_mode, a.lemconn_token_fees, amount) {
        Err(ErrorCode::GasFeeNotEnough)
    } else if scaled_amount(amount, a.lemconn_token_decimal) > u64::MAX {
        Err(ErrorCode::ArithmeticOverflow)
    } else if st.escrow_tokens < scaled_amount(amount, a.lemconn_token_decimal) {
        Err(ErrorCode::TokenAmountNotEnough)
    } else {
        let fee = fee_owed(a.lemconn_token_mode, a.lemconn_token_fees, amount);
        let base = scaled_amount(amount, a.lemconn_token_decimal);
        Ok(
            AssetClaimState {
                claimant_fees: (st.claimant_fees - fee) as u64,
                distributor_fees: (st.distributor_fees + fee) as u64,
                escrow_tokens: (st.escrow_tokens - base) as u64,
                claimant_tokens: (st.claimant_tokens + base) as u64,
            },
        )
    }
}

/// The asset-fee claim path: as `claim`, but the fee moves between the
/// fee-asset custody accounts of the claimant and the distributor, which
/// must be distinct. The claimant's fee balance must cover the computed fee.
///
/// The two balance-sum bounds hold of any real ledger: each asset's total
/// supply fits in 64 bits.
pub fn claim2(
    agreement: &Lemconn,
    program_id: &AccountId,
    claimant: &AccountId,
    claimant_fees_account: &AccountId,
    amount: u64,
    st: AssetClaimState,
) -> (r: Result<AssetClaimState, ErrorCode>)
    requires
        st.claimant_fees + st.distributor_fees <= u64::MAX,
        st.escrow_tokens + st.claimant_tokens <= u64::MAX,
    ensures
        r == claim2_outcome(
            *agreement,
            *program_id,
            *claimant,
            *claimant_fees_account,
            amount,
            st,
        ),
        r matches Ok(st2) ==> {
            let fee = fee_owed(agreement.lemconn_token_mode, agreement.lemconn_token_fees, amount);
            let base = scaled_amount(amount, agreement.lemconn_token_decimal);
            &&& st2.claimant_fees == st.claimant_fees - fee
            &&& st2.distributor_fees == st.distributor_fees + fee
            &&& st2.escrow_tokens == st.escrow_tokens - base
            &&& st2.claimant_tokens == st.claimant_tokens + base
        },
{
    if !agreement.initialized {
        return Err(ErrorCode::ContractNotInitialized);
    }
    if is_native_mint(&agreement.lemconn_fees_mint) {
        return Err(ErrorCode::TransactionPairNotSupported);
    }
    if amount == 0 {
        return Err(ErrorCode::ClaimTokenAmountIsZero);
    }
    if id_eq(claimant, &agreement.lemconn_owner_account) {
        return Err(ErrorCode::AccountNotCorrect);
    }
    if id_eq(claimant_fees_account, &agreement.lemconn_fees_account) {
        return Err(ErrorCode::AccountNotCorrect);
    }
    if !check_custody(agreement, program_id) {
        return Err(ErrorCode::AccountNotCorrect);
    }
    let fee = match compute_fee(
        agreement.lemconn_token_mode,
        agreement.lemconn_token_fees,
        amount,
    ) {
        Ok(f) => f,
        Err(e) => {
            return Err(e);
        },
    };
    if st.claimant_fees < fee {
        return Err(ErrorCode::GasFeeNotEnough);
    }
    let base = match scale_to_base(amount, agreement.lemconn_token_decimal) {
        Ok(b) => b,
        Err(e) => {
            return Err(e);
        },
    };
    if st.escrow_tokens < base {
        return Err(ErrorCode::TokenAmountNotEnough);
    }
    Ok(
        AssetClaimState {
            claimant_fees: st.claimant_fees - fee,
            distributor_fees: st.distributor_fees + fee,
            escrow_tokens: st.escrow_tokens - base,
            claimant_tokens: st.claimant_tokens + base,
        },
    )
}

/// What `update` returns and stores, as a function of its inputs: the
/// agreement with its new fee policy and the balances after the optional
/// top-up, or the first error in check order.
pub open spec fn update_outcome(
    old_a: Lemconn,
    program: AccountId,
    caller: AccountId,
    token_fees: u64,
    token_mode: FeeMode,
    token_amount: u64,
    st: DepositBalances,
) -> Result<(Lemconn, DepositBalances), ErrorCode> {
    if !old_a.initialized {
        Err(ErrorCode::ContractNotInitialized)
    } else if caller@ != old_a.lemconn_owner_account@ {
        Err(ErrorCode::AccountNotCorrect)
    } else if !custody_ok(old_a, program) {
        Err(ErrorCode::AccountNotCorrect)
    } else {
        let a2 = Lemconn {
            lemconn_token_fees: token_fees,
            lemconn_token_mode: token_mode,
            ..old_a
        };
        if token_amount == 0 {
            Ok((a2, st))
        } else if scaled_amount(token_amount, old_a.lemconn_token_decimal) > u64::MAX {
            Err(ErrorCode::ArithmeticOverflow)
        } else if st.distributor_tokens < scaled_amount(token_amount, old_a.lemconn_token_decimal) {
            Err(ErrorCode::TokenAmountNotEnough)
        } else {
            Ok(
                (
                    a2,
                    DepositBalances {
                        distributor_tokens: (st.distributor_tokens - scaled_amount(
                            token_amount,
                            old_a.lemconn_token_decimal,
                        )) as u64,
                        escrow_tokens: (st.escrow_tokens + scaled_amount(
                            token_amount,
                            old_a.lemconn_token_decimal,
                        )) as u64,
                    },
                ),
            )
        }
    }
}

/// Overwrites the agreement's fee amount and fee mode — the caller must be
/// the stored distributor, and the custody derivation must still match — and,
/// where `token_amount > 0`, tops the escrow up by `token_amount *
/// 10^decimals` base units from the distributor's token account. A failed
/// top-up leaves the fee policy unchanged too: the call is atomic.
///
/// The balance-sum bound holds of any real ledger: the token's total supply
/// fits in 64 bits.
pub fn update(
    agreement: &mut Lemconn,
    program_id: &AccountId,
    caller: &AccountId,
    token_fees: u64,
    token_mode: FeeMode,
    token_amount: u64,
    st: DepositBalances,
) -> (r: Result<DepositBalances, ErrorCode>)
    requires
        st.distributor_tokens + st.escrow_tokens <= u64::MAX,
    ensures
        match update_outcome(
            *old(agreement),
            *program_id,
            *caller,
            token_fees,
            token_mode,
            token_amount,
            st,
        ) {
            Ok(p) => r == Ok::<DepositBalances, ErrorCode>(p.1) && *final(agreement) == p.0,
            Err(e) => r == Err::<DepositBalances, ErrorCode>(e) && *final(agreement) == *old(
                agreement,
            ),
        },
{
    if !agreement.initialized {
        return Err(ErrorCode::ContractNotInitialized);
    }
    if !id_eq(caller, &agreement.lemconn_owner_account) {
        return Err(ErrorCode::AccountNotCorrect);
    }
    if !check_custody(agreement, program_id) {
        return Err(ErrorCode::AccountNotCorrect);
    }
    let new_balances: DepositBalances = if token_amount == 0 {
        st
    } else {
        let base = match scale_to_base(token_amount, agreement.lemconn_token_decimal) {
            Ok(b) => b,
            Err(e) => {
                return Err(e);
            },
        };
        if st.distributor_tokens < base {
            return Err(ErrorCode::TokenAmountNotEnough);
        }
        DepositBalances {
            distributor_tokens: st.distributor_tokens - base,
            escrow_tokens: st.escrow_tokens + base,
        }
    };
    agreement.lemconn_token_fees = token_fees;
    agreement.lemconn_token_mode = token_mode;
    Ok(new_balances)
}

/// What `close` returns, as a function of its inputs: every escrowed token
/// moved to the distributor's token account, the escrow account's backing
/// deposit reclaimed onto that same token account (its closure
/// destination), and the record's own backing deposit moved to the
/// distributor's native balance — or the first error in check order. A
/// missing record — one already closed — fails with
/// `ContractNotInitialized`.
pub open spec fn close_outcome(
    slot: Option<Lemconn>,
    program: AccountId,
    caller: AccountId,
    st: CloseBalances,
) -> Result<CloseBalances, ErrorCode> {
    match slot {
        Option::None => Err(ErrorCode::ContractNotInitialized),
        Option::Some(a) => {
            if caller@ != a.lemconn_owner_account@ {
                Err(ErrorCode::AccountNotCorrect)
            } else if !custody_ok(a, program) {
                Err(ErrorCode::AccountNotCorrect)
            } else {
                Ok(
                    CloseBalances {
                        escrow_tokens: 0,
                        distributor_tokens: (st.distributor_tokens + st.escrow_tokens) as u64,
                        escrow_account_lamports: 0,
                        registry_lamports: 0,
                        distributor_token_account_lamports: (st.distributor_token_account_lamports
                            + st.escrow_account_lamports) as u64,
                        distributor_lamports: (st.distributor_lamports
                            + st.registry_lamports) as u64,
                    },
                )
            }
        },
    }
}

/// Tears the agreement down, strictly ordered: the whole current escrow
/// token balance moves to the distributor's token account under the
/// re-derived custody capability; the escrow account closes, its backing
/// deposit reclaimed onto that token account, its closure destination; and
/// the registry record's own backing deposit moves to the distributor's
/// native balance as the record is deleted. On any failure nothing at all
/// happens; a second close fails because the record no longer exists.
///
/// The balance-sum bounds hold of any real ledger: the token's and the
/// native currency's total supplies fit in 64 bits.
pub fn close(
    slot: &mut Option<Lemconn>,
    program_id: &AccountId,
    caller: &AccountId,
    st: CloseBalances,
) -> (r: Result<CloseBalances, ErrorCode>)
    requires
        st.distributor_tokens + st.escrow_tokens <= u64::MAX,
        st.distributor_token_account_lamports + st.escrow_account_lamports <= u64::MAX,
        st.distributor_lamports + st.registry_lamports <= u64::MAX,
    ensures
        r == close_outcome(*old(slot), *program_id, *caller, st),
        r is Ok ==> *final(slot) is None,
        r is Err ==> *final(slot) == *old(slot),
{
    let a = match *slot {
        Some(a) => a,
        None => {
            return Err(ErrorCode::ContractNotInitialized);
        },
    };
    if !id_eq(caller, &a.lemconn_owner_account) {
        return Err(ErrorCode::AccountNotCorrect);
    }
    if !check_custody(&a, program_id) {
        return Err(ErrorCode::AccountNotCorrect);
    }
    *slot = None;
    Ok(
        CloseBalances {
            escrow_tokens: 0,
            distributor_tokens: st.distributor_tokens + st.escrow_tokens,
            escrow_account_lamports: 0,
            registry_lamports: 0,
            distributor_token_account_lamports: st.distributor_token_account_lamports
                + st.escrow_account_lamports,
            distributor_lamports: st.distributor_lamports + st.registry_lamports,
        },
    )
}

} // verus!
