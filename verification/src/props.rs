use vstd::prelude::*;

verus! {

use crate::account::AccountId;
use crate::custody::{custody_ok, pda_derivation};
use crate::error::{ErrorCode, ErrorClass, error_class};
use crate::fees::{FeeMode, fee_owed, scaled_amount};
use crate::state::{Lemconn, native_mint_seq};
use crate::ops::{
    AssetClaimState,
    CloseBalances,
    DepositBalances,
    NativeClaimState,
    claim_outcome,
    claim2_outcome,
    close_outcome,
    initialize_outcome,
    update_outcome,
};

/// A zero-amount claim always fails validation — on either fee path, and
/// whatever the balances hold.
pub proof fn lemma_zero_claim_fails(
    a: Lemconn,
    program: AccountId,
    claimant: AccountId,
    claimant_fees_account: AccountId,
    native_st: NativeClaimState,
    asset_st: AssetClaimState,
)
    requires
        a.initialized,
    ensures
        a.lemconn_fees_mint@ == native_mint_seq() ==> claim_outcome(
            a,
            program,
            claimant,
            0,
            native_st,
        ) == Err::<NativeClaimState, ErrorCode>(ErrorCode::ClaimTokenAmountIsZero),
        a.lemconn_fees_mint@ != native_mint_seq() ==> claim2_outcome(
            a,
            program,
            claimant,
            claimant_fees_account,
            0,
            asset_st,
        ) == Err::<AssetClaimState, ErrorCode>(ErrorCode::ClaimTokenAmountIsZero),
        error_class(ErrorCode::ClaimTokenAmountIsZero) == ErrorClass::ValidationError,
{
}

/// A claim against an uninitialized agreement fails validation — on either
/// fee path, before anything else is looked at.
pub proof fn lemma_uninitialized_claim_fails(
    a: Lemconn,
    program: AccountId,
    claimant: AccountId,
    claimant_fees_account: AccountId,
    amount: u64,
    native_st: NativeClaimState,
    asset_st: AssetClaimState,
)
    requires
        !a.initialized,
    ensures
        claim_outcome(a, program, claimant, amount, native_st) == Err::<
            NativeClaimState,
            ErrorCode,
        >(ErrorCode::ContractNotInitialized),
        claim2_outcome(a, program, claimant, claimant_fees_account, amount, asset_st) == Err::<
            AssetClaimState,
            ErrorCode,
        >(ErrorCode::ContractNotInitialized),
        error_class(ErrorCode::ContractNotInitialized) == ErrorClass::ValidationError,
{
}

/// Each claim path rejects the other's fee asset: the native path fails on
/// an agreement whose fee mint is not the native mint, and the asset path
/// fails symmetrically on one whose fee mint is — always with the
/// unsupported-pair error, whatever the balances.
pub proof fn lemma_wrong_pair_fails(
    a: Lemconn,
    program: AccountId,
    claimant: AccountId,
    claimant_fees_account: AccountId,
    amount: u64,
    native_st: NativeClaimState,
    asset_st: AssetClaimState,
)
    requires
        a.initialized,
    ensures
        a.lemconn_fees_mint@ != native_mint_seq() ==> claim_outcome(
            a,
            program,
            claimant,
            amount,
            native_st,
        ) == Err::<NativeClaimState, ErrorCode>(ErrorCode::TransactionPairNotSupported),
        a.lemconn_fees_mint@ == native_mint_seq() ==> claim2_outcome(
            a,
            program,
            claimant,
            claimant_fees_account,
            amount,
            asset_st,
        ) == Err::<AssetClaimState, ErrorCode>(ErrorCode::TransactionPairNotSupported),
        error_class(ErrorCode::TransactionPairNotSupported) == ErrorClass::UnsupportedMode,
{
}

/// Scaling never overflows silently on a claim: where every earlier check
/// of the path passes and `amount * 10^decimals` leaves the 64-bit range,
/// the claim fails with `ArithmeticOverflow` — the transition is a pure
/// function, so no balance moves.
pub proof fn lemma_claim_scaling_overflow_fails(
    a: Lemconn,
    program: AccountId,
    claimant: AccountId,
    claimant_fees_account: AccountId,
    amount: u64,
    native_st: NativeClaimState,
    asset_st: AssetClaimState,
)
    requires
        a.initialized,
        amount > 0,
        claimant@ != a.lemconn_owner_account@,
        custody_ok(a, program),
        fee_owed(a.lemconn_token_mode, a.lemconn_token_fees, amount) <= u64::MAX,
        scaled_amount(amount, a.lemconn_token_decimal) > u64::MAX,
    ensures
        a.lemconn_fees_mint@ == native_mint_seq() && native_st.claimant_lamports >= fee_owed(
            a.lemconn_token_mode,
            a.lemconn_token_fees,
            amount,
        ) ==> claim_outcome(a, program, claimant, amount, native_st) == Err::<
            NativeClaimState,
            ErrorCode,
        >(ErrorCode::ArithmeticOverflow),
        a.lemconn_fees_mint@ != native_mint_seq() && claimant_fees_account@
            != a.lemconn_fees_account@ && asset_st.claimant_fees >= fee_owed(
            a.lemconn_token_mode,
            a.lemconn_token_fees,
            amount,
        ) ==> claim2_outcome(a, program, claimant, claimant_fees_account, amount, asset_st)
            == Err::<AssetClaimState, ErrorCode>(ErrorCode::ArithmeticOverflow),
{
}

/// Scaling never overflows silently on a deposit either: an initial deposit
/// or a top-up whose base-unit value leaves the 64-bit range fails with
/// `ArithmeticOverflow` once the checks before it pass — and the record and
/// the balances stay exactly as they were.
pub proof fn lemma_deposit_scaling_overflow_fails(
    old_a: Lemconn,
    program: AccountId,
    distributor: AccountId,
    fees_mint: AccountId,
    token_mint: AccountId,
    distributor_token_account: AccountId,
    distributor_fees_account: AccountId,
    escrow_token_account: AccountId,
    token_amount: u64,
    token_fees: u64,
    token_mode: FeeMode,
    token_decimal: u8,
    st: DepositBalances,
    caller: AccountId,
)
    requires
        token_amount > 0,
    ensures
        !old_a.initialized && pda_derivation(program@, distributor@, fees_mint@, token_mint@)
            is Some && scaled_amount(token_amount, token_decimal) > u64::MAX ==> initialize_outcome(
            old_a,
            program,
            distributor,
            fees_mint,
            token_mint,
            distributor_token_account,
            distributor_fees_account,
            escrow_token_account,
            token_amount,
            token_fees,
            token_mode,
            token_decimal,
            st,
        ) == Err::<(Lemconn, DepositBalances), ErrorCode>(ErrorCode::ArithmeticOverflow),
        old_a.initialized && caller@ == old_a.lemconn_owner_account@ && custody_ok(old_a, program)
            && scaled_amount(token_amount, old_a.lemconn_token_decimal) > u64::MAX
            ==> update_outcome(old_a, program, caller, token_fees, token_mode, token_amount, st)
            == Err::<(Lemconn, DepositBalances), ErrorCode>(ErrorCode::ArithmeticOverflow),
{
}

/// Under a flat-per-claim fee `F`, a successful native claim of `A` display
/// units moves exactly `F` from the claimant's to the distributor's native
/// balance and exactly `A * 10^decimals` base units from escrow to the
/// claimant.
pub proof fn lemma_flat_fee_deltas(
    a: Lemconn,
    program: AccountId,
    claimant: AccountId,
    amount: u64,
    st: NativeClaimState,
    st2: NativeClaimState,
)
    requires
        a.lemconn_token_mode is FlatPerClaim,
        claim_outcome(a, program, claimant, amount, st) == Ok::<NativeClaimState, ErrorCode>(st2),
        st.claimant_lamports + st.distributor_lamports <= u64::MAX,
        st.escrow_tokens + st.claimant_tokens <= u64::MAX,
    ensures
        st2.distributor_lamports == st.distributor_lamports + a.lemconn_token_fees,
        st2.claimant_lamports == st.claimant_lamports - a.lemconn_token_fees,
        st2.escrow_tokens == st.escrow_tokens - scaled_amount(amount, a.lemconn_token_decimal),
        st2.claimant_tokens == st.claimant_tokens + scaled_amount(amount, a.lemconn_token_decimal),
{
}

/// Under a per-unit rate `R`, a successful native claim of `A` display units
/// charges a fee of exactly `A * R` — integer arithmetic, no rounding.
pub proof fn lemma_per_unit_fee_exact(
    a: Lemconn,
    program: AccountId,
    claimant: AccountId,
    amount: u64,
    st: NativeClaimState,
    st2: NativeClaimState,
)
    requires
        a.lemconn_token_mode is PerUnit,
        claim_outcome(a, program, claimant, amount, st) == Ok::<NativeClaimState, ErrorCode>(st2),
        st.claimant_lamports + st.distributor_lamports <= u64::MAX,
    ensures
        st.claimant_lamports - st2.claimant_lamports == amount * a.lemconn_token_fees,
        st2.distributor_lamports - st.distributor_lamports == amount * a.lemconn_token_fees,
{
}

/// A successful claim moves value, never makes or destroys it: the two
/// native balances it touches keep their sum, and so do the two token
/// balances — the fee leg and the escrow leg are each a closed transfer.
pub proof fn lemma_claim_conserves_totals(
    a: Lemconn,
    program: AccountId,
    claimant: AccountId,
    amount: u64,
    st: NativeClaimState,
    st2: NativeClaimState,
)
    requires
        claim_outcome(a, program, claimant, amount, st) == Ok::<NativeClaimState, ErrorCode>(st2),
        st.claimant_lamports + st.distributor_lamports <= u64::MAX,
        st.escrow_tokens + st.claimant_tokens <= u64::MAX,
    ensures
        st2.claimant_lamports + st2.distributor_lamports == st.claimant_lamports
            + st.distributor_lamports,
        st2.escrow_tokens + st2.claimant_tokens == st.escrow_tokens + st.claimant_tokens,
{
}

/// A fee policy written by `update` governs the next claim: after a
/// successful update to a per-unit rate `F`, a successful native claim of
/// `A` display units charges exactly `A * F`.
pub proof fn lemma_update_then_claim_charges_new_rate(
    a0: Lemconn,
    a1: Lemconn,
    program: AccountId,
    caller: AccountId,
    new_fee: u64,
    top_up: u64,
    update_st: DepositBalances,
    update_st2: DepositBalances,
    claimant: AccountId,
    amount: u64,
    st: NativeClaimState,
    st2: NativeClaimState,
)
    requires
        update_outcome(a0, program, caller, new_fee, FeeMode::PerUnit, top_up, update_st) == Ok::<
            (Lemconn, DepositBalances),
            ErrorCode,
        >((a1, update_st2)),
        claim_outcome(a1, program, claimant, amount, st) == Ok::<NativeClaimState, ErrorCode>(st2),
        st.claimant_lamports + st.distributor_lamports <= u64::MAX,
    ensures
        st.claimant_lamports - st2.claimant_lamports == amount * new_fee,
{
    assert(a1.lemconn_token_fees == new_fee);
    assert(a1.lemconn_token_mode is PerUnit);
}

/// A successful close drains the escrow completely: the distributor's token
/// account receives every escrowed base unit and — as the closed escrow
/// account's destination — that account's backing deposit; the
/// distributor's native balance receives exactly the record's own backing
/// deposit; and nothing is left behind. A close of a deleted agreement
/// fails: the record no longer exists.
pub proof fn lemma_close_drains_everything(
    a: Lemconn,
    program: AccountId,
    caller: AccountId,
    st: CloseBalances,
    st2: CloseBalances,
)
    requires
        close_outcome(Some(a), program, caller, st) == Ok::<CloseBalances, ErrorCode>(st2),
        st.distributor_tokens + st.escrow_tokens <= u64::MAX,
        st.distributor_token_account_lamports + st.escrow_account_lamports <= u64::MAX,
        st.distributor_lamports + st.registry_lamports <= u64::MAX,
    ensures
        st2.escrow_tokens == 0,
        st2.distributor_tokens == st.distributor_tokens + st.escrow_tokens,
        st2.escrow_account_lamports == 0,
        st2.registry_lamports == 0,
        st2.distributor_token_account_lamports == st.distributor_token_account_lamports
            + st.escrow_account_lamports,
        st2.distributor_lamports == st.distributor_lamports + st.registry_lamports,
        forall|caller2: AccountId, st3: CloseBalances|
            close_outcome(None, program, caller2, st3) == Err::<CloseBalances, ErrorCode>(
                ErrorCode::ContractNotInitialized,
            ),
{
}

/// Initialization of an already-initialized agreement fails at once with
/// `ContractInitialized` — before the deposit is even considered, so no
/// balance and no stored field can change.
pub proof fn lemma_double_initialize_fails(
    old_a: Lemconn,
    program: AccountId,
    distributor: AccountId,
    fees_mint: AccountId,
    token_mint: AccountId,
    distributor_token_account: AccountId,
    distributor_fees_account: AccountId,
    escrow_token_account: AccountId,
    token_amount: u64,
    token_fees: u64,
    token_mode: FeeMode,
    token_decimal: u8,
    st: DepositBalances,
)
    requires
        old_a.initialized,
    ensures
        initialize_outcome(
            old_a,
            program,
            distributor,
            fees_mint,
            token_mint,
            distributor_token_account,
            distributor_fees_account,
            escrow_token_account,
            token_amount,
            token_fees,
            token_mode,
            token_decimal,
            st,
        ) == Err::<(Lemconn, DepositBalances), ErrorCode>(ErrorCode::ContractInitialized),
        error_class(ErrorCode::ContractInitialized) == ErrorClass::ValidationError,
{
}

/// Serialized claims never overdraw the escrow. Where a second claim
/// observes the escrow balance the first committed — its other balances may
/// be anyone's — the two scaled amounts together never exceed the starting
/// escrow balance, and the final balance is exactly the start minus both:
/// in particular it cannot go below zero.
pub proof fn lemma_two_claims_never_overdraw(
    a: Lemconn,
    program: AccountId,
    claimant1: AccountId,
    amount1: u64,
    st0: NativeClaimState,
    st1: NativeClaimState,
    claimant2: AccountId,
    amount2: u64,
    mid: NativeClaimState,
    st2: NativeClaimState,
)
    requires
        claim_outcome(a, program, claimant1, amount1, st0) == Ok::<NativeClaimState, ErrorCode>(
            st1,
        ),
        mid.escrow_tokens == st1.escrow_tokens,
        claim_outcome(a, program, claimant2, amount2, mid) == Ok::<NativeClaimState, ErrorCode>(
            st2,
        ),
        st0.claimant_lamports + st0.distributor_lamports <= u64::MAX,
        st0.escrow_tokens + st0.claimant_tokens <= u64::MAX,
        mid.claimant_lamports + mid.distributor_lamports <= u64::MAX,
        mid.escrow_tokens + mid.claimant_tokens <= u64::MAX,
    ensures
        scaled_amount(amount1, a.lemconn_token_decimal) + scaled_amount(
            amount2,
            a.lemconn_token_decimal,
        ) <= st0.escrow_tokens,
        st2.escrow_tokens == st0.escrow_tokens - scaled_amount(amount1, a.lemconn_token_decimal)
            - scaled_amount(amount2, a.lemconn_token_decimal),
        st2.escrow_tokens >= 0,
{
}

} // verus!
