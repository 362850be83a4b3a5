use anancoin_airdrop::account::AccountId;
use anancoin_airdrop::error::{ErrorClass, ErrorCode};
use anancoin_airdrop::fees::FeeMode;
use anancoin_airdrop::ops::{
    claim, claim2, close, initialize, update, AssetClaimState, CloseBalances, DepositBalances,
    NativeClaimState,
};
use anancoin_airdrop::state::{native_mint, Lemconn};

fn acct(b: u8) -> AccountId {
    AccountId { bytes: [b; 32] }
}

fn blank() -> Lemconn {
    Lemconn {
        initialized: false,
        lemconn_owner_account: acct(0),
        lemconn_token_mint: acct(0),
        lemconn_token_account: acct(0),
        lemconn_token_fees: 0,
        lemconn_token_mode: FeeMode::FlatPerClaim,
        lemconn_token_decimal: 0,
        pda_token_account: acct(0),
        pda_owner_bump: 0,
        lemconn_fees_mint: acct(0),
        lemconn_fees_account: acct(0),
    }
}

const PROGRAM: u8 = 9;
const DISTRIBUTOR: u8 = 1;
const TOKEN_MINT: u8 = 3;
const CLAIMANT: u8 = 11;

/// An agreement paying fees in the native currency: flat fee 5, 2 decimals,
/// 100 display units (10_000 base units) deposited into escrow.
fn native_agreement() -> (Lemconn, AccountId) {
    let program = acct(PROGRAM);
    let mut a = blank();
    let st = DepositBalances { distributor_tokens: 1_000_000, escrow_tokens: 0 };
    let out = initialize(
        &mut a,
        &program,
        &acct(DISTRIBUTOR),
        &native_mint(),
        &acct(TOKEN_MINT),
        &acct(4),
        &acct(5),
        &acct(6),
        100,
        5,
        FeeMode::FlatPerClaim,
        2,
        st,
    )
    .unwrap();
    assert_eq!(out.distributor_tokens, 990_000);
    assert_eq!(out.escrow_tokens, 10_000);
    (a, program)
}

/// An agreement paying fees in a second asset (mint 2): flat fee 5, 2
/// decimals, 10_000 base units escrowed.
fn asset_agreement() -> (Lemconn, AccountId) {
    let program = acct(PROGRAM);
    let mut a = blank();
    let st = DepositBalances { distributor_tokens: 1_000_000, escrow_tokens: 0 };
    initialize(
        &mut a,
        &program,
        &acct(DISTRIBUTOR),
        &acct(2),
        &acct(TOKEN_MINT),
        &acct(4),
        &acct(5),
        &acct(6),
        100,
        5,
        FeeMode::FlatPerClaim,
        2,
        st,
    )
    .unwrap();
    (a, program)
}

#[test]
fn initialize_populates_every_field() {
    let (a, _) = native_agreement();
    assert!(a.initialized);
    assert_eq!(a.lemconn_owner_account, acct(DISTRIBUTOR));
    assert_eq!(a.lemconn_token_mint, acct(TOKEN_MINT));
    assert_eq!(a.lemconn_token_account, acct(4));
    assert_eq!(a.lemconn_fees_account, acct(5));
    assert_eq!(a.pda_token_account, acct(6));
    assert_eq!(a.lemconn_fees_mint, native_mint());
    assert_eq!(a.lemconn_token_fees, 5);
    assert_eq!(a.lemconn_token_mode, FeeMode::FlatPerClaim);
    assert_eq!(a.lemconn_token_decimal, 2);
}

#[test]
fn initialize_rejects_a_second_initialization() {
    let (mut a, program) = native_agreement();
    let before = a;
    let st = DepositBalances { distributor_tokens: 500, escrow_tokens: 77 };
    let r = initialize(
        &mut a,
        &program,
        &acct(DISTRIBUTOR),
        &native_mint(),
        &acct(TOKEN_MINT),
        &acct(4),
        &acct(5),
        &acct(6),
        10,
        1,
        FeeMode::PerUnit,
        2,
        st,
    );
    assert_eq!(r, Err(ErrorCode::ContractInitialized));
    assert_eq!(ErrorCode::ContractInitialized.class(), ErrorClass::ValidationError);
    // Nothing was mutated on this path.
    assert_eq!(a, before);
}

#[test]
fn initialize_fails_when_the_deposit_exceeds_the_distributor_balance() {
    let program = acct(PROGRAM);
    let mut a = blank();
    let st = DepositBalances { distributor_tokens: 9_999, escrow_tokens: 0 };
    let r = initialize(
        &mut a,
        &program,
        &acct(DISTRIBUTOR),
        &native_mint(),
        &acct(TOKEN_MINT),
        &acct(4),
        &acct(5),
        &acct(6),
        100,
        5,
        FeeMode::FlatPerClaim,
        2,
        st,
    );
    assert_eq!(r, Err(ErrorCode::TokenAmountNotEnough));
    assert!(!a.initialized);
}

#[test]
fn initialize_fails_on_scaling_overflow() {
    let program = acct(PROGRAM);
    let mut a = blank();
    let st = DepositBalances { distributor_tokens: u64::MAX, escrow_tokens: 0 };
    let r = initialize(
        &mut a,
        &program,
        &acct(DISTRIBUTOR),
        &native_mint(),
        &acct(TOKEN_MINT),
        &acct(4),
        &acct(5),
        &acct(6),
        2,
        5,
        FeeMode::FlatPerClaim,
        19,
        st,
    );
    assert_eq!(r, Err(ErrorCode::ArithmeticOverflow));
    assert!(!a.initialized);
}

#[test]
fn flat_fee_claim_moves_exactly_the_stated_balances() {
    let (a, program) = native_agreement();
    let st = NativeClaimState {
        claimant_lamports: 1_000,
        distributor_lamports: 50,
        escrow_tokens: 10_000,
        claimant_tokens: 7,
    };
    let out = claim(&a, &program, &acct(CLAIMANT), 3, st).unwrap();
    // Flat fee 5; 3 display units at 2 decimals is 300 base units.
    assert_eq!(out.claimant_lamports, 995);
    assert_eq!(out.distributor_lamports, 55);
    assert_eq!(out.escrow_tokens, 9_700);
    assert_eq!(out.claimant_tokens, 307);
}

#[test]
fn per_unit_fee_claim_charges_the_exact_product() {
    let (mut a, program) = native_agreement();
    // Rate 7 per display unit.
    let st0 = DepositBalances { distributor_tokens: 0, escrow_tokens: 10_000 };
    update(&mut a, &program, &acct(DISTRIBUTOR), 7, FeeMode::PerUnit, 0, st0).unwrap();
    let st = NativeClaimState {
        claimant_lamports: 1_000,
        distributor_lamports: 0,
        escrow_tokens: 10_000,
        claimant_tokens: 0,
    };
    let out = claim(&a, &program, &acct(CLAIMANT), 4, st).unwrap();
    assert_eq!(st.claimant_lamports - out.claimant_lamports, 28);
    assert_eq!(out.distributor_lamports, 28);
}

#[test]
fn update_then_claim_charges_the_new_rate() {
    // update(feeAmount = 5, PerUnit) then claim(amount = 3) charges 15.
    let (mut a, program) = native_agreement();
    let st0 = DepositBalances { distributor_tokens: 0, escrow_tokens: 10_000 };
    update(&mut a, &program, &acct(DISTRIBUTOR), 5, FeeMode::PerUnit, 0, st0).unwrap();
    assert_eq!(a.lemconn_token_fees, 5);
    assert_eq!(a.lemconn_token_mode, FeeMode::PerUnit);
    let st = NativeClaimState {
        claimant_lamports: 100,
        distributor_lamports: 0,
        escrow_tokens: 10_000,
        claimant_tokens: 0,
    };
    let out = claim(&a, &program, &acct(CLAIMANT), 3, st).unwrap();
    assert_eq!(st.claimant_lamports - out.claimant_lamports, 15);
}

#[test]
fn zero_amount_claims_fail_validation_whatever_the_escrow_holds() {
    let (a, program) = native_agreement();
    for escrow in [0u64, 1, 10_000, u64::MAX / 2] {
        let st = NativeClaimState {
            claimant_lamports: 1_000,
            distributor_lamports: 0,
            escrow_tokens: escrow,
            claimant_tokens: 0,
        };
        let r = claim(&a, &program, &acct(CLAIMANT), 0, st);
        assert_eq!(r, Err(ErrorCode::ClaimTokenAmountIsZero));
        assert_eq!(ErrorCode::ClaimTokenAmountIsZero.class(), ErrorClass::ValidationError);
    }
    let (a2, program2) = asset_agreement();
    let st = AssetClaimState {
        claimant_fees: 1_000,
        distributor_fees: 0,
        escrow_tokens: 10_000,
        claimant_tokens: 0,
    };
    let r = claim2(&a2, &program2, &acct(CLAIMANT), &acct(12), 0, st);
    assert_eq!(r, Err(ErrorCode::ClaimTokenAmountIsZero));
}

#[test]
fn claims_against_an_uninitialized_agreement_fail_validation() {
    let a = blank();
    let st = NativeClaimState {
        claimant_lamports: 1_000,
        distributor_lamports: 0,
        escrow_tokens: 10_000,
        claimant_tokens: 0,
    };
    let r = claim(&a, &acct(PROGRAM), &acct(CLAIMANT), 3, st);
    assert_eq!(r, Err(ErrorCode::ContractNotInitialized));
    assert_eq!(ErrorCode::ContractNotInitialized.class(), ErrorClass::ValidationError);
    let st2 = AssetClaimState {
        claimant_fees: 1_000,
        distributor_fees: 0,
        escrow_tokens: 10_000,
        claimant_tokens: 0,
    };
    let r2 = claim2(&a, &acct(PROGRAM), &acct(CLAIMANT), &acct(12), 3, st2);
    assert_eq!(r2, Err(ErrorCode::ContractNotInitialized));
}

#[test]
fn each_claim_path_rejects_the_others_fee_asset() {
    // The native path on an asset-fee agreement.
    let (asset_a, program) = asset_agreement();
    let st = NativeClaimState {
        claimant_lamports: 1_000,
        distributor_lamports: 0,
        escrow_tokens: 10_000,
        claimant_tokens: 0,
    };
    let r = claim(&asset_a, &program, &acct(CLAIMANT), 3, st);
    assert_eq!(r, Err(ErrorCode::TransactionPairNotSupported));
    assert_eq!(
        ErrorCode::TransactionPairNotSupported.class(),
        ErrorClass::UnsupportedMode
    );
    // The asset path on a native-fee agreement.
    let (native_a, program2) = native_agreement();
    let st2 = AssetClaimState {
        claimant_fees: 1_000,
        distributor_fees: 0,
        escrow_tokens: 10_000,
        claimant_tokens: 0,
    };
    let r2 = claim2(&native_a, &program2, &acct(CLAIMANT), &acct(12), 3, st2);
    assert_eq!(r2, Err(ErrorCode::TransactionPairNotSupported));
}

#[test]
fn the_distributor_cannot_claim_from_itself() {
    let (a, program) = native_agreement();
    let st = NativeClaimState {
        claimant_lamports: 1_000,
        distributor_lamports: 0,
        escrow_tokens: 10_000,
        claimant_tokens: 0,
    };
    let r = claim(&a, &program, &acct(DISTRIBUTOR), 3, st);
    assert_eq!(r, Err(ErrorCode::AccountNotCorrect));
}

#[test]
fn a_claim_under_the_wrong_program_fails_the_custody_recheck() {
    let (a, _) = native_agreement();
    let st = NativeClaimState {
        claimant_lamports: 1_000,
        distributor_lamports: 0,
        escrow_tokens: 10_000,
        claimant_tokens: 0,
    };
    let r = claim(&a, &acct(10), &acct(CLAIMANT), 3, st);
    assert_eq!(r, Err(ErrorCode::AccountNotCorrect));
}

#[test]
fn a_claimant_short_of_the_fee_is_refused() {
    let (a, program) = native_agreement();
    let st = NativeClaimState {
        claimant_lamports: 4,
        distributor_lamports: 0,
        escrow_tokens: 10_000,
        claimant_tokens: 0,
    };
    let r = claim(&a, &program, &acct(CLAIMANT), 3, st);
    assert_eq!(r, Err(ErrorCode::GasFeeNotEnough));
    assert_eq!(ErrorCode::GasFeeNotEnough.class(), ErrorClass::InsufficientFunds);
}

#[test]
fn an_escrow_short_of_tokens_is_refused() {
    let (a, program) = native_agreement();
    let st = NativeClaimState {
        claimant_lamports: 1_000,
        distributor_lamports: 0,
        escrow_tokens: 299,
        claimant_tokens: 0,
    };
    let r = claim(&a, &program, &acct(CLAIMANT), 3, st);
    assert_eq!(r, Err(ErrorCode::TokenAmountNotEnough));
    assert_eq!(ErrorCode::TokenAmountNotEnough.class(), ErrorClass::InsufficientFunds);
}

#[test]
fn claim_scaling_overflow_fails() {
    let program = acct(PROGRAM);
    let mut a = blank();
    let st0 = DepositBalances { distributor_tokens: 0, escrow_tokens: 0 };
    initialize(
        &mut a,
        &program,
        &acct(DISTRIBUTOR),
        &native_mint(),
        &acct(TOKEN_MINT),
        &acct(4),
        &acct(5),
        &acct(6),
        0,
        0,
        FeeMode::FlatPerClaim,
        19,
        st0,
    )
    .unwrap();
    let st = NativeClaimState {
        claimant_lamports: 1_000,
        distributor_lamports: 0,
        escrow_tokens: u64::MAX / 2,
        claimant_tokens: 0,
    };
    let r = claim(&a, &program, &acct(CLAIMANT), 2, st);
    assert_eq!(r, Err(ErrorCode::ArithmeticOverflow));
    assert_eq!(ErrorCode::ArithmeticOverflow.class(), ErrorClass::ArithmeticOverflow);
}

#[test]
fn asset_fee_claim_moves_the_fee_between_fee_accounts() {
    let (a, program) = asset_agreement();
    let st = AssetClaimState {
        claimant_fees: 1_000,
        distributor_fees: 20,
        escrow_tokens: 10_000,
        claimant_tokens: 0,
    };
    let out = claim2(&a, &program, &acct(CLAIMANT), &acct(12), 3, st).unwrap();
    assert_eq!(out.claimant_fees, 995);
    assert_eq!(out.distributor_fees, 25);
    assert_eq!(out.escrow_tokens, 9_700);
    assert_eq!(out.claimant_tokens, 300);
}

#[test]
fn asset_fee_claim_enforces_the_corrected_fee_check() {
    // A claimant whose fee balance does not cover the fee is refused: the
    // sufficiency check compares the balance against the computed fee.
    let (a, program) = asset_agreement();
    let st = AssetClaimState {
        claimant_fees: 4,
        distributor_fees: 0,
        escrow_tokens: 10_000,
        claimant_tokens: 0,
    };
    let r = claim2(&a, &program, &acct(CLAIMANT), &acct(12), 3, st);
    assert_eq!(r, Err(ErrorCode::GasFeeNotEnough));
}

#[test]
fn asset_fee_claim_requires_distinct_fee_accounts() {
    let (a, program) = asset_agreement();
    let st = AssetClaimState {
        claimant_fees: 1_000,
        distributor_fees: 0,
        escrow_tokens: 10_000,
        claimant_tokens: 0,
    };
    // acct(5) is the distributor's stored fee account.
    let r = claim2(&a, &program, &acct(CLAIMANT), &acct(5), 3, st);
    assert_eq!(r, Err(ErrorCode::AccountNotCorrect));
}

#[test]
fn update_rejects_a_caller_other_than_the_distributor() {
    let (mut a, program) = native_agreement();
    let before = a;
    let st = DepositBalances { distributor_tokens: 0, escrow_tokens: 10_000 };
    let r = update(&mut a, &program, &acct(CLAIMANT), 9, FeeMode::PerUnit, 0, st);
    assert_eq!(r, Err(ErrorCode::AccountNotCorrect));
    assert_eq!(a, before);
}

#[test]
fn update_top_up_moves_scaled_tokens_into_escrow() {
    let (mut a, program) = native_agreement();
    let st = DepositBalances { distributor_tokens: 990_000, escrow_tokens: 10_000 };
    let out = update(&mut a, &program, &acct(DISTRIBUTOR), 5, FeeMode::FlatPerClaim, 7, st).unwrap();
    // 7 display units at 2 decimals.
    assert_eq!(out.distributor_tokens, 989_300);
    assert_eq!(out.escrow_tokens, 10_700);
}

#[test]
fn update_top_up_scaling_overflow_fails() {
    let program = acct(PROGRAM);
    let mut a = blank();
    let st0 = DepositBalances { distributor_tokens: 0, escrow_tokens: 0 };
    initialize(
        &mut a,
        &program,
        &acct(DISTRIBUTOR),
        &native_mint(),
        &acct(TOKEN_MINT),
        &acct(4),
        &acct(5),
        &acct(6),
        0,
        5,
        FeeMode::FlatPerClaim,
        19,
        st0,
    )
    .unwrap();
    let before = a;
    let st = DepositBalances { distributor_tokens: u64::MAX, escrow_tokens: 0 };
    // 2 display units at 19 decimals leave the 64-bit range.
    let r = update(&mut a, &program, &acct(DISTRIBUTOR), 9, FeeMode::PerUnit, 2, st);
    assert_eq!(r, Err(ErrorCode::ArithmeticOverflow));
    assert_eq!(a, before);
}

#[test]
fn a_failed_top_up_leaves_the_fee_policy_unchanged() {
    let (mut a, program) = native_agreement();
    let before = a;
    let st = DepositBalances { distributor_tokens: 100, escrow_tokens: 10_000 };
    let r = update(&mut a, &program, &acct(DISTRIBUTOR), 9, FeeMode::PerUnit, 7, st);
    assert_eq!(r, Err(ErrorCode::TokenAmountNotEnough));
    assert_eq!(a, before);
}

#[test]
fn close_drains_the_whole_escrow_and_deletes_the_agreement() {
    let (a, program) = native_agreement();
    let mut slot = Some(a);
    let st = CloseBalances {
        escrow_tokens: 9_700,
        distributor_tokens: 990_000,
        escrow_account_lamports: 2_039_280,
        registry_lamports: 1_500_000,
        distributor_token_account_lamports: 2_039_280,
        distributor_lamports: 55,
    };
    let out = close(&mut slot, &program, &acct(DISTRIBUTOR), st).unwrap();
    assert_eq!(out.escrow_tokens, 0);
    assert_eq!(out.distributor_tokens, 999_700);
    assert_eq!(out.escrow_account_lamports, 0);
    assert_eq!(out.registry_lamports, 0);
    // The closed escrow account's deposit lands on the distributor's token
    // account, the closure destination — not on the native balance.
    assert_eq!(out.distributor_token_account_lamports, 2_039_280 + 2_039_280);
    // The native balance gains exactly the record's own backing deposit.
    assert_eq!(out.distributor_lamports, 55 + 1_500_000);
    assert_eq!(slot, None);
    // A second close fails: the agreement no longer exists.
    let r = close(&mut slot, &program, &acct(DISTRIBUTOR), out);
    assert_eq!(r, Err(ErrorCode::ContractNotInitialized));
}

#[test]
fn close_rejects_a_caller_other_than_the_distributor() {
    let (a, program) = native_agreement();
    let mut slot = Some(a);
    let st = CloseBalances {
        escrow_tokens: 10_000,
        distributor_tokens: 0,
        escrow_account_lamports: 0,
        registry_lamports: 0,
        distributor_token_account_lamports: 0,
        distributor_lamports: 0,
    };
    let r = close(&mut slot, &program, &acct(CLAIMANT), st);
    assert_eq!(r, Err(ErrorCode::AccountNotCorrect));
    assert_eq!(slot, Some(a));
}

#[test]
fn serialized_claims_never_overdraw_the_escrow() {
    let (a, program) = native_agreement();
    let st0 = NativeClaimState {
        claimant_lamports: 1_000,
        distributor_lamports: 0,
        escrow_tokens: 500,
        claimant_tokens: 0,
    };
    // 3 units = 300 base units leaves 200 in escrow.
    let st1 = claim(&a, &program, &acct(CLAIMANT), 3, st0).unwrap();
    assert_eq!(st1.escrow_tokens, 200);
    // A second claim of 2 units (200 base units) drains it to exactly zero.
    let st2 = claim(&a, &program, &acct(12), 2, st1).unwrap();
    assert_eq!(st2.escrow_tokens, 0);
    // A third claim — of even one display unit — finds nothing to overdraw.
    let r = claim(&a, &program, &acct(13), 1, st2);
    assert_eq!(r, Err(ErrorCode::TokenAmountNotEnough));
}
