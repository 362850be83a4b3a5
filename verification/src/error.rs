use vstd::prelude::*;

verus! {

/// The failure taxonomy. Every error an entry point can return falls in
/// exactly one of these classes.
#[derive(Clone, Copy, Debug, PartialEq, Eq, Structural)]
pub enum ErrorClass {
    /// A precondition on the inputs or on the agreement's state was broken:
    /// a zero claim amount, an uninitialized agreement, a double
    /// initialization, or a mismatched account.
    ValidationError,
    /// A balance was too small for the requested fee or token movement.
    InsufficientFunds,
    /// The claim path does not match the agreement's fee-asset type.
    UnsupportedMode,
    /// A decimal scaling or fee multiplication exceeded the 64-bit range.
    ArithmeticOverflow,
}

/// The errors the entry points return.
#[derive(Clone, Copy, Debug, PartialEq, Eq, Structural)]
pub enum ErrorCode {
    /// The escrow (or the depositing distributor) holds fewer base units
    /// than the transfer asks for.
    TokenAmountNotEnough,
    /// A claim exceeded a configured limit.
    ClaimTokenAmountOutOfLimit,
    /// The claimed amount is zero.
    ClaimTokenAmountIsZero,
    /// The claimant's fee balance does not cover the computed fee.
    GasFeeNotEnough,
    /// An account does not match what the agreement stores, or the custody
    /// derivation does not match the stored seed and bump.
    AccountNotCorrect,
    /// The agreement for this seed tuple is already initialized.
    ContractInitialized,
    /// The agreement is not initialized (or no longer exists).
    ContractNotInitialized,
    /// The claim path does not match the agreement's fee asset.
    TransactionPairNotSupported,
    /// A multiplication left the 64-bit range.
    ArithmeticOverflow,
}

/// The class each error belongs to.
pub open spec fn error_class(e: ErrorCode) -> ErrorClass {
    match e {
        ErrorCode::TokenAmountNotEnough => ErrorClass::InsufficientFunds,
        ErrorCode::ClaimTokenAmountOutOfLimit => ErrorClass::ValidationError,
        ErrorCode::ClaimTokenAmountIsZero => ErrorClass::ValidationError,
        ErrorCode::GasFeeNotEnough => ErrorClass::InsufficientFunds,
        ErrorCode::AccountNotCorrect => ErrorClass::ValidationError,
        ErrorCode::ContractInitialized => ErrorClass::ValidationError,
        ErrorCode::ContractNotInitialized => ErrorClass::ValidationError,
        ErrorCode::TransactionPairNotSupported => ErrorClass::UnsupportedMode,
        ErrorCode::ArithmeticOverflow => ErrorClass::ArithmeticOverflow,
    }
}

impl ErrorCode {
    /// The class this error belongs to.
    pub fn class(&self) -> (r: ErrorClass)
        ensures
            r == error_class(*self),
    {
        match self {
            ErrorCode::TokenAmountNotEnough => ErrorClass::InsufficientFunds,
            ErrorCode::ClaimTokenAmountOutOfLimit => ErrorClass::ValidationError,
            ErrorCode::ClaimTokenAmountIsZero => ErrorClass::ValidationError,
            ErrorCode::GasFeeNotEnough => ErrorClass::InsufficientFunds,
            ErrorCode::AccountNotCorrect => ErrorClass::ValidationError,
            ErrorCode::ContractInitialized => ErrorClass::ValidationError,
            ErrorCode::ContractNotInitialized => ErrorClass::ValidationError,
            ErrorCode::TransactionPairNotSupported => ErrorClass::UnsupportedMode,
            ErrorCode::ArithmeticOverflow => ErrorClass::ArithmeticOverflow,
        }
    }
}

} // verus!
