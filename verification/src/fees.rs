use vstd::prelude::*;

verus! {

use crate::error::ErrorCode;

/// The two mutually exclusive fee policies of an agreement.
#[derive(Clone, Copy, Debug, PartialEq, Eq, Structural)]
pub enum FeeMode {
    /// A fixed fee per claim, whatever the claimed amount.
    FlatPerClaim,
    /// A fee proportional to the claimed amount: `amount * feeAmount`.
    PerUnit,
}

/// The byte that encodes `FlatPerClaim` on the wire.
pub const FLAT_PER_CLAIM_BYTE: u8 = 1;

/// The byte that encodes `PerUnit` on the wire.
pub const PER_UNIT_BYTE: u8 = 2;

impl FeeMode {
    /// Decodes a fee mode from its wire byte; anything but the two legal
    /// values is rejected.
    pub fn from_byte(b: u8) -> (r: Option<FeeMode>)
        ensures
            b == FLAT_PER_CLAIM_BYTE ==> r == Some(FeeMode::FlatPerClaim),
            b == PER_UNIT_BYTE ==> r == Some(FeeMode::PerUnit),
            b != FLAT_PER_CLAIM_BYTE && b != PER_UNIT_BYTE ==> r is None,
    {
        if b == FLAT_PER_CLAIM_BYTE {
            Some(FeeMode::FlatPerClaim)
        } else if b == PER_UNIT_BYTE {
            Some(FeeMode::PerUnit)
        } else {
            None
        }
    }

    /// The wire byte of this fee mode.
    pub fn to_byte(&self) -> (r: u8)
        ensures
            *self is FlatPerClaim ==> r == FLAT_PER_CLAIM_BYTE,
            *self is PerUnit ==> r == PER_UNIT_BYTE,
    {
        match self {
            FeeMode::FlatPerClaim => FLAT_PER_CLAIM_BYTE,
            FeeMode::PerUnit => PER_UNIT_BYTE,
        }
    }
}

/// `10^e` as a mathematical integer.
pub open spec fn pow10(e: nat) -> nat
    decreases e,
{
    if e == 0 {
        1
    } else {
        10 * pow10((e - 1) as nat)
    }
}

/// `pow10` grows with its exponent.
pub proof fn lemma_pow10_increases(a: nat, b: nat)
    requires
        a <= b,
    ensures
        pow10(a) <= pow10(b),
    decreases b,
{
    if a < b {
        lemma_pow10_increases(a, (b - 1) as nat);
        assert(pow10(b) == 10 * pow10((b - 1) as nat));
    }
}

/// `10^e` as a `u64`, or `None` where it exceeds `u64::MAX`.
pub fn pow10_checked(e: u8) -> (r: Option<u64>)
    ensures
        match r {
            Some(v) => v == pow10(e as nat),
            None => pow10(e as nat) > u64::MAX,
        },
{
    let mut acc: u64 = 1;
    let mut i: u8 = 0;
    while i < e
        invariant
            i <= e,
            acc == pow10(i as nat),
        decreases e - i,
    {
        if acc > u64::MAX / 10 {
            proof {
                assert(10 * acc > u64::MAX);
                lemma_pow10_increases((i + 1) as nat, e as nat);
            }
            return None;
        }
        acc = acc * 10;
        i = i + 1;
    }
    Some(acc)
}

/// The claimed amount scaled to base units: `amount * 10^decimals` as a
/// mathematical integer.
pub open spec fn scaled_amount(amount: u64, decimals: u8) -> int {
    amount * pow10(decimals as nat)
}

/// Scales a display-unit amount to base units, `amount * 10^decimals`.
/// The multiplication never wraps: where the product leaves the 64-bit
/// range the call fails with `ArithmeticOverflow` instead.
pub fn scale_to_base(amount: u64, decimals: u8) -> (r: Result<u64, ErrorCode>)
    ensures
        scaled_amount(amount, decimals) <= u64::MAX ==> r == Ok::<u64, ErrorCode>(
            scaled_amount(amount, decimals) as u64,
        ),
        scaled_amount(amount, decimals) > u64::MAX ==> r == Err::<u64, ErrorCode>(
            ErrorCode::ArithmeticOverflow,
        ),
{
    if amount == 0 {
        return Ok(0);
    }
    match pow10_checked(decimals) {
        None => {
            proof {
                assert(amount * pow10(decimals as nat) >= 1 * pow10(decimals as nat))
                    by (nonlinear_arith)
                    requires
                        amount >= 1,
                ;
            }
            Err(ErrorCode::ArithmeticOverflow)
        },
        Some(p) => match amount.checked_mul(p) {
            None => Err(ErrorCode::ArithmeticOverflow),
            Some(v) => Ok(v),
        },
    }
}

/// The fee owed for a claim, as a mathematical integer: the stored
/// `fee_amount` under `FlatPerClaim`, `amount * fee_amount` under `PerUnit`.
pub open spec fn fee_owed(mode: FeeMode, fee_amount: u64, amount: u64) -> int {
    match mode {
        FeeMode::FlatPerClaim => fee_amount as int,
        FeeMode::PerUnit => amount * fee_amount,
    }
}

/// Computes the fee for a claim of `amount` display units under the given
/// policy, with exact integer arithmetic: where `amount * fee_amount`
/// leaves the 64-bit range the call fails with `ArithmeticOverflow`.
pub fn compute_fee(mode: FeeMode, fee_amount: u64, amount: u64) -> (r: Result<u64, ErrorCode>)
    ensures
        fee_owed(mode, fee_amount, amount) <= u64::MAX ==> r == Ok::<u64, ErrorCode>(
            fee_owed(mode, fee_amount, amount) as u64,
        ),
        fee_owed(mode, fee_amount, amount) > u64::MAX ==> r == Err::<u64, ErrorCode>(
            ErrorCode::ArithmeticOverflow,
        ),
{
    match mode {
        FeeMode::FlatPerClaim => Ok(fee_amount),
        FeeMode::PerUnit => match amount.checked_mul(fee_amount) {
            None => Err(ErrorCode::ArithmeticOverflow),
            Some(v) => Ok(v),
        },
    }
}

} // verus!
