//! Fee settlement arithmetic.
//!
//! The fee taken from a redemption is a pure function of the gross amount and
//! the pool's fee schedule in basis points: `floor(amount * fee_bps / 10000)`.
//! Rounding is always down, so the net and the fee recombine to the gross
//! amount exactly; no value is created or destroyed by the split.

use vstd::prelude::*;

use crate::errors::SettlementError;

verus! {

/// The basis-point scale: 10000 bps represent the whole amount.
pub const BPS_SCALE: u64 = 10000;

/// The largest fee schedule a pool may be created with: 1000 bps, one tenth.
pub const MAX_FEE_BPS: u16 = 1000;

/// The fee owed on a gross `amount` under a schedule of `fee_bps`,
/// rounded down.
pub open spec fn fee_amount(amount: u64, fee_bps: u16) -> int {
    (amount * fee_bps) / (BPS_SCALE as int)
}

/// A gross amount split into the part the recipient receives and the fee.
#[derive(Clone, Copy, PartialEq, Eq, Structural, Debug)]
pub struct FeeSplit {
    /// What the fee or relayer target is owed.
    pub fee: u64,
    /// What the recipient is owed.
    pub net: u64,
}

/// Law: under any schedule within the basis-point scale, the fee owed on an
/// amount lies between zero and the amount itself, so the net part never
/// underflows and net and fee recombine to the amount exactly.
pub proof fn lemma_fee_bounds(amount: u64, fee_bps: u16)
    requires
        fee_bps <= BPS_SCALE,
    ensures
        0 <= fee_amount(amount, fee_bps) <= amount,
        (amount - fee_amount(amount, fee_bps)) + fee_amount(amount, fee_bps) == amount,
{
    assert(0 <= (amount * fee_bps) / (BPS_SCALE as int) <= amount) by (nonlinear_arith)
        requires
            fee_bps <= 10000,
            amount >= 0,
    ;
}

/// Splits `amount` into net and fee under the schedule `fee_bps`.
///
/// Fails with `ArithmeticOverflow` exactly when the intermediate product
/// `amount * fee_bps` does not fit in 64 bits; nothing else can fail.
pub fn split_fee(amount: u64, fee_bps: u16) -> (r: Result<FeeSplit, SettlementError>)
    requires
        fee_bps <= BPS_SCALE,
    ensures
        r is Ok <==> amount * fee_bps <= u64::MAX,
        r matches Ok(s) ==> {
            &&& s.fee == fee_amount(amount, fee_bps)
            &&& s.net == amount - fee_amount(amount, fee_bps)
            &&& s.net + s.fee == amount
        },
        r matches Err(e) ==> e == SettlementError::ArithmeticOverflow,
{
    let gross = match amount.checked_mul(fee_bps as u64) {
        Some(g) => g,
        None => {
            return Err(SettlementError::ArithmeticOverflow);
        },
    };
    let fee = gross / BPS_SCALE;
    proof {
        lemma_fee_bounds(amount, fee_bps);
    }
    let net = amount - fee;
    Ok(FeeSplit { fee, net })
}

} // verus!
