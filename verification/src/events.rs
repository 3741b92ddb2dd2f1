//! Structured records returned by successful settlement operations.
//!
//! They are what an off-chain relayer or indexer observes: a deposit carries
//! the commitment and the amount but never the hidden secret; a redemption
//! carries the nullifier, the recipient and the fee split but never the
//! proof.

use vstd::prelude::*;

use crate::bits::Bits256;
use crate::pool::PoolId;

verus! {

/// Published when value is locked into a pool's vault.
#[derive(Clone, Copy, PartialEq, Eq, Structural, Debug)]
pub struct DepositEvent {
    /// The identity of the pool the value was locked into.
    pub pool: PoolId,
    /// The opaque commitment recorded for the deposit.
    pub commitment: Bits256,
    /// The gross amount locked.
    pub amount: u64,
    /// The ledger time the caller supplied.
    pub timestamp: i64,
}

/// Published when value is released from a pool's vault.
#[derive(Clone, Copy, PartialEq, Eq, Structural, Debug)]
pub struct RedemptionEvent {
    /// The identity of the pool the value was released from.
    pub pool: PoolId,
    /// The one-time nullifier consumed by this redemption.
    pub nullifier: Bits256,
    /// The account credited with the net amount.
    pub recipient: Bits256,
    /// What the recipient received: the gross amount less the fee.
    pub net: u64,
    /// The fee split off the gross amount.
    pub fee: u64,
    /// The ledger time the caller supplied.
    pub timestamp: i64,
}

} // verus!
