//! The error taxonomy of the settlement engine.
//!
//! Every failing operation aborts with zero partial mutation and reports a
//! specific kind, so that callers can tell a retryable condition (a paused
//! pool) from a terminal one (a replayed nullifier, an invalid proof).

use vstd::prelude::*;

verus! {

/// Why a settlement operation was refused.
#[derive(Clone, Copy, PartialEq, Eq, Structural, Debug)]
pub enum SettlementError {
    /// The caller is not the administrator the operation requires.
    Unauthorized,
    /// The operation needs an active pool but the pool (or the whole
    /// registry) is paused, or an activation toggle targets the state the
    /// pool is already in.
    InactiveState,
    /// A bound or well-formedness check on an input failed: a fee schedule
    /// over the cap, a recipient descriptor of the wrong length, a deposit
    /// that does not match a fixed-size pool, a duplicate pool identity.
    InvalidInput,
    /// A checked addition, subtraction or multiplication on a counter,
    /// balance or fee computation would overflow.
    ArithmeticOverflow,
    /// The proof verifier did not vouch for the redemption.
    InvalidProof,
    /// The presented nullifier was already consumed by an earlier redemption.
    ReplayDetected,
    /// The declared source or target domain does not match the pool's
    /// configured domain pair.
    DomainMismatch,
    /// The debited account does not hold the required amount.
    InsufficientFunds,
}

} // verus!
