//! The pool registry entry: identity, fee schedule, activation guard,
//! running totals, the custodial vault balance, and the commitment and
//! nullifier ledgers.
//!
//! A pool is either one side of a cross-domain token pair (keyed by its
//! domain pair) or a shielded pool of fixed deposit size. Its vault balance
//! is mutated only by the settlement operations in [`crate::registry`]; no
//! user-facing call path holds the custody capability directly.

use vstd::prelude::*;

use crate::bits::Bits256;
use crate::errors::SettlementError;
use crate::fee::MAX_FEE_BPS;

verus! {

/// What kind of pool this is, together with the kind-specific identity.
#[derive(Clone, Copy, PartialEq, Eq, Structural, Debug)]
pub enum PoolKind {
    /// A cross-domain token pair: value locked here is released on the
    /// target domain and vice versa.
    Bridge { source_chain: u16, target_chain: u16 },
    /// A shielded pool: every deposit must equal the fixed size.
    Mixer { deposit_amount: u64 },
}

/// The content-derived identity a pool is keyed by in the registry.
#[derive(Clone, Copy, PartialEq, Eq, Structural, Debug)]
pub struct PoolId {
    /// The pooled asset.
    pub asset: Bits256,
    /// The kind-specific part of the identity: the domain pair of a token
    /// pair, or the fixed deposit size of a shielded pool.
    pub kind: PoolKind,
}

/// One persistent pool record: registry entry, vault, and ledgers.
pub struct PoolState {
    /// The identity the pool is keyed by; never changes after creation.
    pub id: PoolId,
    /// The administrator allowed to pause and resume this pool.
    pub authority: Bits256,
    /// The fee schedule in basis points; at most [`MAX_FEE_BPS`].
    pub fee_bps: u16,
    /// The activation guard: every settlement operation requires `active`.
    pub active: bool,
    /// Gross value ever locked into the vault; never decreases.
    pub total_locked: u64,
    /// Gross value ever released from the vault; never decreases.
    pub total_released: u64,
    /// The custodial vault balance.
    pub vault: u64,
    /// Every commitment recorded at deposit time, in order; append-only.
    pub commitments: Vec<Bits256>,
    /// Every nullifier consumed by a redemption; a set, never shrinks.
    pub nullifiers: Vec<Bits256>,
}

impl PoolState {
    /// The record's invariant: the fee schedule respects the creation-time
    /// cap and no nullifier is recorded twice.
    pub open spec fn wf(self) -> bool {
        &&& self.fee_bps <= MAX_FEE_BPS
        &&& forall|i: int, j: int|
            0 <= i < j < self.nullifiers@.len() ==> self.nullifiers@[i] != self.nullifiers@[j]
    }

    /// Whether `n` was already consumed by an earlier redemption.
    pub open spec fn has_nullifier(self, n: Bits256) -> bool {
        self.nullifiers@.contains(n)
    }

    /// Whether this pool is a shielded pool of fixed deposit size.
    pub open spec fn is_mixer(self) -> bool {
        self.id.kind is Mixer
    }

    /// The fixed deposit size of a shielded pool.
    pub open spec fn fixed_deposit(self) -> u64
        recommends
            self.is_mixer(),
    {
        self.id.kind->deposit_amount
    }

    /// A record as pool creation leaves it: the given identity,
    /// administrator and fee schedule, active, zero totals, an empty vault
    /// and empty ledgers.
    pub open spec fn is_fresh(self, id: PoolId, authority: Bits256, fee_bps: u16) -> bool {
        &&& self.id == id
        &&& self.authority == authority
        &&& self.fee_bps == fee_bps
        &&& self.active
        &&& self.total_locked == 0
        &&& self.total_released == 0
        &&& self.vault == 0
        &&& self.commitments@.len() == 0
        &&& self.nullifiers@.len() == 0
    }

    /// Membership check against the nullifier ledger.
    pub fn contains_nullifier(&self, n: Bits256) -> (r: bool)
        ensures
            r == self.has_nullifier(n),
    {
        let mut i: usize = 0;
        while i < self.nullifiers.len()
            invariant
                i <= self.nullifiers@.len(),
                forall|j: int| 0 <= j < i ==> self.nullifiers@[j] != n,
            decreases self.nullifiers@.len() - i,
        {
            if self.nullifiers[i] == n {
                return true;
            }
            i = i + 1;
        }
        false
    }

    /// Pauses this pool. Fails with `InactiveState` if it is already paused
    /// (the toggle is deliberately not idempotent) and with `Unauthorized`
    /// if the caller is not the pool's administrator; a failure changes
    /// nothing.
    pub fn pause(&mut self, caller: Bits256) -> (r: Result<(), SettlementError>)
        ensures
            r is Ok <==> old(self).active && caller == old(self).authority,
            r is Ok ==> *final(self) == (PoolState { active: false, ..*old(self) }),
            r is Err ==> *final(self) == *old(self),
            r matches Err(e) ==> e == (if !old(self).active {
                SettlementError::InactiveState
            } else {
                SettlementError::Unauthorized
            }),
    {
        if !self.active {
            return Err(SettlementError::InactiveState);
        }
        if !(caller == self.authority) {
            return Err(SettlementError::Unauthorized);
        }
        self.active = false;
        Ok(())
    }

    /// Resumes this pool. Fails with `InactiveState` if it is already active
    /// and with `Unauthorized` if the caller is not the pool's
    /// administrator; a failure changes nothing.
    pub fn resume(&mut self, caller: Bits256) -> (r: Result<(), SettlementError>)
        ensures
            r is Ok <==> !old(self).active && caller == old(self).authority,
            r is Ok ==> *final(self) == (PoolState { active: true, ..*old(self) }),
            r is Err ==> *final(self) == *old(self),
            r matches Err(e) ==> e == (if old(self).active {
                SettlementError::InactiveState
            } else {
                SettlementError::Unauthorized
            }),
    {
        if self.active {
            return Err(SettlementError::InactiveState);
        }
        if !(caller == self.authority) {
            return Err(SettlementError::Unauthorized);
        }
        self.active = true;
        Ok(())
    }
}

} // verus!
