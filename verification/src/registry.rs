//! The settlement engine and the arena of pools it administers.
//!
//! A [`Registry`] owns every pool record, keyed by the pool's content-derived
//! identity, together with an engine-wide activation guard and engine-wide
//! totals for the cross-domain protocol. Its methods are the only code that
//! moves value into or out of a vault or touches a ledger: the custody
//! capability is never handed to a caller.
//!
//! Every operation is all-or-nothing: it performs its checks, in a fixed
//! order, before its first mutation, so a failure of any kind leaves the
//! whole state exactly as it was.

use vstd::prelude::*;

use crate::bits::Bits256;
use crate::errors::SettlementError;
use crate::events::{DepositEvent, RedemptionEvent};
use crate::fee::{fee_amount, split_fee, MAX_FEE_BPS};
use crate::pool::{PoolId, PoolKind, PoolState};

verus! {

/// The external accounts a shielded-pool redemption disburses to: the
/// recipient always, and a relayer only when the redeemer named one.
pub struct WithdrawAccounts {
    /// The recipient's balance; credited with the net amount.
    pub recipient_balance: u64,
    /// The relayer's balance, when a relayer submits the redemption;
    /// credited with the fee.
    pub relayer_balance: Option<u64>,
}

/// The settlement engine: engine-wide guard and totals, and the pool arena.
pub struct Registry {
    /// The administrator allowed to create pools and toggle the engine-wide
    /// guard.
    pub authority: Bits256,
    /// The engine-wide activation guard for cross-domain operations.
    pub active: bool,
    /// Gross value ever locked by cross-domain operations; never decreases.
    pub total_locked: u64,
    /// Gross value ever released by cross-domain operations; never
    /// decreases.
    pub total_released: u64,
    /// Every pool record, keyed by its identity; identities are pairwise
    /// distinct.
    pub pools: Vec<PoolState>,
}

impl Registry {
    /// The engine's invariant: every pool record is well formed and no two
    /// pools share an identity.
    pub open spec fn wf(self) -> bool {
        &&& forall|i: int| 0 <= i < self.pools@.len() ==> self.pools@[i].wf()
        &&& forall|i: int, j: int|
            0 <= i < j < self.pools@.len() ==> self.pools@[i].id != self.pools@[j].id
    }

    /// Whether some pool is keyed by `id`.
    pub open spec fn has_pool(self, id: PoolId) -> bool {
        exists|i: int| 0 <= i < self.pools@.len() && self.pools@[i].id == id
    }

    /// Two engine states that hold exactly the same data.
    pub open spec fn same_state(a: Registry, b: Registry) -> bool {
        &&& b.authority == a.authority
        &&& b.active == a.active
        &&& b.total_locked == a.total_locked
        &&& b.total_released == a.total_released
        &&& b.pools@ == a.pools@
    }

    /// A fresh engine: active, zero totals, no pools.
    pub fn new(authority: Bits256) -> (r: Registry)
        ensures
            r.wf(),
            r.authority == authority,
            r.active,
            r.total_locked == 0,
            r.total_released == 0,
            r.pools@.len() == 0,
    {
        Registry { authority, active: true, total_locked: 0, total_released: 0, pools: Vec::new() }
    }

    /// Pauses the whole engine. Fails with `InactiveState` if it is already
    /// paused (the toggle is deliberately not idempotent) and with
    /// `Unauthorized` if the caller is not the administrator; a failure
    /// changes nothing.
    pub fn pause(&mut self, caller: Bits256) -> (r: Result<(), SettlementError>)
        ensures
            r is Ok <==> old(self).active && caller == old(self).authority,
            r is Ok ==> *final(self) == (Registry { active: false, ..*old(self) }),
            r is Err ==> *final(self) == *old(self),
            r matches Err(e) ==> e == (if !old(self).active {
                SettlementError::InactiveState
            } else {
                SettlementError::Unauthorized
            }),
    {
        if !self.active {
            return Err(SettlementError::InactiveState);
        }
        if !(caller == self.authority) {
            return Err(SettlementError::Unauthorized);
        }
        self.active = false;
        Ok(())
    }

    /// Resumes the whole engine. Fails with `InactiveState` if it is already
    /// active and with `Unauthorized` if the caller is not the
    /// administrator; a failure changes nothing.
    pub fn resume(&mut self, caller: Bits256) -> (r: Result<(), SettlementError>)
        ensures
            r is Ok <==> !old(self).active && caller == old(self).authority,
            r is Ok ==> *final(self) == (Registry { active: true, ..*old(self) }),
            r is Err ==> *final(self) == *old(self),
            r matches Err(e) ==> e == (if old(self).active {
                SettlementError::InactiveState
            } else {
                SettlementError::Unauthorized
            }),
    {
        if self.active {
            return Err(SettlementError::InactiveState);
        }
        if !(caller == self.authority) {
            return Err(SettlementError::Unauthorized);
        }
        self.active = true;
        Ok(())
    }

    /// The index of the pool keyed by `id`, if one exists.
    pub fn find_pool(&self, id: PoolId) -> (r: Option<usize>)
        ensures
            r matches Some(i) ==> i < self.pools@.len() && self.pools@[i as int].id == id,
            r is None ==> !self.has_pool(id),
    {
        let mut i: usize = 0;
        while i < self.pools.len()
            invariant
                i <= self.pools@.len(),
                forall|j: int| 0 <= j < i ==> self.pools@[j].id != id,
            decreases self.pools@.len() - i,
        {
            if self.pools[i].id == id {
                return Some(i);
            }
            i = i + 1;
        }
        None
    }

    /// Whether a creation request is accepted: administrator caller, fee
    /// schedule within the cap, and an identity not yet in use.
    pub open spec fn create_accepted(
        self,
        caller: Bits256,
        asset: Bits256,
        kind: PoolKind,
        fee_bps: u16,
    ) -> bool {
        &&& caller == self.authority
        &&& fee_bps <= MAX_FEE_BPS
        &&& !self.has_pool(PoolId { asset, kind })
    }

    /// Which error a refused creation request reports.
    pub open spec fn create_error(
        self,
        caller: Bits256,
        asset: Bits256,
        kind: PoolKind,
        fee_bps: u16,
    ) -> SettlementError {
        if caller != self.authority {
            SettlementError::Unauthorized
        } else {
            SettlementError::InvalidInput
        }
    }

    /// Creates a pool keyed by `(asset, kind)` with the given fee schedule:
    /// active, zero totals, an empty vault and empty ledgers. Administrator
    /// only; rejects a fee schedule over [`MAX_FEE_BPS`] and an identity
    /// already in use, both with `InvalidInput`. Returns the new pool's
    /// index; a failure changes nothing.
    pub fn create_pool(
        &mut self,
        caller: Bits256,
        asset: Bits256,
        kind: PoolKind,
        fee_bps: u16,
    ) -> (r: Result<usize, SettlementError>)
        requires
            old(self).wf(),
        ensures
            final(self).wf(),
            r is Ok <==> old(self).create_accepted(caller, asset, kind, fee_bps),
            r matches Ok(i) ==> {
                &&& i == old(self).pools@.len()
                &&& final(self).pools@.len() == old(self).pools@.len() + 1
                &&& forall|j: int|
                    0 <= j < old(self).pools@.len() ==> final(self).pools@[j] == old(
                        self,
                    ).pools@[j]
                &&& final(self).pools@[i as int].is_fresh(
                    PoolId { asset, kind },
                    caller,
                    fee_bps,
                )
                &&& final(self).authority == old(self).authority
                &&& final(self).active == old(self).active
                &&& final(self).total_locked == old(self).total_locked
                &&& final(self).total_released == old(self).total_released
            },
            r is Err ==> *final(self) == *old(self),
            r matches Err(e) ==> e == old(self).create_error(caller, asset, kind, fee_bps),
    {
        if !(caller == self.authority) {
            return Err(SettlementError::Unauthorized);
        }
        if fee_bps > MAX_FEE_BPS {
            return Err(SettlementError::InvalidInput);
        }
        let id = PoolId { asset, kind };
        if self.find_pool(id).is_some() {
            return Err(SettlementError::InvalidInput);
        }
        let index = self.pools.len();
        let pool = PoolState {
            id,
            authority: caller,
            fee_bps,
            active: true,
            total_locked: 0,
            total_released: 0,
            vault: 0,
            commitments: Vec::new(),
            nullifiers: Vec::new(),
        };
        self.pools.push(pool);
        Ok(index)
    }

    /// Pauses the pool at `pool_index`; the checks and errors are those of
    /// [`PoolState::pause`]. A failure changes nothing.
    pub fn pause_pool(&mut self, pool_index: usize, caller: Bits256) -> (r: Result<
        (),
        SettlementError,
    >)
        requires
            old(self).wf(),
            pool_index < old(self).pools@.len(),
        ensures
            final(self).wf(),
            r is Ok <==> old(self).pools@[pool_index as int].active && caller == old(
                self,
            ).pools@[pool_index as int].authority,
            r is Ok ==> {
                let a = *old(self);
                let b = *final(self);
                &&& b.pools@ == a.pools@.update(
                    pool_index as int,
                    (PoolState { active: false, ..a.pools@[pool_index as int] }),
                )
                &&& b.authority == a.authority
                &&& b.active == a.active
                &&& b.total_locked == a.total_locked
                &&& b.total_released == a.total_released
            },
            r is Err ==> Registry::same_state(*old(self), *final(self)),
            r matches Err(e) ==> e == (if !old(self).pools@[pool_index as int].active {
                SettlementError::InactiveState
            } else {
                SettlementError::Unauthorized
            }),
    {
        let p = &mut self.pools[pool_index];
        let r = p.pause(caller);
        proof {
            if r is Err {
                assert(self.pools@ =~= old(self).pools@);
            }
        }
        r
    }

    /// Resumes the pool at `pool_index`; the checks and errors are those of
    /// [`PoolState::resume`]. A failure changes nothing.
    pub fn resume_pool(&mut self, pool_index: usize, caller: Bits256) -> (r: Result<
        (),
        SettlementError,
    >)
        requires
            old(self).wf(),
            pool_index < old(self).pools@.len(),
        ensures
            final(self).wf(),
            r is Ok <==> !old(self).pools@[pool_index as int].active && caller == old(
                self,
            ).pools@[pool_index as int].authority,
            r is Ok ==> {
                let a = *old(self);
                let b = *final(self);
                &&& b.pools@ == a.pools@.update(
                    pool_index as int,
                    (PoolState { active: true, ..a.pools@[pool_index as int] }),
                )
                &&& b.authority == a.authority
                &&& b.active == a.active
                &&& b.total_locked == a.total_locked
                &&& b.total_released == a.total_released
            },
            r is Err ==> Registry::same_state(*old(self), *final(self)),
            r matches Err(e) ==> e == (if old(self).pools@[pool_index as int].active {
                SettlementError::InactiveState
            } else {
                SettlementError::Unauthorized
            }),
    {
        let p = &mut self.pools[pool_index];
        let r = p.resume(caller);
        proof {
            if r is Err {
                assert(self.pools@ =~= old(self).pools@);
            }
        }
        r
    }

    /// Whether a shielded-pool deposit is accepted: the pool is active and
    /// of fixed deposit size equal to `amount`, the depositor holds the
    /// amount, and no counter overflows.
    pub open spec fn deposit_accepted(self, i: int, amount: u64, user_balance: u64) -> bool {
        let p = self.pools@[i];
        &&& p.active
        &&& p.id.kind matches PoolKind::Mixer { deposit_amount } && amount == deposit_amount
        &&& user_balance >= amount
        &&& p.total_locked + amount <= u64::MAX
        &&& p.vault + amount <= u64::MAX
    }

    /// Which error a refused shielded-pool deposit reports.
    pub open spec fn deposit_error(self, i: int, amount: u64, user_balance: u64) -> SettlementError {
        let p = self.pools@[i];
        if !p.active {
            SettlementError::InactiveState
        } else if !(p.id.kind matches PoolKind::Mixer { deposit_amount } && amount
            == deposit_amount) {
            SettlementError::InvalidInput
        } else if user_balance < amount {
            SettlementError::InsufficientFunds
        } else {
            SettlementError::ArithmeticOverflow
        }
    }

    /// Locks `amount` into a shielded pool: debits the depositor, credits
    /// the vault by exactly `amount`, raises `total_locked` by exactly
    /// `amount`, and appends `commitment` to the commitment ledger. The
    /// amount must equal the pool's fixed deposit size. Every check precedes
    /// every mutation: a failure of any kind changes nothing.
    pub fn deposit(
        &mut self,
        pool_index: usize,
        amount: u64,
        commitment: Bits256,
        user_balance: &mut u64,
        timestamp: i64,
    ) -> (r: Result<DepositEvent, SettlementError>)
        requires
            old(self).wf(),
            pool_index < old(self).pools@.len(),
        ensures
            final(self).wf(),
            r is Ok <==> old(self).deposit_accepted(pool_index as int, amount, *old(user_balance)),
            r matches Ok(ev) ==> {
                let p0 = old(self).pools@[pool_index as int];
                let p1 = final(self).pools@[pool_index as int];
                &&& final(self).pools@ == old(self).pools@.update(pool_index as int, p1)
                &&& p1.id == p0.id
                &&& p1.authority == p0.authority
                &&& p1.fee_bps == p0.fee_bps
                &&& p1.active == p0.active
                &&& p1.total_locked == p0.total_locked + amount
                &&& p1.total_released == p0.total_released
                &&& p1.vault == p0.vault + amount
                &&& p1.commitments@ == p0.commitments@.push(commitment)
                &&& p1.nullifiers@ == p0.nullifiers@
                &&& final(self).authority == old(self).authority
                &&& final(self).active == old(self).active
                &&& final(self).total_locked == old(self).total_locked
                &&& final(self).total_released == old(self).total_released
                &&& *final(user_balance) == *old(user_balance) - amount
                &&& ev == (DepositEvent { pool: p0.id, commitment, amount, timestamp })
            },
            r is Err ==> *final(self) == *old(self) && *final(user_balance) == *old(user_balance),
            r matches Err(e) ==> e == old(self).deposit_error(
                pool_index as int,
                amount,
                *old(user_balance),
            ),
    {
        if !self.pools[pool_index].active {
            return Err(SettlementError::InactiveState);
        }
        let kind_ok = match self.pools[pool_index].id.kind {
            PoolKind::Mixer { deposit_amount } => amount == deposit_amount,
            _ => false,
        };
        if !kind_ok {
            return Err(SettlementError::InvalidInput);
        }
        if *user_balance < amount {
            return Err(SettlementError::InsufficientFunds);
        }
        let new_total = match self.pools[pool_index].total_locked.checked_add(amount) {
            Some(v) => v,
            None => {
                return Err(SettlementError::ArithmeticOverflow);
            },
        };
        let new_vault = match self.pools[pool_index].vault.checked_add(amount) {
            Some(v) => v,
            None => {
                return Err(SettlementError::ArithmeticOverflow);
            },
        };
        let p = &mut self.pools[pool_index];
        p.total_locked = new_total;
        p.vault = new_vault;
        p.commitments.push(commitment);
        let pool_id = p.id;
        *user_balance = *user_balance - amount;
        Ok(DepositEvent { pool: pool_id, commitment, amount, timestamp })
    }

    /// Whether a cross-domain lock is accepted: engine and pool active, the
    /// declared target domain matches the token pair, the recipient
    /// descriptor is 1 to 64 bytes, the depositor holds the amount, and no
    /// counter overflows.
    pub open spec fn lock_accepted(
        self,
        i: int,
        amount: u64,
        target_chain: u16,
        recipient_len: int,
        user_balance: u64,
    ) -> bool {
        let p = self.pools@[i];
        &&& self.active
        &&& p.active
        &&& p.id.kind matches PoolKind::Bridge { target_chain: tc, .. } && tc == target_chain
        &&& 1 <= recipient_len <= 64
        &&& user_balance >= amount
        &&& p.total_locked + amount <= u64::MAX
        &&& self.total_locked + amount <= u64::MAX
        &&& p.vault + amount <= u64::MAX
    }

    /// Which error a refused cross-domain lock reports.
    pub open spec fn lock_error(
        self,
        i: int,
        amount: u64,
        target_chain: u16,
        recipient_len: int,
        user_balance: u64,
    ) -> SettlementError {
        let p = self.pools@[i];
        if !self.active {
            SettlementError::InactiveState
        } else if !p.active {
            SettlementError::InactiveState
        } else if !(p.id.kind matches PoolKind::Bridge { target_chain: tc, .. } && tc
            == target_chain) {
            SettlementError::DomainMismatch
        } else if !(1 <= recipient_len <= 64) {
            SettlementError::InvalidInput
        } else if user_balance < amount {
            SettlementError::InsufficientFunds
        } else {
            SettlementError::ArithmeticOverflow
        }
    }

    /// Locks `amount` into a token pair's vault for transfer to
    /// `target_chain`: debits the depositor, credits the vault by exactly
    /// `amount`, raises the pool's and the engine's `total_locked` by
    /// exactly `amount`, and appends `commitment` to the commitment ledger.
    /// `recipient_address` is the target-domain recipient descriptor, 1 to
    /// 64 bytes. Every check precedes every mutation: a failure of any kind
    /// changes nothing.
    pub fn lock_tokens(
        &mut self,
        pool_index: usize,
        amount: u64,
        target_chain: u16,
        recipient_address: &Vec<u8>,
        commitment: Bits256,
        user_balance: &mut u64,
        timestamp: i64,
    ) -> (r: Result<DepositEvent, SettlementError>)
        requires
            old(self).wf(),
            pool_index < old(self).pools@.len(),
        ensures
            final(self).wf(),
            r is Ok <==> old(self).lock_accepted(
                pool_index as int,
                amount,
                target_chain,
                recipient_address@.len() as int,
                *old(user_balance),
            ),
            r matches Ok(ev) ==> {
                let p0 = old(self).pools@[pool_index as int];
                let p1 = final(self).pools@[pool_index as int];
                &&& final(self).pools@ == old(self).pools@.update(pool_index as int, p1)
                &&& p1.id == p0.id
                &&& p1.authority == p0.authority
                &&& p1.fee_bps == p0.fee_bps
                &&& p1.active == p0.active
                &&& p1.total_locked == p0.total_locked + amount
                &&& p1.total_released == p0.total_released
                &&& p1.vault == p0.vault + amount
                &&& p1.commitments@ == p0.commitments@.push(commitment)
                &&& p1.nullifiers@ == p0.nullifiers@
                &&& final(self).authority == old(self).authority
                &&& final(self).active == old(self).active
                &&& final(self).total_locked == old(self).total_locked + amount
                &&& final(self).total_released == old(self).total_released
                &&& *final(user_balance) == *old(user_balance) - amount
                &&& ev == (DepositEvent { pool: p0.id, commitment, amount, timestamp })
            },
            r is Err ==> *final(self) == *old(self) && *final(user_balance) == *old(user_balance),
            r matches Err(e) ==> e == old(self).lock_error(
                pool_index as int,
                amount,
                target_chain,
                recipient_address@.len() as int,
                *old(user_balance),
            ),
    {
        if !self.active {
            return Err(SettlementError::InactiveState);
        }
        if !self.pools[pool_index].active {
            return Err(SettlementError::InactiveState);
        }
        let kind_ok = match self.pools[pool_index].id.kind {
            PoolKind::Bridge { target_chain: tc, .. } => tc == target_chain,
            _ => false,
        };
        if !kind_ok {
            return Err(SettlementError::DomainMismatch);
        }
        if recipient_address.len() < 1 || recipient_address.len() > 64 {
            return Err(SettlementError::InvalidInput);
        }
        if *user_balance < amount {
            return Err(SettlementError::InsufficientFunds);
        }
        let new_pool_total = match self.pools[pool_index].total_locked.checked_add(amount) {
            Some(v) => v,
            None => {
                return Err(SettlementError::ArithmeticOverflow);
            },
        };
        let new_engine_total = match self.total_locked.checked_add(amount) {
            Some(v) => v,
            None => {
                return Err(SettlementError::ArithmeticOverflow);
            },
        };
        let new_vault = match self.pools[pool_index].vault.checked_add(amount) {
            Some(v) => v,
            None => {
                return Err(SettlementError::ArithmeticOverflow);
            },
        };
        let p = &mut self.pools[pool_index];
        p.total_locked = new_pool_total;
        p.vault = new_vault;
        p.commitments.push(commitment);
        let pool_id = p.id;
        self.total_locked = new_engine_total;
        *user_balance = *user_balance - amount;
        Ok(DepositEvent { pool: pool_id, commitment, amount, timestamp })
    }

    /// Releases value from a shielded pool. The gross amount is the pool's
    /// fixed deposit size; the fee is computed from the pool's own fee
    /// schedule, never from a caller-supplied value. On success the
    /// recipient is credited with the net amount, the relayer (if one was
    /// named) with the fee, the nullifier is recorded, and the pool's
    /// `total_released` rises by the gross amount; when no relayer is named
    /// the fee stays in the vault. The checks run in a fixed order — pool
    /// active, pool kind, nullifier unused, proof verdict, then arithmetic
    /// and funds — and every check precedes every mutation: a failure of
    /// any kind changes nothing.
    ///
    /// `proof_valid` is the proof verifier's verdict for this redemption;
    /// the caller must pass `false` when the verifier is unavailable, which
    /// fails the redemption with `InvalidProof`.
    pub fn withdraw(
        &mut self,
        pool_index: usize,
        proof_valid: bool,
        nullifier: Bits256,
        recipient: Bits256,
        accounts: &mut WithdrawAccounts,
        timestamp: i64,
    ) -> (r: Result<RedemptionEvent, SettlementError>)
        requires
            old(self).wf(),
            pool_index < old(self).pools@.len(),
        ensures
            final(self).wf(),
            r is Ok <==> old(self).withdraw_accepted(
                pool_index as int,
                proof_valid,
                nullifier,
                *old(accounts),
            ),
            old(self).pools@[pool_index as int].has_nullifier(nullifier) ==> r is Err,
            r matches Ok(ev) ==> {
                let p0 = old(self).pools@[pool_index as int];
                let p1 = final(self).pools@[pool_index as int];
                let amount = p0.fixed_deposit();
                let fee = mixer_fee(p0);
                let net = mixer_net(p0);
                &&& final(self).pools@ == old(self).pools@.update(pool_index as int, p1)
                &&& p1.id == p0.id
                &&& p1.authority == p0.authority
                &&& p1.fee_bps == p0.fee_bps
                &&& p1.active == p0.active
                &&& p1.total_locked == p0.total_locked
                &&& p1.total_released == p0.total_released + amount
                &&& p1.vault == p0.vault - mixer_outflow(p0, old(accounts).relayer_balance is Some)
                &&& p1.commitments@ == p0.commitments@
                &&& p1.nullifiers@ == p0.nullifiers@.push(nullifier)
                &&& p1.has_nullifier(nullifier)
                &&& final(self).authority == old(self).authority
                &&& final(self).active == old(self).active
                &&& final(self).total_locked == old(self).total_locked
                &&& final(self).total_released == old(self).total_released
                &&& final(accounts).recipient_balance == old(accounts).recipient_balance + net
                &&& (match old(accounts).relayer_balance {
                    None => final(accounts).relayer_balance is None,
                    Some(b) => final(accounts).relayer_balance == Some((b + fee) as u64),
                })
                &&& net + fee == amount
                &&& fee == fee_amount(amount, p0.fee_bps)
                &&& ev == (RedemptionEvent {
                    pool: p0.id,
                    nullifier,
                    recipient,
                    net: net as u64,
                    fee: fee as u64,
                    timestamp,
                })
            },
            r is Err ==> *final(self) == *old(self) && *final(accounts) == *old(accounts),
            r matches Err(e) ==> e == old(self).withdraw_error(
                pool_index as int,
                proof_valid,
                nullifier,
                *old(accounts),
            ),
    {
        if !self.pools[pool_index].active {
            return Err(SettlementError::InactiveState);
        }
        let amount = match self.pools[pool_index].id.kind {
            PoolKind::Mixer { deposit_amount } => deposit_amount,
            _ => {
                return Err(SettlementError::InvalidInput);
            },
        };
        if self.pools[pool_index].contains_nullifier(nullifier) {
            return Err(SettlementError::ReplayDetected);
        }
        if !proof_valid {
            return Err(SettlementError::InvalidProof);
        }
        let split = match split_fee(amount, self.pools[pool_index].fee_bps) {
            Ok(s) => s,
            Err(e) => {
                return Err(e);
            },
        };
        let pay_relayer = accounts.relayer_balance.is_some();
        let outflow = if pay_relayer {
            amount
        } else {
            split.net
        };
        if self.pools[pool_index].vault < outflow {
            return Err(SettlementError::InsufficientFunds);
        }
        let new_recipient = match accounts.recipient_balance.checked_add(split.net) {
            Some(v) => v,
            None => {
                return Err(SettlementError::ArithmeticOverflow);
            },
        };
        let new_relayer = match accounts.relayer_balance {
            Some(b) => match b.checked_add(split.fee) {
                Some(v) => Some(v),
                None => {
                    return Err(SettlementError::ArithmeticOverflow);
                },
            },
            None => None,
        };
        let new_total = match self.pools[pool_index].total_released.checked_add(amount) {
            Some(v) => v,
            None => {
                return Err(SettlementError::ArithmeticOverflow);
            },
        };
        let new_vault = self.pools[pool_index].vault - outflow;
        let p = &mut self.pools[pool_index];
        p.total_released = new_total;
        p.vault = new_vault;
        p.nullifiers.push(nullifier);
        let pool_id = p.id;
        proof {
            let s0 = old(self).pools@[pool_index as int].nullifiers@;
            assert(s0.push(nullifier)[s0.len() as int] == nullifier);
        }
        accounts.recipient_balance = new_recipient;
        accounts.relayer_balance = new_relayer;
        Ok(
            RedemptionEvent {
                pool: pool_id,
                nullifier,
                recipient,
                net: split.net,
                fee: split.fee,
                timestamp,
            },
        )
    }
}

/// The fee a shielded-pool redemption owes under the pool's own schedule.
pub open spec fn mixer_fee(p: PoolState) -> int {
    fee_amount(p.fixed_deposit(), p.fee_bps)
}

/// The net amount a shielded-pool redemption pays the recipient.
pub open spec fn mixer_net(p: PoolState) -> int {
    p.fixed_deposit() - mixer_fee(p)
}

/// What leaves the vault in a shielded-pool redemption: net plus fee when a
/// relayer collects the fee, net alone when the fee stays in the vault.
pub open spec fn mixer_outflow(p: PoolState, pay_relayer: bool) -> int {
    if pay_relayer {
        p.fixed_deposit() as int
    } else {
        mixer_net(p)
    }
}

impl Registry {
    /// Whether a shielded-pool redemption is accepted: pool active and of
    /// the shielded kind, nullifier never consumed, proof vouched for, and
    /// no arithmetic or funds check fails.
    pub open spec fn withdraw_accepted(
        self,
        i: int,
        proof_valid: bool,
        nullifier: Bits256,
        accounts: WithdrawAccounts,
    ) -> bool {
        let p = self.pools@[i];
        &&& p.active
        &&& p.is_mixer()
        &&& !p.has_nullifier(nullifier)
        &&& proof_valid
        &&& p.fixed_deposit() * p.fee_bps <= u64::MAX
        &&& p.vault >= mixer_outflow(p, accounts.relayer_balance is Some)
        &&& accounts.recipient_balance + mixer_net(p) <= u64::MAX
        &&& (accounts.relayer_balance matches Some(b) ==> b + mixer_fee(p) <= u64::MAX)
        &&& p.total_released + p.fixed_deposit() <= u64::MAX
    }

    /// Which error a refused shielded-pool redemption reports.
    pub open spec fn withdraw_error(
        self,
        i: int,
        proof_valid: bool,
        nullifier: Bits256,
        accounts: WithdrawAccounts,
    ) -> SettlementError {
        let p = self.pools@[i];
        if !p.active {
            SettlementError::InactiveState
        } else if !p.is_mixer() {
            SettlementError::InvalidInput
        } else if p.has_nullifier(nullifier) {
            SettlementError::ReplayDetected
        } else if !proof_valid {
            SettlementError::InvalidProof
        } else if !(p.fixed_deposit() * p.fee_bps <= u64::MAX) {
            SettlementError::ArithmeticOverflow
        } else if !(p.vault >= mixer_outflow(p, accounts.relayer_balance is Some)) {
            SettlementError::InsufficientFunds
        } else if !(accounts.recipient_balance + mixer_net(p) <= u64::MAX) {
            SettlementError::ArithmeticOverflow
        } else if !(accounts.relayer_balance matches Some(b) ==> b + mixer_fee(p) <= u64::MAX) {
            SettlementError::ArithmeticOverflow
        } else {
            SettlementError::ArithmeticOverflow
        }
    }

    /// Whether a cross-domain release is accepted: engine and pool active,
    /// the declared source domain matches the token pair, nullifier never
    /// consumed, proof vouched for, and no arithmetic or funds check fails.
    pub open spec fn release_accepted(
        self,
        i: int,
        amount: u64,
        source_chain: u16,
        proof_valid: bool,
        nullifier: Bits256,
        recipient_balance: u64,
        fee_balance: u64,
    ) -> bool {
        let p = self.pools@[i];
        &&& self.active
        &&& p.active
        &&& p.id.kind matches PoolKind::Bridge { source_chain: sc, .. } && sc == source_chain
        &&& !p.has_nullifier(nullifier)
        &&& proof_valid
        &&& amount * p.fee_bps <= u64::MAX
        &&& p.vault >= amount
        &&& recipient_balance + (amount - fee_amount(amount, p.fee_bps)) <= u64::MAX
        &&& fee_balance + fee_amount(amount, p.fee_bps) <= u64::MAX
        &&& p.total_released + amount <= u64::MAX
        &&& self.total_released + amount <= u64::MAX
    }

    /// Which error a refused cross-domain release reports.
    pub open spec fn release_error(
        self,
        i: int,
        amount: u64,
        source_chain: u16,
        proof_valid: bool,
        nullifier: Bits256,
        recipient_balance: u64,
        fee_balance: u64,
    ) -> SettlementError {
        let p = self.pools@[i];
        if !self.active {
            SettlementError::InactiveState
        } else if !p.active {
            SettlementError::InactiveState
        } else if !(p.id.kind matches PoolKind::Bridge { source_chain: sc, .. } && sc
            == source_chain) {
            SettlementError::DomainMismatch
        } else if p.has_nullifier(nullifier) {
            SettlementError::ReplayDetected
        } else if !proof_valid {
            SettlementError::InvalidProof
        } else if !(amount * p.fee_bps <= u64::MAX) {
            SettlementError::ArithmeticOverflow
        } else if !(p.vault >= amount) {
            SettlementError::InsufficientFunds
        } else {
            SettlementError::ArithmeticOverflow
        }
    }

    /// Releases `amount` from a token pair's vault for a transfer arriving
    /// from `source_chain`. The fee is computed from the pool's own fee
    /// schedule; the recipient is credited with the net amount and the fee
    /// account with the fee, both out of the vault, so the vault falls by
    /// exactly `amount`; the nullifier is recorded and the pool's and the
    /// engine's `total_released` rise by the gross `amount`. The checks run
    /// in a fixed order — guards, domain, nullifier, proof verdict, then
    /// arithmetic and funds — and every check precedes every mutation: a
    /// failure of any kind changes nothing.
    ///
    /// `proof_valid` is the proof verifier's verdict for this redemption;
    /// the caller must pass `false` when the verifier is unavailable, which
    /// fails the redemption with `InvalidProof`.
    pub fn release_tokens(
        &mut self,
        pool_index: usize,
        amount: u64,
        source_chain: u16,
        proof_valid: bool,
        nullifier: Bits256,
        recipient: Bits256,
        recipient_balance: &mut u64,
        fee_balance: &mut u64,
        timestamp: i64,
    ) -> (r: Result<RedemptionEvent, SettlementError>)
        requires
            old(self).wf(),
            pool_index < old(self).pools@.len(),
        ensures
            final(self).wf(),
            r is Ok <==> old(self).release_accepted(
                pool_index as int,
                amount,
                source_chain,
                proof_valid,
                nullifier,
                *old(recipient_balance),
                *old(fee_balance),
            ),
            old(self).pools@[pool_index as int].has_nullifier(nullifier) ==> r is Err,
            r matches Ok(ev) ==> {
                let p0 = old(self).pools@[pool_index as int];
                let p1 = final(self).pools@[pool_index as int];
                let fee = fee_amount(amount, p0.fee_bps);
                let net = amount - fee;
                &&& final(self).pools@ == old(self).pools@.update(pool_index as int, p1)
                &&& p1.id == p0.id
                &&& p1.authority == p0.authority
                &&& p1.fee_bps == p0.fee_bps
                &&& p1.active == p0.active
                &&& p1.total_locked == p0.total_locked
                &&& p1.total_released == p0.total_released + amount
                &&& p1.vault == p0.vault - amount
                &&& p1.commitments@ == p0.commitments@
                &&& p1.nullifiers@ == p0.nullifiers@.push(nullifier)
                &&& p1.has_nullifier(nullifier)
                &&& final(self).authority == old(self).authority
                &&& final(self).active == old(self).active
                &&& final(self).total_locked == old(self).total_locked
                &&& final(self).total_released == old(self).total_released + amount
                &&& *final(recipient_balance) == *old(recipient_balance) + net
                &&& *final(fee_balance) == *old(fee_balance) + fee
                &&& net + fee == amount
                &&& fee == fee_amount(amount, p0.fee_bps)
                &&& ev == (RedemptionEvent {
                    pool: p0.id,
                    nullifier,
                    recipient,
                    net: net as u64,
                    fee: fee as u64,
                    timestamp,
                })
            },
            r is Err ==> *final(self) == *old(self) && *final(recipient_balance) == *old(
                recipient_balance,
            ) && *final(fee_balance) == *old(fee_balance),
            r matches Err(e) ==> e == old(self).release_error(
                pool_index as int,
                amount,
                source_chain,
                proof_valid,
                nullifier,
                *old(recipient_balance),
                *old(fee_balance),
            ),
    {
        if !self.active {
            return Err(SettlementError::InactiveState);
        }
        if !self.pools[pool_index].active {
            return Err(SettlementError::InactiveState);
        }
        let kind_ok = match self.pools[pool_index].id.kind {
            PoolKind::Bridge { source_chain: sc, .. } => sc == source_chain,
            _ => false,
        };
        if !kind_ok {
            return Err(SettlementError::DomainMismatch);
        }
        if self.pools[pool_index].contains_nullifier(nullifier) {
            return Err(SettlementError::ReplayDetected);
        }
        if !proof_valid {
            return Err(SettlementError::InvalidProof);
        }
        let split = match split_fee(amount, self.pools[pool_index].fee_bps) {
            Ok(s) => s,
            Err(e) => {
                return Err(e);
            },
        };
        if self.pools[pool_index].vault < amount {
            return Err(SettlementError::InsufficientFunds);
        }
        let new_recipient = match recipient_balance.checked_add(split.net) {
            Some(v) => v,
            None => {
                return Err(SettlementError::ArithmeticOverflow);
            },
        };
        let new_fee_balance = match fee_balance.checked_add(split.fee) {
            Some(v) => v,
            None => {
                return Err(SettlementError::ArithmeticOverflow);
            },
        };
        let new_pool_total = match self.pools[pool_index].total_released.checked_add(amount) {
            Some(v) => v,
            None => {
                return Err(SettlementError::ArithmeticOverflow);
            },
        };
        let new_engine_total = match self.total_released.checked_add(amount) {
            Some(v) => v,
            None => {
                return Err(SettlementError::ArithmeticOverflow);
            },
        };
        let new_vault = self.pools[pool_index].vault - amount;
        let p = &mut self.pools[pool_index];
        p.total_released = new_pool_total;
        p.vault = new_vault;
        p.nullifiers.push(nullifier);
        let pool_id = p.id;
        proof {
            let s0 = old(self).pools@[pool_index as int].nullifiers@;
            assert(s0.push(nullifier)[s0.len() as int] == nullifier);
        }
        self.total_released = new_engine_total;
        *recipient_balance = new_recipient;
        *fee_balance = new_fee_balance;
        Ok(
            RedemptionEvent {
                pool: pool_id,
                nullifier,
                recipient,
                net: split.net,
                fee: split.fee,
                timestamp,
            },
        )
    }
}

/// Law: once a nullifier is recorded for a pool, no redemption presenting
/// it can be accepted — on either protocol variant, with or without a
/// relayer, whatever the proof verdict, amounts and balances.
pub proof fn lemma_replay_blocked(
    reg: Registry,
    i: int,
    nullifier: Bits256,
    proof_valid: bool,
    amount: u64,
    source_chain: u16,
    accounts: WithdrawAccounts,
    recipient_balance: u64,
    fee_balance: u64,
)
    requires
        0 <= i < reg.pools@.len(),
        reg.pools@[i].has_nullifier(nullifier),
    ensures
        !reg.withdraw_accepted(i, proof_valid, nullifier, accounts),
        !reg.release_accepted(
            i,
            amount,
            source_chain,
            proof_valid,
            nullifier,
            recipient_balance,
            fee_balance,
        ),
{
}

} // verus!
