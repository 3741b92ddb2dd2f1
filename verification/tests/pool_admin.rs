//! Pool creation, lookup, and the activation guard state machine.

use miya_settlement::bits::Bits256;
use miya_settlement::errors::SettlementError;
use miya_settlement::pool::PoolId;
use miya_settlement::pool::PoolKind;
use miya_settlement::pool::PoolState;
use miya_settlement::registry::Registry;

fn b(x: u64) -> Bits256 {
    Bits256 { w0: x, w1: 0, w2: 0, w3: 0 }
}

fn mixer_pool(active: bool) -> PoolState {
    PoolState {
        id: PoolId { asset: b(2), kind: PoolKind::Mixer { deposit_amount: 100 } },
        authority: b(1),
        fee_bps: 250,
        active,
        total_locked: 0,
        total_released: 0,
        vault: 0,
        commitments: Vec::new(),
        nullifiers: Vec::new(),
    }
}

#[test]
fn create_pool_rejects_high_fee() {
    let admin = b(1);
    let mut reg = Registry::new(admin);
    let r = reg.create_pool(admin, b(2), PoolKind::Mixer { deposit_amount: 100 }, 1001);
    assert_eq!(r, Err(SettlementError::InvalidInput));
    assert_eq!(reg.pools.len(), 0);
}

#[test]
fn create_pool_accepts_fee_at_cap() {
    let admin = b(1);
    let mut reg = Registry::new(admin);
    let r = reg.create_pool(admin, b(2), PoolKind::Mixer { deposit_amount: 100 }, 1000);
    assert_eq!(r, Ok(0));
    assert_eq!(reg.pools.len(), 1);
    assert!(reg.pools[0].active);
    assert_eq!(reg.pools[0].fee_bps, 1000);
    assert_eq!(reg.pools[0].total_locked, 0);
    assert_eq!(reg.pools[0].total_released, 0);
    assert_eq!(reg.pools[0].vault, 0);
    assert_eq!(reg.pools[0].commitments.len(), 0);
    assert_eq!(reg.pools[0].nullifiers.len(), 0);
}

#[test]
fn create_pool_requires_admin() {
    let admin = b(1);
    let mut reg = Registry::new(admin);
    let r = reg.create_pool(b(7), b(2), PoolKind::Mixer { deposit_amount: 100 }, 250);
    assert_eq!(r, Err(SettlementError::Unauthorized));
    assert_eq!(reg.pools.len(), 0);
}

#[test]
fn create_pool_rejects_duplicate_identity() {
    let admin = b(1);
    let mut reg = Registry::new(admin);
    let kind = PoolKind::Mixer { deposit_amount: 100 };
    assert_eq!(reg.create_pool(admin, b(2), kind, 250), Ok(0));
    assert_eq!(reg.create_pool(admin, b(2), kind, 250), Err(SettlementError::InvalidInput));
    // a different deposit size is a different identity
    assert_eq!(reg.create_pool(admin, b(2), PoolKind::Mixer { deposit_amount: 200 }, 250), Ok(1));
}

#[test]
fn find_pool_returns_index() {
    let admin = b(1);
    let mut reg = Registry::new(admin);
    let kind_a = PoolKind::Bridge { source_chain: 1, target_chain: 2 };
    let kind_b = PoolKind::Mixer { deposit_amount: 100 };
    assert_eq!(reg.create_pool(admin, b(2), kind_a, 250), Ok(0));
    assert_eq!(reg.create_pool(admin, b(3), kind_b, 0), Ok(1));
    assert_eq!(reg.find_pool(PoolId { asset: b(3), kind: kind_b }), Some(1));
    assert_eq!(reg.find_pool(PoolId { asset: b(2), kind: kind_a }), Some(0));
    assert_eq!(reg.find_pool(PoolId { asset: b(9), kind: kind_a }), None);
}

#[test]
fn engine_pause_and_resume_toggle() {
    let admin = b(1);
    let mut reg = Registry::new(admin);
    assert!(reg.active);
    // resume while already active fails and changes nothing
    assert_eq!(reg.resume(admin), Err(SettlementError::InactiveState));
    assert!(reg.active);
    assert_eq!(reg.pause(admin), Ok(()));
    assert!(!reg.active);
    // pause while already paused fails and changes nothing
    assert_eq!(reg.pause(admin), Err(SettlementError::InactiveState));
    assert!(!reg.active);
    assert_eq!(reg.resume(admin), Ok(()));
    assert!(reg.active);
}

#[test]
fn engine_pause_requires_authority() {
    let admin = b(1);
    let mut reg = Registry::new(admin);
    assert_eq!(reg.pause(b(9)), Err(SettlementError::Unauthorized));
    assert!(reg.active);
    assert_eq!(reg.pause(admin), Ok(()));
    assert_eq!(reg.resume(b(9)), Err(SettlementError::Unauthorized));
    assert!(!reg.active);
}

#[test]
fn pool_pause_and_resume_toggle() {
    let admin = b(1);
    let mut reg = Registry::new(admin);
    let r = reg.create_pool(admin, b(2), PoolKind::Mixer { deposit_amount: 100 }, 250);
    assert_eq!(r, Ok(0));
    assert_eq!(reg.resume_pool(0, admin), Err(SettlementError::InactiveState));
    assert!(reg.pools[0].active);
    assert_eq!(reg.pause_pool(0, admin), Ok(()));
    assert!(!reg.pools[0].active);
    assert_eq!(reg.pause_pool(0, admin), Err(SettlementError::InactiveState));
    assert!(!reg.pools[0].active);
    assert_eq!(reg.resume_pool(0, admin), Ok(()));
    assert!(reg.pools[0].active);
}

#[test]
fn pool_pause_requires_authority() {
    let admin = b(1);
    let mut reg = Registry::new(admin);
    assert_eq!(reg.create_pool(admin, b(2), PoolKind::Mixer { deposit_amount: 100 }, 250), Ok(0));
    assert_eq!(reg.pause_pool(0, b(9)), Err(SettlementError::Unauthorized));
    assert!(reg.pools[0].active);
}

#[test]
fn standalone_pool_pause_resume() {
    let mut p = mixer_pool(true);
    assert_eq!(p.pause(b(9)), Err(SettlementError::Unauthorized));
    assert!(p.active);
    assert_eq!(p.pause(b(1)), Ok(()));
    assert!(!p.active);
    assert_eq!(p.pause(b(1)), Err(SettlementError::InactiveState));
    assert_eq!(p.resume(b(1)), Ok(()));
    assert!(p.active);
    assert_eq!(p.resume(b(1)), Err(SettlementError::InactiveState));
}

#[test]
fn nullifier_membership_check() {
    let mut p = mixer_pool(true);
    assert!(!p.contains_nullifier(b(5)));
    p.nullifiers.push(b(5));
    assert!(p.contains_nullifier(b(5)));
    assert!(!p.contains_nullifier(b(6)));
}

#[test]
fn bits_equality_is_by_value() {
    assert_eq!(Bits256::from_u64(5), b(5));
    assert_ne!(Bits256::from_u64(5), b(6));
    assert_ne!(b(0), Bits256 { w0: 0, w1: 0, w2: 0, w3: 1 });
}
