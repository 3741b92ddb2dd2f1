//! Custody and anti-replay settlement engine for pooled assets.
//!
//! A depositor locks value into a custodial vault and records an opaque
//! commitment; later a redeemer presents a one-time nullifier together with a
//! proof verdict, and the vault disburses the value, splitting off a fee.
//! The engine keeps per-pool and global accounting, enforces an
//! active/paused guard on every settlement operation, and guarantees that no
//! nullifier is ever accepted twice.

pub mod bits;
pub mod errors;
pub mod events;
pub mod fee;
pub mod pool;
pub mod registry;
