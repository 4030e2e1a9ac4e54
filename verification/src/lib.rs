//! Authorization and bookkeeping core for a soulbound (non-transferable)
//! token economy: an issuer ("artist") mints tokens to paying buyers, the
//! tokens are permanently non-transferable, and buyers redeem accumulated
//! tokens against a catalog of rewards by having the required quantity
//! burned.
//!
//! This crate is the state-transition and authorization engine alone. The
//! token ledger itself (balance storage, the execution of mints, burns and
//! freezes) is an external collaborator: every operation here takes the
//! ledger facts it needs (balances, account owners) as plain values, decides,
//! and states in its contract exactly how those values and the crate's own
//! records change. The surrounding host performs the actual ledger calls and
//! provides per-record atomicity; each function here mutates nothing unless
//! every one of its checks has passed.

pub mod burn_auth;
pub mod errors;
pub mod identity;
pub mod mint;
pub mod purchase;
pub mod registry;
pub mod rewards;
