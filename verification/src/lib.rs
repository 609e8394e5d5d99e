//! Deterministic state-transition core of a DAO-governed bounty-board
//! registry.
//!
//! A realm's bounty board tracks contributors (wallet-holding participants),
//! their roles, and applications to bounties.  Records live in a
//! ledger-style store keyed by deterministically derived addresses; the
//! store's atomic allocate-or-fail primitive is the sole uniqueness guard.
//! This crate holds the verified transition logic: role validation against a
//! board's catalog, governance-initiated and self-service contributor
//! registration, and bounty-application creation.

pub mod add_contributor_with_role;
pub mod address;
pub mod apply_to_bounty;
pub mod bytes;
pub mod errors;
pub mod laws;
pub mod role;
pub mod state;
pub mod store;
