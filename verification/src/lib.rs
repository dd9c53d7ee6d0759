//! Address derivation and collection provisioning for a token-metadata
//! program on a program-based ledger.
//!
//! The crate computes program-derived addresses, assembles the ordered
//! instruction batch that creates a collection asset, and decides what a
//! driver has to do next at each point of a provisioning run. It performs no
//! network or file access itself: a driver carries out the requested actions
//! and reports their outcomes.

pub mod address;
pub mod cache;
pub mod config;
pub mod deploy;
pub mod error;
pub mod instruction;
pub mod ledger;
pub mod pdas;
pub mod signer;
