//! Deployment: what is created on the ledger, and in which order.

use vstd::prelude::*;

pub mod collection;
pub mod ordering;

verus! {

/// What the caller chose for this deployment.
#[derive(Clone, Copy, Debug, PartialEq, Eq)]
pub struct DeployArgs {
    /// Price of a compute unit, in millionths of the ledger's smallest
    /// currency unit. It affects how soon the batch is processed, not what
    /// it does.
    pub priority_fee: u64,
}

} // verus!
