//! The part of a project's configuration that provisioning reads.

use vstd::prelude::*;

verus! {

/// Project configuration. Of all its options only the symbol is consulted.
#[derive(Clone, Debug, PartialEq, Eq)]
pub struct ConfigData {
    pub symbol: String,
}

} // verus!
