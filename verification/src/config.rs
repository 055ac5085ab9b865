//! Runtime configuration of the rotation engine.

use vstd::prelude::*;

verus! {

/// What the engine is started with: the rotation cadence in seconds and the
/// identifiers of the remote collections to draw from.
pub struct Config {
    pub changerate: u64,
    pub collections: Vec<u128>,
}

} // verus!
