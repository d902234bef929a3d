//! Resources that every chain state holds.

use vstd::prelude::*;

verus! {

/// Height of the current block.
#[derive(Clone, Copy, Debug, PartialEq, Eq, Structural)]
pub struct BlockMetadata {
    pub height: u64,
}

/// A singleton resource holding the current Unix time in seconds.
#[derive(Clone, Copy, Debug, PartialEq, Eq, Structural)]
pub struct CurrentTimestamp {
    pub seconds: u64,
}

} // verus!
