//! Where a freshly created wallet starts scanning the chain.

use vstd::prelude::*;

verus! {

/// Number of blocks a new wallet starts below the chain tip, so that a
/// reorganisation at the tip cannot hide blocks from it.
pub const REWIND_MARGIN: u64 = 100;

/// The height a new wallet is created at when the chain tip is at `tip`:
/// `REWIND_MARGIN` blocks below the tip, and genesis for a shorter chain.
pub open spec fn rewound(tip: u64) -> u64 {
    if tip >= REWIND_MARGIN {
        (tip - REWIND_MARGIN) as u64
    } else {
        0
    }
}

/// Computes the start height for a wallet created while the tip is at `tip`.
pub fn start_height(tip: u64) -> (height: u64)
    ensures
        height == rewound(tip),
{
    if tip >= REWIND_MARGIN {
        tip - REWIND_MARGIN
    } else {
        0
    }
}

} // verus!
