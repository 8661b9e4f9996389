//! Fatal-fault behavior of the node.

use vstd::prelude::*;

verus! {

/// The node's reaction to a fatal fault (a failed analog read, an
/// association-layer error): the fault is final. The handler never asks
/// for a restart — told `false`, the caller parks the node in place for
/// the process lifetime, and only a power cycle recovers it.
pub fn panic() -> (restart: bool)
    ensures
        !restart,
{
    false
}

} // verus!
