//! What a cache does on a store.

use vstd::prelude::*;

verus! {

/// When a store reaches the level below, and whether a store miss brings the
/// block in.
#[derive(Clone, Copy, Debug, PartialEq, Eq, Structural)]
pub enum WritePolicy {
    WriteBackWriteAllocate,
    WriteBackNoWriteAllocate,
    WriteThroughWriteAllocate,
    WriteThroughNoWriteAllocate,
}

impl Default for WritePolicy {
    fn default() -> (policy: Self)
        ensures
            policy == WritePolicy::WriteBackWriteAllocate,
    {
        WritePolicy::WriteBackWriteAllocate
    }
}

} // verus!
