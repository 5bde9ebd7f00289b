//! Hardware prefetchers.

use vstd::prelude::*;

verus! {

/// Which block a cache fetches ahead of demand.
#[derive(Clone, Copy, Debug, PartialEq, Eq, Structural)]
pub enum PrefetcherKind {
    /// None.
    Null,
    /// The block after the one that was accessed.
    NextLine,
}

impl Default for PrefetcherKind {
    fn default() -> (kind: Self)
        ensures
            kind == PrefetcherKind::Null,
    {
        PrefetcherKind::Null
    }
}

} // verus!
