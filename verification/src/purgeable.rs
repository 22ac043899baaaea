//! The purgeable sequence abstraction the stage chain is built on.

use vstd::prelude::*;

verus! {

/// A pull-based, resettable producer of values.
///
/// `next` produces the next element or signals that none can be produced right
/// now. Unlike a conventional lazy sequence, an empty result does **not** mean
/// permanent exhaustion: it means insufficient upstream data is currently
/// available, and the caller is expected to pull again after more raw input
/// has been supplied. The sequence is unbounded and polled for the lifetime of
/// the process.
///
/// `purge` discards all buffered and partial internal state — a half-drained
/// batch, a half-reassembled channel — and leaves the stage as if freshly
/// constructed, except that its own upstream is purged by the same cascade, so
/// only in-flight state is lost, never wiring.
///
/// Each implementor fixes what its two operations do through the three spec
/// functions; the executable methods are bound to them here, so a caller that
/// only knows the trait still reasons against the implementor's exact
/// contract.
pub trait PurgeableIterator: Sized {
    /// The element type the stage produces.
    type Item;

    /// When a pull is allowed to run.
    spec fn next_req(pre: Self) -> bool;

    /// How one pull relates the stage's old state, its new state, and the
    /// produced element (or the "not ready" signal).
    spec fn next_ens(pre: Self, post: Self, r: Option<Self::Item>) -> bool;

    /// How a purge relates the stage's old state to its new state.
    spec fn purge_ens(pre: Self, post: Self) -> bool;

    /// Produce the next element, or report that none is ready yet.
    fn next(&mut self) -> (r: Option<Self::Item>)
        requires
            Self::next_req(*old(self)),
        ensures
            Self::next_ens(*old(self), *final(self), r),
    ;

    /// Discard all buffered and partial internal state, cascading the purge
    /// into the upstream this stage draws from.
    fn purge(&mut self)
        ensures
            Self::purge_ens(*old(self), *final(self)),
    ;
}

} // verus!
