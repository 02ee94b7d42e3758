//! Provider of [`IteratorSimpleScanExt`].

use vstd::prelude::*;

use crate::combine::Combiner;
use crate::combine::Dup;
use crate::diff::Diff;
use crate::source::Source;
use crate::trace::Trace;
use crate::trace2::Trace2;

verus! {

/// Extension trait of [`Source`] for simple scan operations.
///
/// Provides simplified scan-style adapters. They are not as flexible as a
/// full scan (iteration cannot be interrupted, the carried value must support
/// [`Dup`], and the output shape is fixed per adapter), but they allow for
/// shorter code in certain cases. Each method is a pure constructor: it
/// evaluates nothing of the source and produces an adapter that is itself a
/// [`Source`], so the operations chain.
pub trait IteratorSimpleScanExt: Source {
    /// Wraps this source in a state tracker: starting from `state`, each
    /// pull combines the next input item with the current state via `f`,
    /// carries the updated state, and emits it.
    ///
    /// The resulting source's remaining items are exactly
    /// [`trace_outputs`](crate::trace_outputs) of `f`, `state` and this
    /// source's remaining items.
    fn trace<St, F>(self, state: St, f: F) -> (r: Trace<Self, St, F>) where
        Self: Sized,
        St: Dup,
        F: Combiner<St, Self::Item, St>,

        ensures
            r.source() == self,
            r.state() == state,
            r.combiner() == f,
    ;

    /// An advanced version of the [`trace`](Self::trace) method: the
    /// resulting source tracks the current state together with the previous
    /// state.
    ///
    /// The emitted items are pairs, with the first element being the state
    /// just before the update of that pull, and the second element being the
    /// updated state; the raw input item is consumed by `f` and not itself
    /// emitted. The remaining items are exactly
    /// [`trace2_outputs`](crate::trace2_outputs) of `f`, `state` and this
    /// source's remaining items.
    fn trace2<St, F>(self, state: St, f: F) -> (r: Trace2<Self, St, F>) where
        Self: Sized,
        Self::Item: Dup,
        St: Dup,
        F: Combiner<St, Self::Item, St>,

        ensures
            r.source() == self,
            r.state() == state,
            r.combiner() == f,
    ;

    /// Wraps this source in a difference tracker: each pull combines the
    /// current input item with the previous input item via `f` and emits the
    /// result.
    ///
    /// `ini` stands in for the previous item on the first pull only; it is
    /// never itself emitted. The remaining items are exactly
    /// [`diff_outputs`](crate::diff_outputs) of `f`, `ini` and this source's
    /// remaining items.
    fn diff<F, D>(self, ini: Self::Item, f: F) -> (r: Diff<Self, F, D>) where
        Self: Sized,
        Self::Item: Dup,
        F: Combiner<Self::Item, Self::Item, D>,

        ensures
            r.source() == self,
            r.previous() == ini,
            r.combiner() == f,
    ;
}

impl<T: Source> IteratorSimpleScanExt for T {
    fn trace<St, F>(self, state: St, f: F) -> (r: Trace<Self, St, F>) where
        St: Dup,
        F: Combiner<St, Self::Item, St>,
     {
        Trace::new(self, state, f)
    }

    fn trace2<St, F>(self, state: St, f: F) -> (r: Trace2<Self, St, F>) where
        Self::Item: Dup,
        St: Dup,
        F: Combiner<St, Self::Item, St>,
     {
        Trace2::new(self, state, f)
    }

    fn diff<F, D>(self, ini: Self::Item, f: F) -> (r: Diff<Self, F, D>) where
        Self::Item: Dup,
        F: Combiner<Self::Item, Self::Item, D>,
     {
        Diff::new(self, ini, f)
    }
}

} // verus!
