//! The laws the adapter family obeys, stated over the ghost models and
//! proved once and for all.

use vstd::prelude::*;

use crate::combine::Combiner;
use crate::combine::Dup;
use crate::diff::diff_outputs;
use crate::diff::Diff;
use crate::source::Source;
use crate::trace::trace_outputs;
use crate::trace::Trace;
use crate::trace2::trace2_outputs;
use crate::trace2::Trace2;

verus! {

/// The classic left fold: the state reached after combining every item of
/// `xs`, in order, into `s0`.
pub open spec fn fold_state<St, X, F: Combiner<St, X, St>>(f: F, s0: St, xs: Seq<X>) -> St
    decreases xs.len(),
{
    if xs.len() == 0 {
        s0
    } else {
        fold_state(f, f.rule(s0, xs[0]), xs.drop_first())
    }
}

/// A state tracker is the accumulate-and-emit-every-step fold: its `k`-th
/// output equals the left fold of the first `k + 1` input items into the
/// initial state.
pub proof fn lemma_trace_is_running_fold<St, X, F: Combiner<St, X, St>>(
    f: F,
    s0: St,
    xs: Seq<X>,
    k: int,
)
    requires
        0 <= k < xs.len(),
    ensures
        trace_outputs(f, s0, xs)[k] == fold_state(f, s0, xs.take(k + 1)),
    decreases k,
{
    let y = f.rule(s0, xs[0]);
    crate::trace::lemma_trace_outputs_len(f, y, xs.drop_first());
    assert(trace_outputs(f, s0, xs) == seq![y] + trace_outputs(f, y, xs.drop_first()));
    assert(xs.take(k + 1)[0] == xs[0]);
    assert(fold_state(f, s0, xs.take(k + 1)) == fold_state(f, y, xs.take(k + 1).drop_first()));
    if k == 0 {
        assert(trace_outputs(f, s0, xs)[0] == y);
        assert(xs.take(1).drop_first() =~= Seq::<X>::empty());
    } else {
        lemma_trace_is_running_fold(f, y, xs.drop_first(), k - 1);
        assert(trace_outputs(f, s0, xs)[k] == trace_outputs(f, y, xs.drop_first())[k - 1]);
        assert(xs.take(k + 1).drop_first() =~= xs.drop_first().take(k));
    }
}

/// A state-with-history tracker is two staggered state trackers: the second
/// component of its `k`-th pair is the state tracker's `k`-th output, and the
/// first component is the state tracker's previous output (the initial state
/// when there is none).
pub proof fn lemma_trace2_staggers_trace<St, X, F: Combiner<St, X, St>>(
    f: F,
    s0: St,
    xs: Seq<X>,
    k: int,
)
    requires
        0 <= k < xs.len(),
    ensures
        trace2_outputs(f, s0, xs)[k].1 == trace_outputs(f, s0, xs)[k],
        k == 0 ==> trace2_outputs(f, s0, xs)[k].0 == s0,
        k > 0 ==> trace2_outputs(f, s0, xs)[k].0 == trace_outputs(f, s0, xs)[k - 1],
    decreases k,
{
    let y = f.rule(s0, xs[0]);
    crate::trace::lemma_trace_outputs_len(f, y, xs.drop_first());
    crate::trace2::lemma_trace2_outputs_len(f, y, xs.drop_first());
    assert(trace_outputs(f, s0, xs) == seq![y] + trace_outputs(f, y, xs.drop_first()));
    assert(trace2_outputs(f, s0, xs) == seq![(s0, y)] + trace2_outputs(f, y, xs.drop_first()));
    if k > 0 {
        lemma_trace2_staggers_trace(f, y, xs.drop_first(), k - 1);
        assert(trace2_outputs(f, s0, xs)[k] == trace2_outputs(f, y, xs.drop_first())[k - 1]);
        assert(trace_outputs(f, s0, xs)[k] == trace_outputs(f, y, xs.drop_first())[k - 1]);
        assert(trace_outputs(f, s0, xs)[0] == y);
        if k > 1 {
            assert(trace_outputs(f, s0, xs)[k - 1] == trace_outputs(f, y, xs.drop_first())[k - 2]);
        }
    }
}

/// A difference tracker combines each input item with the raw input item
/// just before it: its `k`-th output is the combination of the `k`-th and
/// `(k - 1)`-th input items, with the seed standing in before the first.
pub proof fn lemma_diff_combines_adjacent<X, D, F: Combiner<X, X, D>>(
    f: F,
    v0: X,
    xs: Seq<X>,
    k: int,
)
    requires
        0 <= k < xs.len(),
    ensures
        k == 0 ==> diff_outputs(f, v0, xs)[k] == f.rule(xs[0], v0),
        k > 0 ==> diff_outputs(f, v0, xs)[k] == f.rule(xs[k], xs[k - 1]),
    decreases k,
{
    crate::diff::lemma_diff_outputs_len(f, xs[0], xs.drop_first());
    assert(diff_outputs(f, v0, xs) == seq![f.rule(xs[0], v0)] + diff_outputs(
        f,
        xs[0],
        xs.drop_first(),
    ));
    if k > 0 {
        lemma_diff_combines_adjacent(f, xs[0], xs.drop_first(), k - 1);
        assert(diff_outputs(f, v0, xs)[k] == diff_outputs(f, xs[0], xs.drop_first())[k - 1]);
        assert(xs.drop_first()[k - 1] == xs[k]);
        if k > 1 {
            assert(xs.drop_first()[k - 2] == xs[k - 1]);
        }
    }
}

/// A state tracker propagates its source faithfully: its cardinality hint is
/// the source's hint unchanged, and when the source is exhausted the tracker
/// is too, so its first pull already signals exhaustion.
pub proof fn lemma_trace_propagation<I, St, F>(t: Trace<I, St, F>) where
    I: Source,
    St: Dup,
    F: Combiner<St, I::Item, St>,

    ensures
        t.hint() == t.source().hint(),
        t.source().remaining().len() == 0 ==> t.remaining().len() == 0,
{
}

/// A state-with-history tracker propagates its source faithfully: its
/// cardinality hint is the source's hint unchanged, and when the source is
/// exhausted the tracker is too, so its first pull already signals
/// exhaustion.
pub proof fn lemma_trace2_propagation<I, St, F>(t: Trace2<I, St, F>) where
    I: Source,
    St: Dup,
    F: Combiner<St, I::Item, St>,

    ensures
        t.hint() == t.source().hint(),
        t.source().remaining().len() == 0 ==> t.remaining().len() == 0,
{
}

/// A difference tracker propagates its source faithfully: its cardinality
/// hint is the source's hint unchanged, and when the source is exhausted the
/// tracker is too, so its first pull already signals exhaustion.
pub proof fn lemma_diff_propagation<I, F, D>(t: Diff<I, F, D>) where
    I: Source,
    I::Item: Dup,
    F: Combiner<I::Item, I::Item, D>,

    ensures
        t.hint() == t.source().hint(),
        t.source().remaining().len() == 0 ==> t.remaining().len() == 0,
{
}

} // verus!
