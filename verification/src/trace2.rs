//! Provider of [`Trace2`].

use vstd::prelude::*;

use crate::combine::Combiner;
use crate::combine::Dup;
use crate::source::Source;

verus! {

/// The full output sequence of a state-with-history tracker: starting from
/// state `s0`, each input item is combined with the current state, and the
/// pair (state before the update, state after the update) is emitted, one
/// output per input.
pub open spec fn trace2_outputs<St, X, F: Combiner<St, X, St>>(f: F, s0: St, xs: Seq<X>) -> Seq<
    (St, St),
>
    decreases xs.len(),
{
    if xs.len() == 0 {
        Seq::empty()
    } else {
        let y = f.rule(s0, xs[0]);
        seq![(s0, y)] + trace2_outputs(f, y, xs.drop_first())
    }
}

/// A state-with-history tracker emits one output per input item.
pub proof fn lemma_trace2_outputs_len<St, X, F: Combiner<St, X, St>>(f: F, s0: St, xs: Seq<X>)
    ensures
        trace2_outputs(f, s0, xs).len() == xs.len(),
    decreases xs.len(),
{
    if xs.len() > 0 {
        lemma_trace2_outputs_len(f, f.rule(s0, xs[0]), xs.drop_first());
    }
}

/// Adapter for current-state and previous-state tracking: carries a state
/// value and, on every pull, emits the pair of the state just before the
/// update and the updated state.
///
/// This struct is created by the [`trace2`](crate::IteratorSimpleScanExt::trace2)
/// method on [`IteratorSimpleScanExt`](crate::IteratorSimpleScanExt). See its
/// documentation for more.
pub struct Trace2<I, St, F> {
    iter: I,
    state: St,
    f: F,
}

impl<I, St, F> Trace2<I, St, F> {
    /// The wrapped source.
    pub closed spec fn source(&self) -> I {
        self.iter
    }

    /// The state carried at this point of the iteration.
    pub closed spec fn state(&self) -> St {
        self.state
    }

    /// The combining function.
    pub closed spec fn combiner(&self) -> F {
        self.f
    }

    /// Creates a state-with-history tracker over `iter` that starts from
    /// `state` and combines with `f`.
    pub fn new(iter: I, state: St, f: F) -> (r: Self)
        ensures
            r.source() == iter,
            r.state() == state,
            r.combiner() == f,
    {
        Self { iter, state, f }
    }
}

impl<I, St, F> Source for Trace2<I, St, F> where
    I: Source,
    St: Dup,
    F: Combiner<St, I::Item, St>,
 {
    type Item = (St, St);

    open spec fn remaining(&self) -> Seq<(St, St)> {
        trace2_outputs(self.combiner(), self.state(), self.source().remaining())
    }

    open spec fn hint(&self) -> (usize, Option<usize>) {
        self.source().hint()
    }

    fn next(&mut self) -> (r: Option<(St, St)>)
        ensures
            old(self).source().remaining().len() > 0 ==> {
                let y = old(self).combiner().rule(
                    old(self).state(),
                    old(self).source().remaining()[0],
                );
                &&& r == Some((old(self).state(), y))
                &&& final(self).state() == y
                &&& final(self).source().remaining() == old(self).source().remaining().drop_first()
                &&& final(self).combiner() == old(self).combiner()
            },
    {
        let prev = self.state.dup();
        match self.iter.next() {
            None => None,
            Some(x) => {
                let y = self.f.apply(&self.state, x);
                self.state = y.dup();
                proof {
                    let xs = old(self).source().remaining();
                    assert(old(self).remaining() == seq![(prev, y)] + trace2_outputs(
                        self.combiner(),
                        y,
                        xs.drop_first(),
                    ));
                    assert(old(self).remaining()[0] == (prev, y));
                    assert(self.remaining() =~= old(self).remaining().drop_first());
                }
                Some((prev, y))
            },
        }
    }

    fn size_hint(&self) -> (r: (usize, Option<usize>)) {
        proof {
            lemma_trace2_outputs_len(self.combiner(), self.state(), self.source().remaining());
        }
        self.iter.size_hint()
    }
}

} // verus!
