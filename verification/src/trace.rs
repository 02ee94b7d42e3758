//! Provider of [`Trace`].

use vstd::prelude::*;

use crate::combine::Combiner;
use crate::combine::Dup;
use crate::source::Source;

verus! {

/// The full output sequence of a state tracker: starting from state `s0`,
/// each input item is combined with the current state and the updated state
/// is emitted, one output per input.
pub open spec fn trace_outputs<St, X, F: Combiner<St, X, St>>(f: F, s0: St, xs: Seq<X>) -> Seq<St>
    decreases xs.len(),
{
    if xs.len() == 0 {
        Seq::empty()
    } else {
        let y = f.rule(s0, xs[0]);
        seq![y] + trace_outputs(f, y, xs.drop_first())
    }
}

/// A state tracker emits one output per input item.
pub proof fn lemma_trace_outputs_len<St, X, F: Combiner<St, X, St>>(f: F, s0: St, xs: Seq<X>)
    ensures
        trace_outputs(f, s0, xs).len() == xs.len(),
    decreases xs.len(),
{
    if xs.len() > 0 {
        lemma_trace_outputs_len(f, f.rule(s0, xs[0]), xs.drop_first());
    }
}

/// Adapter for state tracking: carries a state value and emits the updated
/// state on every pull.
///
/// This struct is created by the [`trace`](crate::IteratorSimpleScanExt::trace)
/// method on [`IteratorSimpleScanExt`](crate::IteratorSimpleScanExt). See its
/// documentation for more.
pub struct Trace<I, St, F> {
    iter: I,
    state: St,
    f: F,
}

impl<I, St, F> Trace<I, St, F> {
    /// The wrapped source.
    pub closed spec fn source(&self) -> I {
        self.iter
    }

    /// The state carried at this point of the iteration.
    pub closed spec fn state(&self) -> St {
        self.state
    }

    /// The combining function.
    pub closed spec fn combiner(&self) -> F {
        self.f
    }

    /// Creates a state tracker over `iter` that starts from `state` and
    /// combines with `f`.
    pub fn new(iter: I, state: St, f: F) -> (r: Self)
        ensures
            r.source() == iter,
            r.state() == state,
            r.combiner() == f,
    {
        Self { iter, state, f }
    }
}

impl<I, St, F> Source for Trace<I, St, F> where
    I: Source,
    St: Dup,
    F: Combiner<St, I::Item, St>,
 {
    type Item = St;

    open spec fn remaining(&self) -> Seq<St> {
        trace_outputs(self.combiner(), self.state(), self.source().remaining())
    }

    open spec fn hint(&self) -> (usize, Option<usize>) {
        self.source().hint()
    }

    fn next(&mut self) -> (r: Option<St>)
        ensures
            old(self).source().remaining().len() > 0 ==> {
                let y = old(self).combiner().rule(
                    old(self).state(),
                    old(self).source().remaining()[0],
                );
                &&& r == Some(y)
                &&& final(self).state() == y
                &&& final(self).source().remaining() == old(self).source().remaining().drop_first()
                &&& final(self).combiner() == old(self).combiner()
            },
    {
        match self.iter.next() {
            None => None,
            Some(x) => {
                let y = self.f.apply(&self.state, x);
                self.state = y.dup();
                proof {
                    let xs = old(self).source().remaining();
                    assert(old(self).remaining() == seq![y] + trace_outputs(
                        self.combiner(),
                        y,
                        xs.drop_first(),
                    ));
                    assert(old(self).remaining()[0] == y);
                    assert(self.remaining() =~= old(self).remaining().drop_first());
                }
                Some(y)
            },
        }
    }

    fn size_hint(&self) -> (r: (usize, Option<usize>)) {
        proof {
            lemma_trace_outputs_len(self.combiner(), self.state(), self.source().remaining());
        }
        self.iter.size_hint()
    }
}

} // verus!
