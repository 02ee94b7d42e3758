//! Provider of [`Diff`].

use core::marker::PhantomData;

use vstd::prelude::*;

use crate::combine::Combiner;
use crate::combine::Dup;
use crate::source::Source;

verus! {

/// The full output sequence of a difference tracker: each input item is
/// combined with the raw input item just before it (the seed `prev` standing
/// in before the first), one output per input.
pub open spec fn diff_outputs<X, D, F: Combiner<X, X, D>>(f: F, prev: X, xs: Seq<X>) -> Seq<D>
    decreases xs.len(),
{
    if xs.len() == 0 {
        Seq::empty()
    } else {
        seq![f.rule(xs[0], prev)] + diff_outputs(f, xs[0], xs.drop_first())
    }
}

/// A difference tracker emits one output per input item.
pub proof fn lemma_diff_outputs_len<X, D, F: Combiner<X, X, D>>(f: F, prev: X, xs: Seq<X>)
    ensures
        diff_outputs(f, prev, xs).len() == xs.len(),
    decreases xs.len(),
{
    if xs.len() > 0 {
        lemma_diff_outputs_len(f, xs[0], xs.drop_first());
    }
}

/// Adapter for item difference tracking: keeps the previous raw input item
/// and, on every pull, emits the combination of the current input item with
/// the previous one. A caller-supplied seed stands in for the previous item
/// on the first pull and is never itself emitted.
///
/// This struct is created by the [`diff`](crate::IteratorSimpleScanExt::diff)
/// method on [`IteratorSimpleScanExt`](crate::IteratorSimpleScanExt). See its
/// documentation for more.
pub struct Diff<I: Source, F, D> {
    iter: I,
    prev: I::Item,
    f: F,
    d: PhantomData<D>,
}

impl<I, F, D> Diff<I, F, D> where I: Source {
    /// The wrapped source.
    pub closed spec fn source(&self) -> I {
        self.iter
    }

    /// The raw input item carried as "previous" at this point of the
    /// iteration (the seed before the first pull).
    pub closed spec fn previous(&self) -> I::Item {
        self.prev
    }

    /// The combining function.
    pub closed spec fn combiner(&self) -> F {
        self.f
    }

    /// Creates a difference tracker over `iter` that starts from the seed
    /// `prev` and combines with `f`.
    pub fn new(iter: I, prev: I::Item, f: F) -> (r: Self)
        ensures
            r.source() == iter,
            r.previous() == prev,
            r.combiner() == f,
    {
        Self { iter, prev, f, d: PhantomData }
    }
}

impl<I, F, D> Source for Diff<I, F, D> where
    I: Source,
    I::Item: Dup,
    F: Combiner<I::Item, I::Item, D>,
 {
    type Item = D;

    open spec fn remaining(&self) -> Seq<D> {
        diff_outputs(self.combiner(), self.previous(), self.source().remaining())
    }

    open spec fn hint(&self) -> (usize, Option<usize>) {
        self.source().hint()
    }

    fn next(&mut self) -> (r: Option<D>)
        ensures
            old(self).source().remaining().len() > 0 ==> {
                let x = old(self).source().remaining()[0];
                &&& r == Some(old(self).combiner().rule(x, old(self).previous()))
                &&& final(self).previous() == x
                &&& final(self).source().remaining() == old(self).source().remaining().drop_first()
                &&& final(self).combiner() == old(self).combiner()
            },
    {
        match self.iter.next() {
            None => None,
            Some(curr) => {
                let prev = self.prev.dup();
                let out = self.f.apply(&curr, prev);
                self.prev = curr;
                proof {
                    let xs = old(self).source().remaining();
                    assert(old(self).remaining() == seq![out] + diff_outputs(
                        self.combiner(),
                        xs[0],
                        xs.drop_first(),
                    ));
                    assert(old(self).remaining()[0] == out);
                    assert(self.remaining() =~= old(self).remaining().drop_first());
                }
                Some(out)
            },
        }
    }

    fn size_hint(&self) -> (r: (usize, Option<usize>)) {
        proof {
            lemma_diff_outputs_len(self.combiner(), self.previous(), self.source().remaining());
        }
        self.iter.size_hint()
    }
}

} // verus!
