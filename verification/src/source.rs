//! The pull-based sequence capability that every adapter wraps, and a
//! concrete integer-range source.

use vstd::prelude::*;

verus! {

/// A lazy sequence: items are produced one at a time by [`Source::next`],
/// and the end of the sequence is signalled by `None`.
///
/// The items still to be produced are modelled by the ghost sequence
/// [`Source::remaining`]; each successful pull yields exactly its first
/// element and drops it from the model. [`Source::hint`] is the reported
/// cardinality hint: a lower bound and an optional upper bound on the number
/// of items still to come.
pub trait Source: Sized {
    /// The type of the items this source produces.
    type Item;

    /// The items this source has yet to produce, in order.
    spec fn remaining(&self) -> Seq<Self::Item>;

    /// The cardinality hint this source reports: a lower bound and an
    /// optional upper bound on `remaining().len()`.
    spec fn hint(&self) -> (usize, Option<usize>);

    /// Produces the next item, or `None` once the sequence is exhausted.
    /// An exhausted pull changes nothing, so re-polling signals exhaustion
    /// again.
    fn next(&mut self) -> (r: Option<Self::Item>)
        ensures
            old(self).remaining().len() == 0 ==> r is None && *final(self) == *old(self),
            old(self).remaining().len() > 0 ==> r == Some(old(self).remaining()[0])
                && final(self).remaining() == old(self).remaining().drop_first(),
    ;

    /// Reports the source's cardinality hint. The hint must be honest:
    /// the lower bound never exceeds the number of items left, and an upper
    /// bound is never below it.
    fn size_hint(&self) -> (r: (usize, Option<usize>))
        ensures
            r == self.hint(),
            r.0 <= self.remaining().len(),
            r.1 matches Some(u) ==> self.remaining().len() <= u,
    ;
}

/// A finite source that counts from a lower bound (inclusive) up to an upper
/// bound (exclusive), one integer per pull.
pub struct IntRange {
    /// The next integer to produce.
    pub cur: i32,
    /// The exclusive upper bound; once `cur` reaches it the source is
    /// exhausted.
    pub end: i32,
}

impl IntRange {
    /// Creates the source that produces `lo`, `lo + 1`, ..., `hi - 1`
    /// (nothing when `lo >= hi`).
    pub fn new(lo: i32, hi: i32) -> (r: IntRange)
        ensures
            r.cur == lo,
            r.end == hi,
    {
        IntRange { cur: lo, end: hi }
    }
}

impl Source for IntRange {
    type Item = i32;

    open spec fn remaining(&self) -> Seq<i32> {
        if self.cur <= self.end {
            Seq::new((self.end - self.cur) as nat, |i: int| (self.cur + i) as i32)
        } else {
            Seq::empty()
        }
    }

    open spec fn hint(&self) -> (usize, Option<usize>) {
        let n = self.remaining().len() as usize;
        (n, Some(n))
    }

    fn next(&mut self) -> (r: Option<i32>) {
        if self.cur < self.end {
            let x = self.cur;
            self.cur = self.cur + 1;
            proof {
                assert(self.remaining() =~= old(self).remaining().drop_first());
            }
            Some(x)
        } else {
            None
        }
    }

    fn size_hint(&self) -> (r: (usize, Option<usize>)) {
        if self.cur < self.end {
            let d: i64 = (self.end as i64) - (self.cur as i64);
            let n: usize = (d as u32) as usize;
            (n, Some(n))
        } else {
            (0, Some(0))
        }
    }
}

} // verus!
