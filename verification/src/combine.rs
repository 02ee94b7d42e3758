//! The combining-function and duplication capabilities the adapters rely on,
//! with concrete integer combiners.

use vstd::prelude::*;

verus! {

/// A value that can be duplicated, with the duplicate equal to the original.
///
/// The adapters carry their state across pulls and also emit it, so the
/// carried type must support duplication whose result is provably the same
/// value. Every `Copy` type qualifies.
pub trait Dup: Sized {
    /// Returns a duplicate of `self`, equal to it.
    fn dup(&self) -> (r: Self)
        ensures
            r == *self,
    ;
}

impl<T: Copy> Dup for T {
    fn dup(&self) -> (r: Self) {
        *self
    }
}

/// A total combining function from a pair `(A, B)` to an output `Out`.
///
/// The mathematical meaning is the spec function [`Combiner::rule`]; the
/// executable [`Combiner::apply`] is pinned to it exactly, so everything an
/// adapter emits is determined by `rule` alone.
pub trait Combiner<A, B, Out> {
    /// What this combiner computes on a pair of arguments.
    spec fn rule(&self, a: A, b: B) -> Out;

    /// Computes [`Combiner::rule`] on the given arguments.
    fn apply(&self, a: &A, b: B) -> (r: Out)
        ensures
            r == self.rule(*a, b),
    ;
}

/// The combiner that adds two integers with wrap-around on overflow.
#[derive(Clone, Copy)]
pub struct WrappingAdd;

impl Combiner<i32, i32, i32> for WrappingAdd {
    open spec fn rule(&self, a: i32, b: i32) -> i32 {
        a.wrapping_add(b)
    }

    fn apply(&self, a: &i32, b: i32) -> (r: i32) {
        (*a).wrapping_add(b)
    }
}

/// The combiner that subtracts its second argument from its first with
/// wrap-around on overflow.
#[derive(Clone, Copy)]
pub struct WrappingSub;

impl Combiner<i32, i32, i32> for WrappingSub {
    open spec fn rule(&self, a: i32, b: i32) -> i32 {
        a.wrapping_sub(b)
    }

    fn apply(&self, a: &i32, b: i32) -> (r: i32) {
        (*a).wrapping_sub(b)
    }
}

} // verus!
