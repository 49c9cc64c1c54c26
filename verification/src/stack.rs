//! A heterogeneous, statically typed stack built from nested pairs.
//!
//! The empty stack is the marker value [`TypeStack`]; a non-empty stack is a
//! pair `(top, rest)` where `rest` is itself a stack. [`Push`] prepends an
//! element of any type and [`Pop`] removes the most recently pushed one.
//! There is no [`Pop`] implementation whose receiver is [`TypeStack`] alone,
//! so popping an empty stack fails to type-check.

use vstd::prelude::*;

verus! {

/// The empty stack: the only legal starting point, and the value a stack
/// returns to once every element has been popped.
pub struct TypeStack;

/// Removing the most recently pushed element of a non-empty stack.
pub trait Pop<E, R>: Sized {
    /// The element a pop returns: the back-most (most recently pushed) one.
    spec fn pop_elem(self) -> E;

    /// The residual stack a pop leaves: the receiver without its back slot.
    spec fn pop_rest(self) -> R;

    /// Removes the back-most element, returning it with the residual stack.
    fn pop(self) -> (r: (E, R))
        ensures
            r.0 == self.pop_elem(),
            r.1 == self.pop_rest(),
    ;
}

impl<E, R> Pop<E, R> for (E, R) {
    open spec fn pop_elem(self) -> E {
        self.0
    }

    open spec fn pop_rest(self) -> R {
        self.1
    }

    fn pop(self) -> (r: (E, R))
        ensures
            r == self,
    {
        (self.0, self.1)
    }
}

/// Pushing an element of any type onto a stack of any shape.
pub trait Push<E>: Sized {
    /// Wraps `insert` as the new back-most slot on top of the receiver.
    fn push(self, insert: E) -> (r: (E, Self))
        ensures
            r == (insert, self),
    ;
}

impl<E, S> Push<E> for S {
    fn push(self, insert: E) -> (r: (E, S))
        ensures
            r == (insert, self),
    {
        (insert, self)
    }
}

/// Push and pop-back are exact inverses: popping immediately after a push
/// returns the pushed element and the original stack unchanged, for any
/// element type and any prior shape.
pub proof fn lemma_push_pop_inverse<E, S>(s: S, e: E)
    ensures
        (e, s).pop_elem() == e,
        (e, s).pop_rest() == s,
{
}

/// Three pushes followed by repeated pops return the elements in exact
/// reverse push order, ending at the empty marker, whatever the three
/// element types.
pub proof fn lemma_pop_reverse_order<A, B, C>(a: A, b: B, c: C)
    ensures
        ({
            let s3 = (c, (b, (a, TypeStack)));
            &&& s3.pop_elem() == c
            &&& s3.pop_rest().pop_elem() == b
            &&& s3.pop_rest().pop_rest().pop_elem() == a
            &&& s3.pop_rest().pop_rest().pop_rest() == TypeStack
        }),
{
}

} // verus!
