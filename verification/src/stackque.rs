//! A heterogeneous, statically typed "stack queue": one structure
//! supporting push to the back and popping from the back or the front.
//!
//! A non-empty sequence is a [`StackQue`] wrapping nested pairs, back-most
//! element outermost; the empty sequence is the marker value [`EmptySQ`].
//! The wrapper's field is private, so the only way to reach a non-empty
//! shape is to chain [`Push::push`] calls starting from [`EmptySQ`]: foreign
//! code cannot hand-assemble an ill-formed sequence. Neither [`Pop`] nor
//! [`PopFront`] is implemented for [`EmptySQ`], so popping an empty
//! sequence fails to type-check.
//!
//! In spec code a `StackQue` is modelled by its view `q@`: the nested pairs
//! it wraps. Every contract below is stated over that view or over the spec
//! functions of the traits ([`Push::pushed`], [`Pop::pop_elem`],
//! [`Pop::pop_rest`], [`PopFront::front`], [`PopFront::remainder`]).

use vstd::prelude::*;

verus! {

/// Wrapper gating construction: only sequences reached from [`EmptySQ`]
/// through [`Push::push`] exist, since the field is private.
pub struct StackQue<T>(T);

/// The empty sequence: the only legal starting point, and the value a
/// sequence returns to once every element has been popped from either end.
pub struct EmptySQ;

impl<T> View for StackQue<T> {
    type V = T;

    /// The nested pairs the sequence wraps, back-most element outermost.
    closed spec fn view(&self) -> T {
        self.0
    }
}

/// Pushing an element of any type onto the back of a sequence. From a
/// queue's point of view, `push` is "push back".
pub trait Push<E, I>: Sized {
    /// The sequence a push produces: the receiver's shape with `insert`
    /// appended as the new back-most slot.
    spec fn pushed(self, insert: E) -> I;

    /// Appends `insert` as the new back-most slot.
    fn push(self, insert: E) -> (r: I)
        ensures
            r == self.pushed(insert),
    ;
}

// Case: push onto the empty sequence.
impl<E> Push<E, StackQue<(E, EmptySQ)>> for EmptySQ {
    closed spec fn pushed(self, insert: E) -> StackQue<(E, EmptySQ)> {
        StackQue((insert, EmptySQ))
    }

    fn push(self, insert: E) -> (r: StackQue<(E, EmptySQ)>)
        ensures
            r@ == (insert, EmptySQ),
    {
        StackQue((insert, EmptySQ))
    }
}

// Case: push onto a non-empty sequence.
impl<E, I> Push<E, StackQue<(E, I)>> for StackQue<I> {
    closed spec fn pushed(self, insert: E) -> StackQue<(E, I)> {
        StackQue((insert, self.0))
    }

    fn push(self, insert: E) -> (r: StackQue<(E, I)>)
        ensures
            r@ == (insert, self@),
    {
        StackQue((insert, self.0))
    }
}

/// Removing the back-most (most recently pushed) element of a non-empty
/// sequence. From a queue's point of view, `pop` is "pop back".
pub trait Pop<E, R>: Sized {
    /// The element a pop returns: the back-most one.
    spec fn pop_elem(self) -> E;

    /// The residual sequence a pop leaves: the receiver without its back
    /// slot.
    spec fn pop_rest(self) -> R;

    /// Removes the back-most element, returning it with the residual
    /// sequence.
    fn pop(self) -> (r: (E, R))
        ensures
            r.0 == self.pop_elem(),
            r.1 == self.pop_rest(),
    ;
}

// Case: pop the last remaining element, leaving the empty marker.
impl<E> Pop<E, EmptySQ> for StackQue<(E, EmptySQ)> {
    closed spec fn pop_elem(self) -> E {
        self.0.0
    }

    closed spec fn pop_rest(self) -> EmptySQ {
        EmptySQ
    }

    fn pop(self) -> (r: (E, EmptySQ))
        ensures
            r.0 == self@.0,
            r.1 == EmptySQ,
    {
        (self.0.0, EmptySQ)
    }
}

// Case: pop one of several elements.
impl<E, E1, R1> Pop<E, StackQue<(E1, R1)>> for StackQue<(E, (E1, R1))> {
    closed spec fn pop_elem(self) -> E {
        self.0.0
    }

    closed spec fn pop_rest(self) -> StackQue<(E1, R1)> {
        StackQue(self.0.1)
    }

    fn pop(self) -> (r: (E, StackQue<(E1, R1)>))
        ensures
            r.0 == self@.0,
            r.1@ == self@.1,
    {
        (self.0.0, StackQue(self.0.1))
    }
}

/// Removing the front-most (earliest pushed) element of a non-empty
/// sequence viewed as a queue.
pub trait PopFront<E, R>: Sized {
    /// The shape left once the front slot has been removed.
    type Popped;

    /// The element a pop returns: the front-most (earliest pushed) one.
    spec fn front(self) -> E;

    /// The residual sequence a pop leaves: the receiver without its front
    /// slot, every other element kept in its original order.
    spec fn remainder(self) -> Self::Popped;

    /// Removes the front-most element, returning it with the residual
    /// sequence.
    fn pop_front(self) -> (r: (E, Self::Popped))
        ensures
            r.0 == self.front(),
            r.1 == self.remainder(),
    ;
}

// Case: pop the last remaining element, leaving the empty marker.
impl<E> PopFront<E, EmptySQ> for StackQue<(E, EmptySQ)> {
    type Popped = EmptySQ;

    closed spec fn front(self) -> E {
        self.0.0
    }

    closed spec fn remainder(self) -> EmptySQ {
        EmptySQ
    }

    fn pop_front(self) -> (r: (E, EmptySQ))
        ensures
            r.0 == self@.0,
            r.1 == EmptySQ,
    {
        (self.0.0, EmptySQ)
    }
}

// Case: pop the front of a sequence of two or more elements, by recursing
// through the wrapped pairs.
impl<E, E1, E2, R, R2> PopFront<E, R> for StackQue<(E1, (E2, R2))> where
    (E1, (E2, R2)): PopFront<E, R>,
 {
    type Popped = StackQue<<(E1, (E2, R2)) as PopFront<E, R>>::Popped>;

    closed spec fn front(self) -> E {
        self.0.front()
    }

    closed spec fn remainder(self) -> StackQue<<(E1, (E2, R2)) as PopFront<E, R>>::Popped> {
        StackQue(self.0.remainder())
    }

    fn pop_front(self) -> (r: (E, Self::Popped))
        ensures
            r.0 == self@.front(),
            r.1@ == self@.remainder(),
    {
        let (e, q) = self.0.pop_front();
        (e, StackQue(q))
    }
}

// Base case over the wrapped pairs: a one-element sequence's sole element
// is both front and back.
impl<E> PopFront<E, EmptySQ> for (E, EmptySQ) {
    type Popped = EmptySQ;

    open spec fn front(self) -> E {
        self.0
    }

    open spec fn remainder(self) -> EmptySQ {
        EmptySQ
    }

    fn pop_front(self) -> (r: (E, EmptySQ))
        ensures
            r.0 == self.0,
            r.1 == EmptySQ,
    {
        (self.0, EmptySQ)
    }
}

// Recursive case over the wrapped pairs: the front sits inside the rest;
// pop it there and reattach the current back-most slot on top of the
// reduced rest.
impl<E, E1, E2, R, R2> PopFront<E, R> for (E1, (E2, R2)) where (E2, R2): PopFront<E, R> {
    type Popped = (E1, <(E2, R2) as PopFront<E, R>>::Popped);

    open spec fn front(self) -> E {
        self.1.front()
    }

    open spec fn remainder(self) -> (E1, <(E2, R2) as PopFront<E, R>>::Popped) {
        (self.0, self.1.remainder())
    }

    fn pop_front(self) -> (r: (E, Self::Popped))
        ensures
            r.0 == self.1.front(),
            r.1 == (self.0, self.1.remainder()),
    {
        let (e, q) = self.1.pop_front();
        (e, (self.0, q))
    }
}

/// Push and pop-back are exact inverses on the empty sequence: popping
/// immediately after pushing onto [`EmptySQ`] returns the pushed element
/// and the empty marker.
pub proof fn lemma_push_pop_inverse_empty<E>(e: E)
    ensures
        EmptySQ.pushed(e).pop_elem() == e,
        EmptySQ.pushed(e).pop_rest() == EmptySQ,
{
}

/// Push and pop-back are exact inverses on every non-empty sequence:
/// popping immediately after a push returns the pushed element and the
/// original sequence unchanged, for any element type and any prior shape.
pub proof fn lemma_push_pop_inverse<E, E1, R1>(q: StackQue<(E1, R1)>, e: E)
    ensures
        q.pushed(e).pop_elem() == e,
        q.pushed(e).pop_rest() == q,
{
}

/// Pushing onto the empty sequence and then popping the front returns the
/// pushed element and the empty marker: the sole element is both front and
/// back.
pub proof fn lemma_push_pop_front_empty<E>(e: E)
    ensures
        EmptySQ.pushed(e).front() == e,
        EmptySQ.pushed(e).remainder() == EmptySQ,
{
}

/// Pushing onto a non-empty sequence does not disturb the front: popping
/// the front afterwards returns the sequence's original front element, and
/// the pushed element stays in the residual sequence's back-most slot.
pub proof fn lemma_push_pop_front_nonempty<E, E1, R1, F, R>(q: StackQue<(E1, R1)>, e: E) where
    (E1, R1): PopFront<F, R>,

    ensures
        q.pushed(e).front() == q@.front(),
        q.pushed(e).remainder()@ == (e, q@.remainder()),
{
}

/// Three pushes followed by repeated pop-backs return the elements in
/// exact reverse push order, ending at the empty marker, whatever the
/// three element types.
pub proof fn lemma_pop_back_reverse_order<A, B, C>(a: A, b: B, c: C)
    ensures
        ({
            let q3 = EmptySQ.pushed(a).pushed(b).pushed(c);
            &&& q3.pop_elem() == c
            &&& q3.pop_rest().pop_elem() == b
            &&& q3.pop_rest().pop_rest().pop_elem() == a
            &&& q3.pop_rest().pop_rest().pop_rest() == EmptySQ
        }),
{
}

/// Three pushes followed by repeated pop-fronts return the elements in
/// exact original push order, ending at the empty marker, whatever the
/// three element types.
pub proof fn lemma_pop_front_push_order<A, B, C>(a: A, b: B, c: C)
    ensures
        ({
            let q3 = EmptySQ.pushed(a).pushed(b).pushed(c);
            &&& q3.front() == a
            &&& q3.remainder().front() == b
            &&& q3.remainder().remainder().front() == c
            &&& q3.remainder().remainder().remainder() == EmptySQ
        }),
{
}

} // verus!
