//! A heterogeneous, statically typed queue built from nested pairs.
//!
//! The empty queue is the marker value [`TypeQueue`]; a non-empty queue is a
//! pair `(back, rest)` where `rest` is itself a queue. [`PushBack`] prepends
//! a new back-most element, so the front-most (earliest pushed) element is
//! the innermost one. [`PopFront`] removes it by recursing through every
//! intermediate pair, rebuilding each layer around the reduced rest in the
//! same traversal. There is no [`PopFront`] implementation whose receiver is
//! [`TypeQueue`] alone, so popping an empty queue fails to type-check.

use vstd::prelude::*;

verus! {

/// The empty queue: the only legal starting point, and the value a queue
/// returns to once every element has been popped.
pub struct TypeQueue;

/// Removing the front-most (earliest pushed) element of a non-empty queue.
pub trait PopFront<E, R>: Sized {
    /// The shape left once the front slot has been removed.
    type Popped;

    /// The element a pop returns: the front-most (earliest pushed) one.
    spec fn front(self) -> E;

    /// The residual queue a pop leaves: the receiver without its front
    /// slot, every other element kept in its original order.
    spec fn remainder(self) -> Self::Popped;

    /// Removes the front-most element, returning it with the residual
    /// queue.
    fn pop_front(self) -> (r: (E, Self::Popped))
        ensures
            r.0 == self.front(),
            r.1 == self.remainder(),
    ;
}

// Base case: a one-element queue's sole element is both front and back;
// popping it leaves the empty marker.
impl<E> PopFront<E, TypeQueue> for (E, TypeQueue) {
    type Popped = TypeQueue;

    open spec fn front(self) -> E {
        self.0
    }

    open spec fn remainder(self) -> TypeQueue {
        TypeQueue
    }

    fn pop_front(self) -> (r: (E, TypeQueue))
        ensures
            r.0 == self.0,
            r.1 == TypeQueue,
    {
        (self.0, TypeQueue)
    }
}

// Recursive case: with two or more elements, the front sits inside the
// rest; pop it there and reattach the current back-most slot on top of the
// reduced rest.
impl<E, E1, E2, R, R2> PopFront<E, R> for (E1, (E2, R2)) where (E2, R2): PopFront<E, R> {
    type Popped = (E1, <(E2, R2) as PopFront<E, R>>::Popped);

    open spec fn front(self) -> E {
        self.1.front()
    }

    open spec fn remainder(self) -> (E1, <(E2, R2) as PopFront<E, R>>::Popped) {
        (self.0, self.1.remainder())
    }

    fn pop_front(self) -> (r: (E, Self::Popped))
        ensures
            r.0 == self.1.front(),
            r.1 == (self.0, self.1.remainder()),
    {
        let (e, q) = self.1.pop_front();
        (e, (self.0, q))
    }
}

/// Pushing an element of any type onto the back of a queue of any shape.
pub trait PushBack<E, I>: Sized {
    /// Wraps `insert` as the new back-most slot on top of the receiver.
    fn push_back(self, insert: E) -> (r: I);
}

impl<E, I> PushBack<E, (E, I)> for I {
    fn push_back(self, insert: E) -> (r: (E, I))
        ensures
            r == (insert, self),
    {
        (insert, self)
    }
}

/// Pushing onto the empty queue and then popping the front returns the
/// pushed element and the empty marker: the sole element is both front and
/// back.
pub proof fn lemma_push_pop_front_empty<E>(e: E)
    ensures
        (e, TypeQueue).front() == e,
        (e, TypeQueue).remainder() == TypeQueue,
{
}

/// Pushing onto a non-empty queue does not disturb the front: popping the
/// front afterwards returns the queue's original front element, and the
/// pushed element stays in the residual queue's back-most slot.
pub proof fn lemma_push_pop_front_nonempty<E, E2, R2, F, R>(q: (E2, R2), e: E) where
    (E2, R2): PopFront<F, R>,

    ensures
        (e, q).front() == q.front(),
        (e, q).remainder() == (e, q.remainder()),
{
}

/// Three pushes followed by repeated pop-fronts return the elements in
/// exact original push order, ending at the empty marker, whatever the
/// three element types.
pub proof fn lemma_pop_front_push_order<A, B, C>(a: A, b: B, c: C)
    ensures
        ({
            let q3 = (c, (b, (a, TypeQueue)));
            &&& q3.front() == a
            &&& q3.remainder().front() == b
            &&& q3.remainder().remainder().front() == c
            &&& q3.remainder().remainder().remainder() == TypeQueue
        }),
{
}

} // verus!
