//! Statically typed heterogeneous sequences.
//!
//! Each container in this crate holds elements of arbitrarily different
//! types; the type of every element and its position are part of the
//! container's own compile-time type. Pushing and popping therefore never
//! need a runtime tag or a cast: the type-checker resolves which element
//! comes out of each pop, and popping an empty sequence is rejected at
//! compile time because no such operation exists.
//!
//! Three variants are provided:
//! - [`stack`]: bare nested pairs with push and pop-back (LIFO),
//! - [`queue`]: bare nested pairs with push-back and pop-front (FIFO),
//! - [`stackque`]: a sealed wrapper offering push, pop-back and pop-front
//!   over the same structure, constructible only through `push`.

pub mod queue;
pub mod stack;
pub mod stackque;
