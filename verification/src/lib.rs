//! A small growable array.
//!
//! [`ToyVec`] owns one block of slots of a fixed size, its capacity. A prefix of the block
//! holds the live elements in the order in which they were appended; every slot behind the
//! prefix holds a default value and waits for an append. An append that finds the block full
//! replaces it by a larger one and moves the elements over. [`Iter`] walks the live elements
//! through a shared borrow of the array, so that nothing can be appended while it is in use.
//!
//! Every function carries a contract over the mathematical model of the array: the sequence
//! of its slots and the number of live elements. The module [`growth`] states the rule by
//! which the block grows, and the module [`laws`] proves what follows from the contracts
//! for runs of appends and reads.

pub mod array;
pub mod growth;
pub mod iter;
pub mod laws;

pub use crate::array::ToyVec;
pub use crate::iter::Iter;
