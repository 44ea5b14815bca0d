//! A verified last-in-first-out container backed by a growable array.
//!
//! The stack's abstract value is the sequence of its elements in insertion
//! order; the last element of the sequence is the top. Every operation's
//! contract is stated over that sequence.

pub mod stack;

pub use stack::Stack;
