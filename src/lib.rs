//! A last-in-first-out stack built on a singly linked chain of owned nodes.

pub mod laws;
mod reverse;
mod stack;

pub use reverse::reversed;
pub use stack::{after_pop, popped, Stack};
