//! A singly-linked last-in-first-out stack, with read-only and mutable
//! peeking and head-to-tail cursors.

mod iter;
mod laws;
mod link;
mod stack;

pub use iter::{ends_of, Iter, IterMut};
pub use laws::{
    fresh_stack_is_empty, last_in_first_out, overwritten_top_is_seen, peek_agrees_with_pop,
    pop_undoes_push,
};
pub use stack::{popped, pushed, top, Stack};
