//! A generic last-in-first-out stack built on a singly-linked chain of
//! nodes, with verified contracts for insertion at the top, removal from
//! the top, peeking (read-only and in-place mutable), and traversal in
//! top-to-bottom order through three cursor types: consuming, borrowing,
//! and mutably borrowing.

mod iter;
mod laws;
mod stack;

pub use iter::IntoIter;
pub use iter::Iter;
pub use iter::IterMut;
pub use laws::lemma_lifo_order;
pub use laws::lemma_pop_all_is_view;
pub use laws::lemma_pop_empty;
pub use laws::lemma_push_all_reverse;
pub use laws::lemma_push_pop_rounds_identity;
pub use laws::lemma_push_then_pop;
pub use laws::pop_all;
pub use laws::push_all;
pub use laws::push_pop_rounds;
pub use stack::spec_pop;
pub use stack::spec_push;
pub use stack::Stack;
