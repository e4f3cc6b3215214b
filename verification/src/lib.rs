//! Singly-linked stacks.
//!
//! [`first::List`] is a stack of `i32` built on a hand-written link type;
//! [`second::List`] is generic over its element type and adds `peek`,
//! `peek_mut` and three ways of walking the chain. Both own their nodes
//! through `Box` and tear the chain down with a loop, so that dropping a long
//! stack never recurses.
//!
//! Every stack is specified by its view, a `Seq` of the elements from the top
//! of the stack to the bottom. The vocabulary of the contracts and the laws
//! that hold of it are in [`lifo`].

pub mod first;
pub mod lifo;
pub mod second;
