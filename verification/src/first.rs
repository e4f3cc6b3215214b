//! A stack of `i32` over a hand-written link type.

use crate::lifo::{pushed, rest, top};
use vstd::prelude::*;

verus! {

/// A singly-linked stack of `i32`.
///
/// Its view is the sequence of its elements from the top down.
pub struct List {
    head: Link,
}

/// What a list or a node owns next: nothing, or one more node.
enum Link {
    Empty,
    More(Box<Node>),
}

struct Node {
    elem: i32,
    next: Link,
}

impl Link {
    /// The elements of the chain that starts at this link, nearest first.
    ///
    /// A link owns its node and the node its successor, so a chain is a
    /// finite value that holds no node twice, and the recursion ends at
    /// `Empty`.
    spec fn elems(self) -> Seq<i32>
        decreases self,
    {
        match self {
            Link::Empty => Seq::empty(),
            Link::More(node) => seq![node.elem] + node.next.elems(),
        }
    }
}

impl View for List {
    type V = Seq<i32>;

    closed spec fn view(&self) -> Seq<i32> {
        self.head.elems()
    }
}

impl List {
    /// Makes an empty stack.
    pub fn new() -> (list: Self)
        ensures
            list@ == Seq::<i32>::empty(),
    {
        Self { head: Link::Empty }
    }

    /// Puts `elem` on top of the stack.
    pub fn push(&mut self, elem: i32)
        ensures
            final(self)@ == pushed(old(self)@, elem),
    {
        // The new node takes over the chain; the head is empty for a moment.
        let mut next = Link::Empty;
        core::mem::swap(&mut self.head, &mut next);
        let new_node = Box::new(Node { elem, next });
        self.head = Link::More(new_node);
    }

    /// Takes the top element off the stack and returns it, or returns `None`
    /// and leaves the stack empty when there is none.
    pub fn pop(&mut self) -> (elem: Option<i32>)
        ensures
            elem == top(old(self)@),
            final(self)@ == rest(old(self)@),
    {
        let mut head = Link::Empty;
        core::mem::swap(&mut self.head, &mut head);
        match head {
            Link::Empty => None,
            Link::More(node) => {
                self.head = node.next;
                Some(node.elem)
            },
        }
    }
}

impl Drop for List {
    /// Unlinks the nodes one by one, so that each is freed with nothing
    /// behind it and the depth of the teardown does not grow with the stack.
    fn drop(&mut self)
        ensures
            final(self)@ == Seq::<i32>::empty(),
        opens_invariants none
        no_unwind
    {
        let mut cur_link = Link::Empty;
        core::mem::swap(&mut self.head, &mut cur_link);
        loop
            invariant
                self.head is Empty,
            decreases cur_link.elems().len(),
        {
            match cur_link {
                Link::Empty => {
                    return;
                },
                Link::More(mut boxed_node) => {
                    // Cut the node off from what follows it before it goes.
                    cur_link = Link::Empty;
                    core::mem::swap(&mut boxed_node.next, &mut cur_link);
                },
            }
        }
    }
}

} // verus!
