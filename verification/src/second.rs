//! A generic stack with peeking and three ways of walking the chain.

use crate::lifo::{pushed, rest, top};
use vstd::prelude::*;

verus! {

/// A singly-linked stack of `T`.
///
/// Its view is the sequence of its elements from the top down.
pub struct List<T> {
    head: Link<T>,
}

type Link<T> = Option<Box<Node<T>>>;

/// One element of a chain together with all that follows it.
///
/// Nodes are made and taken apart by the list alone. The type is public
/// because the contracts of [`IterMut`] speak of the node that the iterator
/// has borrowed; its view is the sequence of the elements from this node on.
pub struct Node<T> {
    elem: T,
    next: Link<T>,
}

/// The elements of the chain that starts at `link`, nearest first.
///
/// A link owns its node and the node its successor, so a chain is a finite
/// value that holds no node twice, and the recursion ends at the absent link.
spec fn chain<T>(link: Link<T>) -> Seq<T>
    decreases link,
{
    match link {
        None => Seq::empty(),
        Some(node) => seq![node.elem] + chain(node.next),
    }
}

impl<T> View for Node<T> {
    type V = Seq<T>;

    closed spec fn view(&self) -> Seq<T> {
        seq![self.elem] + chain(self.next)
    }
}

impl<T> View for List<T> {
    type V = Seq<T>;

    closed spec fn view(&self) -> Seq<T> {
        chain(self.head)
    }
}

impl<T> List<T> {
    /// Makes an empty stack.
    pub fn new() -> (list: Self)
        ensures
            list@ == Seq::<T>::empty(),
    {
        Self { head: None }
    }

    /// Puts `elem` on top of the stack.
    pub fn push(&mut self, elem: T)
        ensures
            final(self)@ == pushed(old(self)@, elem),
    {
        let next = self.head.take();
        let new_node = Box::new(Node { elem, next });
        self.head = Some(new_node);
    }

    /// Takes the top element off the stack and returns it, or returns `None`
    /// and leaves the stack empty when there is none.
    pub fn pop(&mut self) -> (elem: Option<T>)
        ensures
            elem == top(old(self)@),
            final(self)@ == rest(old(self)@),
    {
        match self.head.take() {
            None => None,
            Some(node) => {
                self.head = node.next;
                Some(node.elem)
            },
        }
    }

    /// A shared reference to the top element, or `None` when the stack is
    /// empty.
    pub fn peek(&self) -> (elem: Option<&T>)
        ensures
            match elem {
                Some(top_elem) => top(self@) == Some(*top_elem),
                None => top(self@) is None,
            },
    {
        match &self.head {
            None => None,
            Some(node) => Some(&node.elem),
        }
    }

    /// An exclusive reference to the top element, or `None` when the stack is
    /// empty. Whatever the caller leaves behind the reference is the top of
    /// the stack from then on; nothing else changes.
    pub fn peek_mut(&mut self) -> (elem: Option<&mut T>)
        ensures
            match elem {
                Some(top_elem) => {
                    &&& top(old(self)@) == Some(*top_elem)
                    &&& final(self)@ == old(self)@.update(0, *final(top_elem))
                },
                None => top(old(self)@) is None && final(self)@ == old(self)@,
            },
    {
        match &mut self.head {
            None => None,
            Some(node) => Some(&mut node.elem),
        }
    }

    /// Turns the stack into an iterator that pops it element by element.
    pub fn into_iter(self) -> (iter: IntoIter<T>)
        ensures
            iter@ == self@,
    {
        IntoIter(self)
    }

    /// An iterator over shared references to the elements, from the top down.
    pub fn iter(&self) -> (iter: Iter<'_, T>)
        ensures
            iter@ == self@,
    {
        match &self.head {
            None => Iter { next: None },
            Some(node) => Iter { next: Some(&**node) },
        }
    }

    /// An iterator over exclusive references to the elements, from the top
    /// down. When the borrow ends the stack holds what the chain behind the
    /// iterator's node has become.
    pub fn iter_mut(&mut self) -> (iter: IterMut<'_, T>)
        ensures
            iter@ == old(self)@,
            final(self)@ == (match iter.cursor() {
                Some(node) => final(node)@,
                None => Seq::empty(),
            }),
    {
        match &mut self.head {
            None => IterMut { next: None },
            Some(node) => IterMut { next: Some(&mut **node) },
        }
    }
}

impl<T> Drop for List<T> {
    /// Unlinks the nodes one by one, so that each is freed with nothing
    /// behind it and the depth of the teardown does not grow with the stack.
    fn drop(&mut self)
        ensures
            final(self)@ == Seq::<T>::empty(),
        opens_invariants none
        no_unwind
    {
        // `swap` throughout, for it is known not to unwind, as a destructor
        // must not.
        let mut cur_link: Link<T> = None;
        core::mem::swap(&mut self.head, &mut cur_link);
        loop
            invariant
                self.head is None,
            decreases chain(cur_link).len(),
        {
            match cur_link {
                None => {
                    return;
                },
                Some(mut boxed_node) => {
                    // Cut the node off from what follows it before it goes.
                    cur_link = None;
                    core::mem::swap(&mut boxed_node.next, &mut cur_link);
                },
            }
        }
    }
}

/// The iterator that owns the stack and pops it.
///
/// Its view is the view of the stack it holds: what is still to come.
pub struct IntoIter<T>(List<T>);

impl<T> View for IntoIter<T> {
    type V = Seq<T>;

    closed spec fn view(&self) -> Seq<T> {
        self.0@
    }
}

impl<T> IntoIter<T> {
    /// Pops the stack: yields its top element, or `None` once it is empty.
    pub fn next(&mut self) -> (elem: Option<T>)
        ensures
            elem == top(old(self)@),
            final(self)@ == rest(old(self)@),
    {
        self.0.pop()
    }
}

/// The iterator over shared references.
///
/// Its view is the sequence of the elements still to come.
pub struct Iter<'a, T> {
    next: Option<&'a Node<T>>,
}

impl<'a, T> View for Iter<'a, T> {
    type V = Seq<T>;

    closed spec fn view(&self) -> Seq<T> {
        match self.next {
            Some(node) => node@,
            None => Seq::empty(),
        }
    }
}

impl<'a, T> Iter<'a, T> {
    /// Yields a reference to the next element and moves on to its
    /// successor, or yields `None` once the chain has ended.
    pub fn next(&mut self) -> (elem: Option<&'a T>)
        ensures
            match elem {
                Some(next_elem) => top(old(self)@) == Some(*next_elem),
                None => top(old(self)@) is None,
            },
            final(self)@ == rest(old(self)@),
    {
        match self.next {
            None => None,
            Some(node) => {
                self.next = match &node.next {
                    None => None,
                    Some(next_node) => Some(&**next_node),
                };
                Some(&node.elem)
            },
        }
    }
}

/// The iterator over exclusive references.
///
/// It holds the one exclusive reference into the chain: to the node it will
/// visit next. Its view is the sequence of the elements still to come, as
/// they are now.
pub struct IterMut<'a, T> {
    next: Option<&'a mut Node<T>>,
}

impl<'a, T> View for IterMut<'a, T> {
    type V = Seq<T>;

    open spec fn view(&self) -> Seq<T> {
        match self.cursor() {
            Some(node) => node@,
            None => Seq::empty(),
        }
    }
}

impl<'a, T> IterMut<'a, T> {
    /// The reference that the iterator holds: to the node it will visit
    /// next, if there is one.
    pub closed spec fn cursor(&self) -> Option<&'a mut Node<T>> {
        self.next
    }

    /// An iterator that is put away leaves the nodes it has not visited as
    /// they are: once nothing will be written through it any more, the chain
    /// behind its node ends up holding what it holds now.
    pub proof fn lemma_unvisited_unchanged(self)
        requires
            has_resolved(self),
        ensures
            self.cursor() matches Some(node) ==> final(node)@ == self@,
    {
    }

    /// Yields an exclusive reference to the next element and moves on to its
    /// successor, or yields `None` once the chain has ended.
    ///
    /// The node that the iterator held ends up with what the caller leaves
    /// behind the yielded reference, followed by what the chain behind the
    /// iterator's new node becomes.
    pub fn next(&mut self) -> (elem: Option<&'a mut T>)
        ensures
            match elem {
                Some(next_elem) => top(old(self)@) == Some(*next_elem),
                None => top(old(self)@) is None,
            },
            final(self)@ == rest(old(self)@),
            match old(self).cursor() {
                Some(node) => {
                    &&& elem is Some
                    &&& final(node)@ == pushed(
                        match final(self).cursor() {
                            Some(next_node) => final(next_node)@,
                            None => Seq::empty(),
                        },
                        *final(elem->0),
                    )
                },
                None => elem is None && final(self).cursor() is None,
            },
    {
        match self.next.take() {
            None => None,
            Some(node) => {
                self.next = match &mut node.next {
                    None => None,
                    Some(next_node) => Some(&mut **next_node),
                };
                Some(&mut node.elem)
            },
        }
    }
}

} // verus!
