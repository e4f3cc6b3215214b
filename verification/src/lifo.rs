//! The mathematical model of a stack: a `Seq<T>` whose index 0 is the top.
//!
//! The spec functions here are the vocabulary of the contracts of the lists
//! and of their iterators. The proof functions state what those contracts
//! add up to over whole runs of operations.

use vstd::prelude::*;

verus! {

/// The stack `s` after `elem` was pushed on it.
pub open spec fn pushed<T>(s: Seq<T>, elem: T) -> Seq<T> {
    seq![elem] + s
}

/// The element on top of `s`, if `s` holds any.
pub open spec fn top<T>(s: Seq<T>) -> Option<T> {
    if s.len() > 0 {
        Some(s[0])
    } else {
        None
    }
}

/// What is left of `s` after one pop: `s` without its top, or `s` itself when
/// it is empty.
pub open spec fn rest<T>(s: Seq<T>) -> Seq<T> {
    if s.len() > 0 {
        s.skip(1)
    } else {
        s
    }
}

/// The stack `s` after the elements of `elems` were pushed on it one by one,
/// `elems[0]` first.
pub open spec fn push_all<T>(s: Seq<T>, elems: Seq<T>) -> Seq<T>
    decreases elems.len(),
{
    if elems.len() == 0 {
        s
    } else {
        pushed(push_all(s, elems.drop_last()), elems.last())
    }
}

/// The stack `s` after `n` pops.
pub open spec fn pop_times<T>(s: Seq<T>, n: nat) -> Seq<T>
    decreases n,
{
    if n == 0 {
        s
    } else {
        pop_times(rest(s), (n - 1) as nat)
    }
}

/// A run of pushes puts its elements on top of the stack, the last one
/// pushed uppermost.
pub proof fn lemma_push_all<T>(s: Seq<T>, elems: Seq<T>)
    ensures
        push_all(s, elems) == elems.reverse() + s,
    decreases elems.len(),
{
    if elems.len() > 0 {
        lemma_push_all(s, elems.drop_last());
    }
}

/// `n` pops remove the `n` topmost elements, and leave an empty stack where
/// there were no more than `n`.
pub proof fn lemma_pop_times<T>(s: Seq<T>, n: nat)
    ensures
        pop_times(s, n) == if n <= s.len() {
            s.skip(n as int)
        } else {
            Seq::empty()
        },
    decreases n,
{
    if n > 0 {
        lemma_pop_times(rest(s), (n - 1) as nat);
    }
}

/// Last in, first out: after `elems` were pushed on an empty stack, the pop
/// that follows `k` earlier pops returns the element pushed `k` places before
/// the last one, and every pop after the `elems.len()`-th finds the stack
/// empty.
pub proof fn lemma_last_in_first_out<T>(elems: Seq<T>, k: nat)
    ensures
        top(pop_times(push_all(Seq::empty(), elems), k)) == if k < elems.len() {
            Some(elems[elems.len() - 1 - k])
        } else {
            None
        },
{
    lemma_push_all(Seq::<T>::empty(), elems);
    lemma_pop_times(push_all(Seq::<T>::empty(), elems), k);
}

/// A pop right after a push returns the element just pushed and leaves the
/// stack as it was before the push, whatever it held.
pub proof fn lemma_pop_undoes_push<T>(s: Seq<T>, elem: T)
    ensures
        top(pushed(s, elem)) == Some(elem),
        rest(pushed(s, elem)) == s,
{
}

/// Pushes and pops may be interleaved: on a stack that holds anything, a run
/// of pushes followed by as many pops returns the pushed elements, last
/// first, and leaves the stack as it was before the run.
pub proof fn lemma_pops_undo_pushes<T>(s: Seq<T>, elems: Seq<T>, k: nat)
    ensures
        k < elems.len() ==> top(pop_times(push_all(s, elems), k)) == Some(
            elems[elems.len() - 1 - k],
        ),
        pop_times(push_all(s, elems), elems.len()) == s,
{
    lemma_push_all(s, elems);
    lemma_pop_times(push_all(s, elems), k);
    lemma_pop_times(push_all(s, elems), elems.len());
}

/// Writing `elem` over the top of a stack that is not empty changes what a
/// later look at the top sees, and nothing below it.
pub proof fn lemma_top_after_write<T>(s: Seq<T>, elem: T)
    requires
        s.len() > 0,
    ensures
        top(s.update(0, elem)) == Some(elem),
        rest(s.update(0, elem)) == rest(s),
{
}

/// Walking a stack from the top yields its elements in the order of its view
/// and then nothing: the advance that follows `k` earlier ones yields `s[k]`
/// while `k < s.len()`, and finds the walk exhausted from then on.
pub proof fn lemma_walk<T>(s: Seq<T>, k: nat)
    ensures
        top(pop_times(s, k)) == if k < s.len() {
            Some(s[k as int])
        } else {
            None
        },
{
    lemma_pop_times(s, k);
}

} // verus!
