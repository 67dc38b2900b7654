//! Emptying a collection into a vector.

use std::collections::VecDeque;
use vstd::prelude::*;

verus! {

/// Takes everything out of a queue, first in, first out.
pub fn drain_front<T>(queue: &mut VecDeque<T>) -> (items: Vec<T>)
    ensures
        items@ == old(queue)@,
        final(queue)@ == Seq::<T>::empty(),
{
    let mut items: Vec<T> = Vec::new();
    let ghost whole = queue@;
    while queue.len() > 0
        invariant
            items@ + queue@ == whole,
        decreases queue@.len(),
    {
        match queue.pop_front() {
            Some(item) => {
                items.push(item);
            },
            None => {},
        }
        assert(items@ + queue@ =~= whole);
    }
    assert(items@ =~= whole);
    assert(queue@ =~= Seq::<T>::empty());
    items
}

/// Takes everything out of a stack, last in, first out.
pub fn drain_back<T>(stack: &mut Vec<T>) -> (items: Vec<T>)
    ensures
        items@ == old(stack)@.reverse(),
        final(stack)@ == Seq::<T>::empty(),
{
    let mut items: Vec<T> = Vec::new();
    let ghost whole = stack@;
    while stack.len() > 0
        invariant
            stack@ + items@.reverse() == whole,
        decreases stack@.len(),
    {
        match stack.pop() {
            Some(item) => {
                items.push(item);
            },
            None => {},
        }
        assert(stack@ + items@.reverse() =~= whole);
    }
    assert(items@.reverse() =~= whole);
    assert(items@ =~= whole.reverse());
    assert(stack@ =~= Seq::<T>::empty());
    items
}

} // verus!
