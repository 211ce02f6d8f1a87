//! The queue of extra results from event handling.

use std::collections::VecDeque;
use vstd::prelude::*;

verus! {

/// Queue for additional event-handling results, taken out first in, first out.
#[derive(Debug)]
pub struct Queue<T> {
    queue: VecDeque<T>,
}

impl<T> View for Queue<T> {
    type V = Seq<T>;

    /// The queued results, oldest first.
    closed spec fn view(&self) -> Seq<T> {
        self.queue@
    }
}

impl<T> Default for Queue<T> {
    fn default() -> (r: Self)
        ensures
            r@ == Seq::<T>::empty(),
    {
        Queue { queue: VecDeque::new() }
    }
}

impl<T> Queue<T> {
    /// Enqueue more results from event-handling.
    pub fn queue(&mut self, ctrl: T)
        ensures
            final(self)@ == old(self)@.push(ctrl),
    {
        self.queue.push_back(ctrl);
    }
}

/// Is there a queued result?
pub fn poll_queued<T>(queue: &Queue<T>) -> (r: bool)
    ensures
        r <==> queue@.len() > 0,
{
    queue.queue.len() != 0
}

/// The error of reading an empty queue.
#[derive(Debug, Clone, Copy, PartialEq, Eq)]
pub struct QueueEmpty;

/// Takes the oldest queued result out; reading an empty queue is an error.
pub fn read_queued<T>(queue: &mut Queue<T>) -> (r: Result<T, QueueEmpty>)
    ensures
        r == match front_of(old(queue)@) {
            Some(x) => Ok::<T, QueueEmpty>(x),
            None => Err(QueueEmpty),
        },
        final(queue)@ == rest_of(old(queue)@),
{
    match queue.queue.pop_front() {
        Some(x) => Ok(x),
        None => Err(QueueEmpty),
    }
}

/// The oldest element of a queue, if any.
pub open spec fn front_of<T>(s: Seq<T>) -> Option<T> {
    if s.len() == 0 { None } else { Some(s[0]) }
}

/// A queue without its oldest element; the empty queue stays empty.
pub open spec fn rest_of<T>(s: Seq<T>) -> Seq<T> {
    if s.len() == 0 { s } else { s.drop_first() }
}

/// What is queued comes out first in, first out: reading a queue that holds
/// something gives its oldest element whatever is queued after it, and a
/// result queued into an empty queue is the next one read.
pub proof fn lemma_queue_fifo<T>(s: Seq<T>, x: T)
    ensures
        s.len() > 0 ==> front_of(s.push(x)) == front_of(s),
        s.len() > 0 ==> rest_of(s.push(x)) == rest_of(s).push(x),
        s.len() == 0 ==> front_of(s.push(x)) == Some(x),
        s.len() == 0 ==> rest_of(s.push(x)) == s,
{
    if s.len() > 0 {
        assert(s.push(x).drop_first() =~= s.drop_first().push(x));
    } else {
        assert(s.push(x).drop_first() =~= s);
    }
}

/// Reading every queued result in turn gives them back in the order they
/// were queued.
pub proof fn lemma_queue_drains_in_order<T>(s: Seq<T>, i: int)
    requires
        0 <= i < s.len(),
    ensures
        front_of(s.skip(i)) == Some(s[i]),
        rest_of(s.skip(i)) == s.skip(i + 1),
{
    assert(s.skip(i).drop_first() =~= s.skip(i + 1));
}

} // verus!
