//! Fixed-capacity FIFO queues connecting pipeline tasks.
//!
//! A queue carries either frame buffer handles (ownership transfers through
//! the queue: the sender must not touch an item after a successful send) or
//! small copied value types such as bounding boxes. `try_send` on a full
//! queue refuses the item and hands it back unchanged — the producer then
//! either waits for a slot (backpressure) or applies its documented drop
//! policy. `try_recv` on an empty queue reports emptiness. Items always
//! come out in the order they went in.

use vstd::prelude::*;

verus! {

/// What a send does to the queue's contents, at the level of sequences:
/// refused when the queue is at capacity, appended at the back otherwise.
pub open spec fn spec_send<T>(s: Seq<T>, capacity: nat, x: T) -> Option<Seq<T>> {
    if s.len() >= capacity {
        None
    } else {
        Some(s.push(x))
    }
}

/// Sending a whole sequence of items in order, stopping at the first
/// refusal.
pub open spec fn spec_send_all<T>(s: Seq<T>, capacity: nat, xs: Seq<T>) -> Option<Seq<T>>
    decreases xs.len(),
{
    if xs.len() == 0 {
        Some(s)
    } else {
        match spec_send(s, capacity, xs[0]) {
            Some(s2) => spec_send_all(s2, capacity, xs.drop_first()),
            None => None,
        }
    }
}

/// Fixed-capacity single-writer FIFO queue.
pub struct BoundedQueue<T> {
    items: Vec<T>,
    capacity: usize,
}

impl<T> BoundedQueue<T> {
    /// The queued items, oldest first.
    pub closed spec fn view(&self) -> Seq<T> {
        self.items@
    }

    pub closed spec fn spec_capacity(&self) -> nat {
        self.capacity as nat
    }

    pub open spec fn wf(&self) -> bool {
        &&& self.spec_capacity() >= 1
        &&& self.view().len() <= self.spec_capacity()
    }

    /// An empty queue of the given capacity. Capacity is a deliberate
    /// latency/throughput trade chosen by the caller at wiring time.
    pub fn new(capacity: usize) -> (q: BoundedQueue<T>)
        requires
            capacity >= 1,
        ensures
            q.wf(),
            q.view() == Seq::<T>::empty(),
            q.spec_capacity() == capacity,
    {
        BoundedQueue { items: Vec::new(), capacity }
    }

    pub fn len(&self) -> (n: usize)
        ensures
            n == self.view().len(),
    {
        self.items.len()
    }

    pub fn is_empty(&self) -> (b: bool)
        ensures
            b == (self.view().len() == 0),
    {
        self.items.len() == 0
    }

    pub fn is_full(&self) -> (b: bool)
        ensures
            b == (self.view().len() >= self.spec_capacity()),
    {
        self.items.len() >= self.capacity
    }

    pub fn capacity(&self) -> (c: usize)
        ensures
            c == self.spec_capacity(),
    {
        self.capacity
    }

    /// Append an item at the back, or hand it back when the queue is full.
    /// A refused send leaves the queue exactly as it was: order is never
    /// silently corrupted.
    pub fn try_send(&mut self, x: T) -> (r: Result<(), T>)
        requires
            old(self).wf(),
        ensures
            final(self).wf(),
            final(self).spec_capacity() == old(self).spec_capacity(),
            match r {
                Ok(()) => {
                    &&& spec_send(old(self).view(), old(self).spec_capacity(), x)
                        == Some(final(self).view())
                    &&& final(self).view() == old(self).view().push(x)
                },
                Err(y) => {
                    &&& spec_send(old(self).view(), old(self).spec_capacity(), x) is None
                    &&& y == x
                    &&& final(self).view() == old(self).view()
                },
            },
    {
        if self.items.len() >= self.capacity {
            Err(x)
        } else {
            self.items.push(x);
            Ok(())
        }
    }

    /// Take the oldest item, or report emptiness.
    pub fn try_recv(&mut self) -> (r: Option<T>)
        requires
            old(self).wf(),
        ensures
            final(self).wf(),
            final(self).spec_capacity() == old(self).spec_capacity(),
            match r {
                Some(y) => {
                    &&& old(self).view().len() > 0
                    &&& y == old(self).view()[0]
                    &&& final(self).view() == old(self).view().drop_first()
                },
                None => {
                    &&& old(self).view().len() == 0
                    &&& final(self).view() == old(self).view()
                },
            },
    {
        if self.items.len() == 0 {
            None
        } else {
            let y = self.items.remove(0);
            assert(final(self).view() =~= old(self).view().drop_first());
            Some(y)
        }
    }
}

/// Queue bound: with the queue at capacity, one more send is refused and
/// the contents stay exactly as they were.
pub proof fn lemma_queue_bound<T>(s: Seq<T>, capacity: nat, x: T)
    requires
        s.len() == capacity,
    ensures
        spec_send(s, capacity, x) is None,
{
}

/// Filling an empty queue: a sequence of at most `capacity` sends all
/// succeeds and the queue then holds exactly those items, in send order.
pub proof fn lemma_queue_fill<T>(s: Seq<T>, capacity: nat, xs: Seq<T>)
    requires
        s.len() + xs.len() <= capacity,
    ensures
        spec_send_all(s, capacity, xs) == Some(s + xs),
    decreases xs.len(),
{
    if xs.len() == 0 {
        assert(s + xs =~= s);
    } else {
        lemma_queue_fill(s.push(xs[0]), capacity, xs.drop_first());
        assert(s.push(xs[0]) + xs.drop_first() =~= s + xs);
    }
}

/// FIFO: draining a queue that holds `s` returns the items of `s` one by
/// one, front first — receives come back in send order.
pub proof fn lemma_queue_fifo<T>(s: Seq<T>, i: int)
    requires
        0 <= i < s.len(),
    ensures
        spec_drain_step(s, i) == s[i],
    decreases i,
{
    if i > 0 {
        lemma_queue_fifo(s.drop_first(), i - 1);
    }
}

/// The item returned by the `i`-th receive while draining contents `s`.
pub open spec fn spec_drain_step<T>(s: Seq<T>, i: int) -> T
    recommends
        0 <= i < s.len(),
    decreases i,
{
    if i <= 0 {
        s[0]
    } else {
        spec_drain_step(s.drop_first(), i - 1)
    }
}

} // verus!
