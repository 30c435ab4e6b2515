//! A bounded FIFO of bus events with a fixed capacity and no reallocation
//! after construction.

use vstd::prelude::*;

use crate::msg::Msg;

verus! {

/// A bounded first-in-first-out queue of [`Msg`] values.
///
/// The capacity is fixed when the queue is made.  A push onto a full queue
/// silently drops the new element (lossy-on-overflow, the uniform policy of
/// every queue in this firmware); a pop from an empty queue returns the
/// [`Msg::Empty`] sentinel and changes nothing.
pub struct FixedQueue {
    items: Vec<Msg>,
    cap: usize,
}

/// What one push does to the contents: append if there is room, else
/// drop the new element.
pub open spec fn push_contents(c: Seq<Msg>, cap: nat, m: Msg) -> Seq<Msg> {
    if c.len() < cap {
        c.push(m)
    } else {
        c
    }
}

/// Pushing a whole sequence of elements, oldest first.
pub open spec fn push_all(c: Seq<Msg>, cap: nat, items: Seq<Msg>) -> Seq<Msg>
    decreases items.len(),
{
    if items.len() == 0 {
        c
    } else {
        push_all(push_contents(c, cap, items[0]), cap, items.drop_first())
    }
}

/// Pushing `items` into a queue holding `c` keeps `c` and then as many of
/// the first elements of `items` as fit under the capacity, in order.
pub proof fn lemma_push_all(c: Seq<Msg>, cap: nat, items: Seq<Msg>)
    requires
        c.len() <= cap,
    ensures
        push_all(c, cap, items) == (c + items).take(if c.len() + items.len() <= cap {
            (c.len() + items.len()) as int
        } else {
            cap as int
        }),
    decreases items.len(),
{
    if items.len() == 0 {
        assert((c + items).take(c.len() as int) =~= c);
    } else if c.len() < cap {
        lemma_push_all(c.push(items[0]), cap, items.drop_first());
        assert(c.push(items[0]) + items.drop_first() =~= c + items);
    } else {
        lemma_push_all(c, cap, items.drop_first());
        assert((c + items.drop_first()).take(cap as int) =~= (c + items).take(cap as int));
        assert((c + items).take(cap as int) =~= c);
    }
}

/// Pushing `cap + 1` or more elements into an empty queue of capacity
/// `cap` retains exactly the first `cap` of them, in push order, and
/// drops the rest.
pub proof fn lemma_push_all_overflow(cap: nat, items: Seq<Msg>)
    requires
        items.len() > cap,
    ensures
        push_all(Seq::<Msg>::empty(), cap, items) == items.take(cap as int),
{
    lemma_push_all(Seq::<Msg>::empty(), cap, items);
    assert((Seq::<Msg>::empty() + items).take(cap as int) =~= items.take(cap as int));
}

/// The results of popping a queue holding `c` up to `k` times: the pops
/// return the queued elements oldest first.
pub open spec fn pop_results(c: Seq<Msg>, k: int) -> Seq<Msg>
    decreases k,
{
    if k <= 0 || c.len() == 0 {
        Seq::<Msg>::empty()
    } else {
        seq![c[0]] + pop_results(c.drop_first(), k - 1)
    }
}

/// Popping a queue `k` times returns exactly its first `k` elements, in
/// the order they were pushed.
pub proof fn lemma_pops_in_push_order(c: Seq<Msg>, k: int)
    requires
        0 <= k <= c.len(),
    ensures
        pop_results(c, k) == c.take(k),
    decreases k,
{
    if k > 0 {
        lemma_pops_in_push_order(c.drop_first(), k - 1);
        assert(seq![c[0]] + c.drop_first().take(k - 1) =~= c.take(k));
    } else {
        assert(c.take(0) =~= Seq::<Msg>::empty());
    }
}

impl FixedQueue {
    /// The elements currently queued, oldest first.
    pub closed spec fn contents(&self) -> Seq<Msg> {
        self.items@
    }

    /// The fixed capacity this queue was made with.
    pub closed spec fn capacity_spec(&self) -> nat {
        self.cap as nat
    }

    /// The queue never holds more elements than its capacity.
    pub open spec fn wf(&self) -> bool {
        self.contents().len() <= self.capacity_spec()
    }

    /// Make an empty queue of capacity `cap`.
    pub fn new(cap: usize) -> (q: FixedQueue)
        ensures
            q.wf(),
            q.contents() == Seq::<Msg>::empty(),
            q.capacity_spec() == cap,
    {
        FixedQueue { items: Vec::new(), cap }
    }

    /// How many elements are queued.
    pub fn len(&self) -> (n: usize)
        ensures
            n == self.contents().len(),
    {
        self.items.len()
    }

    /// Whether the queue holds no elements.
    pub fn is_empty(&self) -> (b: bool)
        ensures
            b == (self.contents().len() == 0),
    {
        self.items.len() == 0
    }

    /// The fixed capacity.
    pub fn capacity(&self) -> (n: usize)
        ensures
            n == self.capacity_spec(),
    {
        self.cap
    }

    /// Append `m` at the back, or drop it silently if the queue is full.
    pub fn push(&mut self, m: Msg)
        requires
            old(self).wf(),
        ensures
            final(self).wf(),
            final(self).capacity_spec() == old(self).capacity_spec(),
            old(self).contents().len() < old(self).capacity_spec() ==> final(self).contents()
                == old(self).contents().push(m),
            old(self).contents().len() >= old(self).capacity_spec() ==> final(self).contents()
                == old(self).contents(),
            final(self).contents() == push_contents(
                old(self).contents(),
                old(self).capacity_spec(),
                m,
            ),
    {
        if self.items.len() < self.cap {
            self.items.push(m);
        }
    }

    /// Remove and return the oldest element, or return the [`Msg::Empty`]
    /// sentinel and leave the queue unchanged if it is empty.
    pub fn pop(&mut self) -> (m: Msg)
        requires
            old(self).wf(),
        ensures
            final(self).wf(),
            final(self).capacity_spec() == old(self).capacity_spec(),
            old(self).contents().len() == 0 ==> m == Msg::Empty && final(self).contents()
                == old(self).contents(),
            old(self).contents().len() > 0 ==> m == old(self).contents()[0]
                && final(self).contents() == old(self).contents().drop_first(),
    {
        if self.items.len() == 0 {
            Msg::Empty
        } else {
            let ghost pre = self.items@;
            let m = self.items.remove(0);
            proof {
                assert(self.items@ =~= pre.drop_first());
            }
            m
        }
    }
}

} // verus!
