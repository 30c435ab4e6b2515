//! The message bus: a fixed pool of independent bounded FIFO channels,
//! each reached through a copyable `Sender` / `Receiver` handle pair that
//! carries the channel's index.
//!
//! The queue storage is owned by an explicit [`Bus`] object passed by
//! exclusive reference into senders, receivers, the scheduler and the
//! dispatch loop, which preserves the zero-allocation design without
//! unchecked global mutability.

use vstd::prelude::*;

use crate::errors::ConfigError;
use crate::msg::Msg;
use crate::queue::FixedQueue;

verus! {

/// Capacity of each channel's queue.
pub const Q_SIZE: usize = 10;

/// How many channels the fixed pool holds.
pub const NUM_QUEUES: usize = 2;

/// What one send does to the channel contents: append to the addressed
/// queue if it has room, otherwise drop the message silently.
pub open spec fn send_spec(q: Seq<Seq<Msg>>, ch: int, m: Msg) -> Seq<Seq<Msg>> {
    if q[ch].len() < Q_SIZE {
        q.update(ch, q[ch].push(m))
    } else {
        q
    }
}

/// Facts every well-formed bus guarantees its callers: the pool holds
/// exactly `NUM_QUEUES` channels, each within capacity, and the sentinel
/// is never among the queued messages.
pub proof fn lemma_bus_wf_facts(bus: &Bus)
    requires
        bus.wf(),
    ensures
        bus.channels().len() == NUM_QUEUES,
        forall|i: int| 0 <= i < NUM_QUEUES ==> (#[trigger] bus.channels()[i]).len() <= Q_SIZE,
        forall|i: int, j: int|
            0 <= i < NUM_QUEUES && 0 <= j < bus.channels()[i].len()
                ==> (#[trigger] bus.channels()[i][j]) != Msg::Empty,
{
}

/// The arena of channel queues plus the count of channels handed out so far.
pub struct Bus {
    queues: Vec<FixedQueue>,
    allocated: usize,
}

/// The sending side of a channel; copyable, many may refer to one channel.
#[derive(Copy, Clone, Debug, PartialEq, Eq, Structural)]
pub struct Sender {
    ch: usize,
}

/// The receiving side of a channel; exactly one per channel is drained by
/// the dispatch loop.
#[derive(Copy, Clone, Debug, PartialEq, Eq, Structural)]
pub struct Receiver {
    ch: usize,
}

impl Bus {
    /// The contents of every channel queue, indexed by channel, oldest first.
    pub closed spec fn channels(&self) -> Seq<Seq<Msg>> {
        self.queues@.map_values(|q: FixedQueue| q.contents())
    }

    /// How many channels have been handed out.
    pub closed spec fn allocated_spec(&self) -> nat {
        self.allocated as nat
    }

    /// The bus always holds exactly `NUM_QUEUES` queues of capacity `Q_SIZE`,
    /// never hands out more channels than it has, and never holds the
    /// [`Msg::Empty`] sentinel in a queue.
    pub closed spec fn wf(&self) -> bool {
        &&& self.queues@.len() == NUM_QUEUES
        &&& forall|i: int|
            0 <= i < self.queues@.len() ==> (#[trigger] self.queues@[i]).wf()
                && self.queues@[i].capacity_spec() == Q_SIZE
        &&& self.allocated <= NUM_QUEUES
        &&& forall|i: int, j: int|
            0 <= i < self.queues@.len() && 0 <= j < self.queues@[i].contents().len()
                ==> #[trigger] self.queues@[i].contents()[j] != Msg::Empty
    }

    /// Make a bus with all queues empty and no channels handed out.
    pub fn new() -> (bus: Bus)
        ensures
            bus.wf(),
            bus.allocated_spec() == 0,
            bus.channels().len() == NUM_QUEUES,
            forall|i: int| 0 <= i < NUM_QUEUES ==> #[trigger] bus.channels()[i] == Seq::<
                Msg,
            >::empty(),
    {
        let mut queues: Vec<FixedQueue> = Vec::new();
        let mut i: usize = 0;
        while i < NUM_QUEUES
            invariant
                i <= NUM_QUEUES,
                queues@.len() == i,
                forall|j: int|
                    0 <= j < i ==> (#[trigger] queues@[j]).wf() && queues@[j].capacity_spec()
                        == Q_SIZE && queues@[j].contents() == Seq::<Msg>::empty(),
            decreases NUM_QUEUES - i,
        {
            queues.push(FixedQueue::new(Q_SIZE));
            i = i + 1;
        }
        Bus { queues, allocated: 0 }
    }

    /// Hand out the next unused channel as a `Sender`/`Receiver` pair.
    ///
    /// Requesting more channels than the fixed pool size fails on exactly
    /// the first request past the pool, with the bus unchanged.
    pub fn channel(&mut self) -> (r: Result<(Sender, Receiver), ConfigError>)
        requires
            old(self).wf(),
        ensures
            final(self).wf(),
            final(self).channels() == old(self).channels(),
            r is Ok <==> old(self).allocated_spec() < NUM_QUEUES,
            r matches Ok((s, rx)) ==> s.ch_spec() == old(self).allocated_spec() && rx.ch_spec()
                == old(self).allocated_spec()
                && final(self).allocated_spec() == old(self).allocated_spec() + 1,
            r is Err ==> r == Result::<(Sender, Receiver), ConfigError>::Err(
                ConfigError::TooManyChannels,
            ) && final(self).allocated_spec() == old(self).allocated_spec(),
    {
        let ch = self.allocated;
        if ch >= NUM_QUEUES {
            Err(ConfigError::TooManyChannels)
        } else {
            self.allocated = ch + 1;
            Ok((Sender { ch }, Receiver { ch }))
        }
    }
}

impl Sender {
    /// The index of the channel this handle sends into.
    pub closed spec fn ch_spec(&self) -> nat {
        self.ch as nat
    }

    /// A handle is valid when its channel index lies inside the pool.
    pub open spec fn wf(&self) -> bool {
        self.ch_spec() < NUM_QUEUES
    }

    /// Push `m` onto this channel's queue; if the queue is full the message
    /// is silently dropped.  The sentinel is never enqueued.
    pub fn send(&self, bus: &mut Bus, m: Msg)
        requires
            old(bus).wf(),
            self.wf(),
            m != Msg::Empty,
        ensures
            final(bus).wf(),
            final(bus).allocated_spec() == old(bus).allocated_spec(),
            final(bus).channels() =~= send_spec(old(bus).channels(), self.ch_spec() as int, m),
    {
        bus.queues[self.ch].push(m);
        proof {
            assert forall|i: int, j: int|
                0 <= i < bus.queues@.len() && 0 <= j < bus.queues@[i].contents().len() implies (
            #[trigger] bus.queues@[i].contents()[j]) != Msg::Empty by {
                if i != self.ch as int {
                    assert(bus.queues@[i] == old(bus).queues@[i]);
                }
            }
            assert(bus.channels() =~= send_spec(old(bus).channels(), self.ch_spec() as int, m));
        }
    }
}

impl Receiver {
    /// The index of the channel this handle drains.
    pub closed spec fn ch_spec(&self) -> nat {
        self.ch as nat
    }

    /// A handle is valid when its channel index lies inside the pool.
    pub open spec fn wf(&self) -> bool {
        self.ch_spec() < NUM_QUEUES
    }

    /// Pop the oldest message of this channel, or return the [`Msg::Empty`]
    /// sentinel without blocking if the channel is empty.
    pub fn recv(&self, bus: &mut Bus) -> (m: Msg)
        requires
            old(bus).wf(),
            self.wf(),
        ensures
            final(bus).wf(),
            final(bus).allocated_spec() == old(bus).allocated_spec(),
            old(bus).channels()[self.ch_spec() as int].len() == 0 ==> m == Msg::Empty
                && final(bus).channels() =~= old(bus).channels(),
            old(bus).channels()[self.ch_spec() as int].len() > 0 ==> m == old(bus).channels()[
                self.ch_spec() as int][0] && final(bus).channels() =~= old(bus).channels().update(
                self.ch_spec() as int,
                old(bus).channels()[self.ch_spec() as int].drop_first(),
            ),
    {
        let m = bus.queues[self.ch].pop();
        proof {
            assert forall|i: int, j: int|
                0 <= i < bus.queues@.len() && 0 <= j < bus.queues@[i].contents().len() implies (
            #[trigger] bus.queues@[i].contents()[j]) != Msg::Empty by {
                if i != self.ch as int {
                    assert(bus.queues@[i] == old(bus).queues@[i]);
                } else {
                    if old(bus).queues@[i].contents().len() > 0 {
                        assert(bus.queues@[i].contents()[j] == old(bus).queues@[i].contents()[j
                            + 1]);
                    }
                }
            }
            if old(bus).channels()[self.ch_spec() as int].len() > 0 {
                assert(bus.channels() =~= old(bus).channels().update(
                    self.ch_spec() as int,
                    old(bus).channels()[self.ch_spec() as int].drop_first(),
                ));
            } else {
                assert(bus.channels() =~= old(bus).channels());
            }
        }
        m
    }
}

} // verus!
