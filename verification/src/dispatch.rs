//! The dispatch loop: once per scheduler tick it drains every queued
//! message from the receiver and routes each into the task state that
//! owns that event kind.  Serialising all bus activity into one tick is
//! what keeps producers and consumers from racing.

use vstd::prelude::*;

use crate::channel::Bus;
use crate::channel::Receiver;
use crate::channel::NUM_QUEUES;
use crate::msg::Msg;
use crate::tasks::TaskDataView;
use crate::tasks::TaskMgr;

verus! {

/// Where each event kind lands in the shared task state: a keyboard event
/// appends to the text-edit line; a push-to-talk event updates chat's and
/// the link's view of the button.  The sentinel routes nowhere.
pub open spec fn route(d: TaskDataView, m: Msg) -> TaskDataView {
    match m {
        Msg::Empty => d,
        Msg::PttButton(pressed) => TaskDataView { chat_ptt: pressed, link_ptt: pressed, ..d },
        Msg::Keyboard { key } => TaskDataView { text_edit: d.text_edit.push(key), ..d },
    }
}

/// Routing a whole sequence of messages, oldest first.
pub open spec fn route_all(d: TaskDataView, msgs: Seq<Msg>) -> TaskDataView
    decreases msgs.len(),
{
    if msgs.len() == 0 {
        d
    } else {
        route_all(route(d, msgs[0]), msgs.drop_first())
    }
}

/// Routing `msgs` and then one more message routes the whole of
/// `msgs.push(m)`.
pub proof fn lemma_route_all_snoc(d: TaskDataView, msgs: Seq<Msg>, m: Msg)
    ensures
        route(route_all(d, msgs), m) == route_all(d, msgs.push(m)),
    decreases msgs.len(),
{
    reveal_with_fuel(route_all, 3);
    if msgs.len() == 0 {
        assert(msgs.push(m)[0] == m);
        assert(msgs.push(m).drop_first() =~= Seq::<Msg>::empty());
    } else {
        lemma_route_all_snoc(route(d, msgs[0]), msgs.drop_first(), m);
        assert(msgs.push(m)[0] == msgs[0]);
        assert(msgs.push(m).drop_first() =~= msgs.drop_first().push(m));
    }
}

/// Route one message into the shared task state.
fn route_msg(mgr: &mut TaskMgr, m: Msg)
    ensures
        final(mgr).data@ == route(old(mgr).data@, m),
        final(mgr).tasks == old(mgr).tasks,
        final(mgr).sender == old(mgr).sender,
        final(mgr).bsp == old(mgr).bsp,
        final(mgr).metrics == old(mgr).metrics,
        final(mgr).clock == old(mgr).clock,
        final(mgr).stack == old(mgr).stack,
        final(mgr).run_log == old(mgr).run_log,
{
    match m {
        Msg::Empty => {},
        Msg::PttButton(pressed) => {
            mgr.data.chat.ptt = pressed;
            mgr.data.link.ptt = pressed;
        },
        Msg::Keyboard { key } => {
            mgr.data.text_edit.buffer.push(key);
        },
    }
}

/// Drain every message currently queued on `receiver`'s channel and route
/// each into the task state that owns it, in arrival order.  The loop
/// never blocks and takes at most one pass over the queue's capacity.
pub fn process(receiver: Receiver, bus: &mut Bus, mgr: &mut TaskMgr)
    requires
        old(bus).wf(),
        receiver.wf(),
    ensures
        final(bus).wf(),
        final(bus).allocated_spec() == old(bus).allocated_spec(),
        final(bus).channels() == old(bus).channels().update(
            receiver.ch_spec() as int,
            Seq::<Msg>::empty(),
        ),
        final(mgr).data@ == route_all(
            old(mgr).data@,
            old(bus).channels()[receiver.ch_spec() as int],
        ),
        final(mgr).tasks == old(mgr).tasks,
        final(mgr).sender == old(mgr).sender,
        final(mgr).bsp == old(mgr).bsp,
        final(mgr).metrics == old(mgr).metrics,
        final(mgr).clock == old(mgr).clock,
        final(mgr).stack == old(mgr).stack,
        final(mgr).run_log == old(mgr).run_log,
{
    let ghost ch = receiver.ch_spec() as int;
    let ghost q0 = old(bus).channels()[ch];
    let ghost mut k: int = 0;
    proof {
        crate::channel::lemma_bus_wf_facts(bus);
        assert(q0.skip(0) =~= q0);
        assert(bus.channels() =~= old(bus).channels().update(ch, q0.skip(0)));
        assert(q0.take(0) =~= Seq::<Msg>::empty());
    }
    loop
        invariant
            bus.wf(),
            receiver.wf(),
            bus.allocated_spec() == old(bus).allocated_spec(),
            0 <= k <= q0.len(),
            ch == receiver.ch_spec() as int,
            old(bus).channels().len() == NUM_QUEUES,
            q0 == old(bus).channels()[ch],
            bus.channels() == old(bus).channels().update(ch, q0.skip(k)),
            mgr.data@ == route_all(old(mgr).data@, q0.take(k)),
            mgr.tasks == old(mgr).tasks,
            mgr.sender == old(mgr).sender,
            mgr.bsp == old(mgr).bsp,
            mgr.metrics == old(mgr).metrics,
            mgr.clock == old(mgr).clock,
            mgr.stack == old(mgr).stack,
            mgr.run_log == old(mgr).run_log,
        ensures
            k == q0.len(),
            bus.wf(),
            bus.allocated_spec() == old(bus).allocated_spec(),
            bus.channels() == old(bus).channels().update(ch, q0.skip(k)),
            mgr.data@ == route_all(old(mgr).data@, q0.take(k)),
            mgr.tasks == old(mgr).tasks,
            mgr.sender == old(mgr).sender,
            mgr.bsp == old(mgr).bsp,
            mgr.metrics == old(mgr).metrics,
            mgr.clock == old(mgr).clock,
            mgr.stack == old(mgr).stack,
            mgr.run_log == old(mgr).run_log,
        decreases q0.len() - k,
    {
        proof {
            crate::channel::lemma_bus_wf_facts(bus);
            if q0.skip(k).len() > 0 {
                assert(bus.channels()[ch] == q0.skip(k));
                assert(bus.channels()[ch][0] != Msg::Empty);
            }
        }
        let m = receiver.recv(bus);
        if let Msg::Empty = m {
            proof {
                assert(q0.skip(k).len() == 0);
                assert(k == q0.len());
            }
            break ;
        }
        proof {
            assert(q0.skip(k).len() > 0);
            assert(m == q0.skip(k)[0]);
            assert(q0.skip(k)[0] == q0[k]);
            assert(q0.skip(k).drop_first() =~= q0.skip(k + 1));
            assert(bus.channels() =~= old(bus).channels().update(ch, q0.skip(k + 1)));
        }
        route_msg(mgr, m);
        proof {
            lemma_route_all_snoc(old(mgr).data@, q0.take(k), m);
            assert(q0.take(k).push(q0[k]) =~= q0.take(k + 1));
            k = k + 1;
        }
    }
    proof {
        assert(q0.skip(q0.len() as int) =~= Seq::<Msg>::empty());
        assert(q0.take(q0.len() as int) =~= q0);
    }
}

} // verus!
