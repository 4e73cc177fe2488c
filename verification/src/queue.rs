//! The bounded FIFO event queue between the edge monitors and the
//! aggregator.
//!
//! A send on a full queue changes nothing and reports so: the caller that
//! runs the producer task suspends and retries instead of dropping the
//! event (backpressure). A receive takes the oldest event; together the two
//! contracts give FIFO delivery, each event exactly once.

use vstd::prelude::*;
use crate::event::Event;
use crate::QUEUE_CAP;

verus! {

pub struct EventQueue {
    items: Vec<Event>,
}

impl EventQueue {
    /// The queued events, oldest first.
    pub closed spec fn contents(&self) -> Seq<Event> {
        self.items@
    }

    /// The queue never holds more than its capacity.
    pub open spec fn wf(&self) -> bool {
        self.contents().len() <= QUEUE_CAP
    }

    /// A fresh, empty queue.
    pub fn new() -> (q: EventQueue)
        ensures
            q.contents() =~= Seq::<Event>::empty(),
            q.wf(),
    {
        EventQueue { items: Vec::new() }
    }

    /// Enqueues at the back when there is room; on a full queue changes
    /// nothing and returns false so that the producer can suspend.
    pub fn try_send(&mut self, e: Event) -> (ok: bool)
        requires
            old(self).wf(),
        ensures
            final(self).wf(),
            old(self).contents().len() < QUEUE_CAP ==> ok && final(self).contents()
                =~= old(self).contents().push(e),
            old(self).contents().len() >= QUEUE_CAP ==> !ok && final(self).contents()
                =~= old(self).contents(),
    {
        if self.items.len() < QUEUE_CAP {
            self.items.push(e);
            true
        } else {
            false
        }
    }

    /// Dequeues the oldest event, or returns `None` on an empty queue so
    /// that the consumer can suspend.
    pub fn try_recv(&mut self) -> (r: Option<Event>)
        requires
            old(self).wf(),
        ensures
            final(self).wf(),
            old(self).contents().len() > 0 ==> r == Some(old(self).contents()[0])
                && final(self).contents() =~= old(self).contents().drop_first(),
            old(self).contents().len() == 0 ==> r is None && final(self).contents()
                =~= old(self).contents(),
    {
        if self.items.len() > 0 {
            let e = self.items.remove(0);
            Some(e)
        } else {
            None
        }
    }

    /// How many events are waiting.
    pub fn len(&self) -> (n: usize)
        ensures
            n == self.contents().len(),
    {
        self.items.len()
    }
}

/// The order in which consecutive receives hand the queued events out,
/// per the contract of `try_recv`: the head first, then the rest.
pub open spec fn drain_order(s: Seq<Event>) -> Seq<Event>
    decreases s.len(),
{
    if s.len() == 0 {
        Seq::empty()
    } else {
        seq![s[0]] + drain_order(s.drop_first())
    }
}

/// Every queued event is received exactly once and in FIFO order: draining
/// the queue by consecutive receives yields exactly the sequence that the
/// sends enqueued, with nothing repeated, dropped or reordered.
pub proof fn lemma_drain_is_fifo(s: Seq<Event>)
    ensures
        drain_order(s) =~= s,
    decreases s.len(),
{
    if s.len() > 0 {
        lemma_drain_is_fifo(s.drop_first());
    }
}

/// Two events sent while there is room come out in send order: after the
/// prior contents, first `a`, then `b`.
pub proof fn lemma_send_order_is_receive_order(s: Seq<Event>, a: Event, b: Event)
    requires
        s.len() + 2 <= QUEUE_CAP,
    ensures
        drain_order(s.push(a).push(b))[s.len() as int] == a,
        drain_order(s.push(a).push(b))[s.len() as int + 1] == b,
{
    lemma_drain_is_fifo(s.push(a).push(b));
}

} // verus!
