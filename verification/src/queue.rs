//! Outbound queue: a bounded FIFO between `send` callers and the single
//! sender loop, closable exactly once during shutdown.

use vstd::prelude::*;

use crate::msg::{Messages, MessagesV};

verus! {

/// Queue bound used when the caller asks for a capacity of zero.
pub const DEFAULT_SNDBUF: usize = 100;

/// Bounded FIFO of outbound messages.
pub struct OutQueue {
    items: Vec<Messages>,
    cap: usize,
    closed: bool,
}

/// Mathematical model of an `OutQueue`: the queued messages in order, the
/// bound, and the close flag.
pub struct OutQueueV {
    pub items: Seq<MessagesV>,
    pub cap: nat,
    pub closed: bool,
}

impl View for OutQueue {
    type V = OutQueueV;

    closed spec fn view(&self) -> OutQueueV {
        OutQueueV {
            items: self.items@.map_values(|m: Messages| m@),
            cap: self.cap as nat,
            closed: self.closed,
        }
    }
}

/// What one enqueue attempt did. `Full` and `Closed` hand the message back.
pub enum TrySendOutcome {
    Sent,
    Full(Messages),
    Closed(Messages),
}

/// What one dequeue attempt produced.
pub enum RecvOutcome {
    /// The oldest queued message.
    Msg(Messages),
    /// Queue open but empty; the consumer waits.
    Pending,
    /// Queue closed and drained.
    Closed,
}

impl OutQueue {
    /// The queue never holds more than its bound.
    pub open spec fn wf(&self) -> bool {
        self@.items.len() <= self@.cap && self@.cap >= 1
    }

    /// An open, empty queue bounded at `sndbufln`, or at the default bound
    /// when `sndbufln` is zero.
    pub fn new(sndbufln: usize) -> (q: Self)
        ensures
            q@.items.len() == 0,
            !q@.closed,
            q@.cap == if sndbufln > 0 {
                sndbufln as nat
            } else {
                DEFAULT_SNDBUF as nat
            },
            q.wf(),
    {
        let cap = if sndbufln > 0 {
            sndbufln
        } else {
            DEFAULT_SNDBUF
        };
        let q = OutQueue { items: Vec::new(), cap, closed: false };
        proof {
            assert(q@.items =~= Seq::<MessagesV>::empty());
        }
        q
    }

    /// How many messages are queued.
    pub fn len(&self) -> (n: usize)
        ensures
            n == self@.items.len(),
    {
        self.items.len()
    }

    /// Whether the queue was closed.
    pub fn is_closed(&self) -> (c: bool)
        ensures
            c == self@.closed,
    {
        self.closed
    }

    /// Enqueues at the tail. Fails without queueing when the queue is closed
    /// (shutdown) or full (back-pressure), handing the message back.
    pub fn try_send(&mut self, m: Messages) -> (r: TrySendOutcome)
        ensures
            old(self)@.closed ==> (r matches TrySendOutcome::Closed(g) && g@ == m@)
                && final(self)@ == old(self)@,
            !old(self)@.closed && old(self)@.items.len() >= old(self)@.cap
                ==> (r matches TrySendOutcome::Full(g) && g@ == m@) && final(self)@ == old(self)@,
            !old(self)@.closed && old(self)@.items.len() < old(self)@.cap ==> r is Sent
                && final(self)@.items == old(self)@.items.push(m@)
                && final(self)@.cap == old(self)@.cap && !final(self)@.closed,
            old(self).wf() ==> final(self).wf(),
    {
        if self.closed {
            return TrySendOutcome::Closed(m);
        }
        if self.items.len() >= self.cap {
            return TrySendOutcome::Full(m);
        }
        let ghost before = self@.items;
        self.items.push(m);
        proof {
            assert(self@.items =~= before.push(m@));
        }
        TrySendOutcome::Sent
    }

    /// Dequeues the oldest message. An empty open queue asks the consumer to
    /// wait; an empty closed queue reports the close.
    pub fn recv(&mut self) -> (r: RecvOutcome)
        ensures
            old(self)@.items.len() > 0 ==> (r matches RecvOutcome::Msg(g)
                && g@ == old(self)@.items.first())
                && final(self)@.items == old(self)@.items.drop_first()
                && final(self)@.cap == old(self)@.cap
                && final(self)@.closed == old(self)@.closed,
            old(self)@.items.len() == 0 ==> final(self)@ == old(self)@
                && (r is Closed <==> old(self)@.closed)
                && (r is Pending <==> !old(self)@.closed),
            old(self).wf() ==> final(self).wf(),
    {
        if self.items.len() > 0 {
            let ghost before = self@.items;
            let m = self.items.remove(0);
            proof {
                assert(self@.items =~= before.drop_first());
            }
            RecvOutcome::Msg(m)
        } else if self.closed {
            RecvOutcome::Closed
        } else {
            RecvOutcome::Pending
        }
    }

    /// Closes the queue; idempotent. Queued messages stay for the consumer
    /// to drain; further sends fail.
    pub fn close(&mut self)
        ensures
            final(self)@.closed,
            final(self)@.items == old(self)@.items,
            final(self)@.cap == old(self)@.cap,
            old(self).wf() ==> final(self).wf(),
    {
        self.closed = true;
    }
}

} // verus!
