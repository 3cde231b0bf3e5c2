//! The bounded request queue: a fixed-capacity FIFO carrying requests from
//! any number of producers to the single worker.
//!
//! The model makes the queue's policy exact: a full queue accepts nothing —
//! it neither drops nor errors, the producer simply cannot place the request
//! until a dequeue frees a slot (the channel that carries this queue at run
//! time suspends the producer for exactly that interval). A closed queue
//! refuses new requests but still hands out what it holds, and reports
//! closure only once drained, at which point the worker terminates.

use vstd::prelude::*;

use crate::request::Request;

verus! {

/// How many requests may be outstanding at once.
pub const QUEUE_CAPACITY: usize = 100;

/// What the queue did with an offered request.
pub enum EnqueueResult {
    /// The request now sits at the back of the queue.
    Accepted,
    /// The queue is at capacity; the producer must wait for a dequeue and
    /// offer the request again. Nothing was dropped.
    Full,
    /// The receive side is gone; the request will never be taken.
    Closed,
}

/// What the worker received when asking for the next request.
pub enum DequeueResult {
    /// The request that has waited longest.
    Item(Request),
    /// Nothing queued, but producers remain; the worker must wait.
    Empty,
    /// Every producer is gone and the queue is drained; the worker stops.
    Closed,
}

/// Fixed-capacity FIFO of pending requests.
pub struct BoundedQueue {
    items: Vec<Request>,
    capacity: usize,
    open: bool,
}

impl BoundedQueue {
    /// The pending requests, oldest first.
    pub closed spec fn contents(self) -> Seq<Request> {
        self.items@
    }

    /// The fixed capacity chosen at construction.
    pub closed spec fn cap(self) -> nat {
        self.capacity as nat
    }

    /// Whether any producer handle still exists.
    pub closed spec fn is_open(self) -> bool {
        self.open
    }

    /// The queue never holds more than its capacity.
    pub open spec fn wf(self) -> bool {
        self.cap() >= 1 && self.contents().len() <= self.cap()
    }

    /// An offered request goes in exactly when the queue is open and below
    /// capacity.
    pub open spec fn can_accept(self) -> bool {
        self.is_open() && self.contents().len() < self.cap()
    }

    /// An empty, open queue of the given capacity.
    pub fn new(capacity: usize) -> (q: BoundedQueue)
        requires
            capacity >= 1,
        ensures
            q.wf(),
            q.is_open(),
            q.cap() == capacity,
            q.contents() =~= Seq::<Request>::empty(),
    {
        BoundedQueue { items: Vec::new(), capacity, open: true }
    }

    /// How many requests are pending.
    pub fn len(&self) -> (n: usize)
        ensures
            n == self.contents().len(),
    {
        self.items.len()
    }

    /// Offer one request. The request is taken exactly when the queue can
    /// accept it; a full or closed queue returns the queue unchanged.
    pub fn enqueue(&mut self, r: Request) -> (res: EnqueueResult)
        requires
            old(self).wf(),
        ensures
            final(self).wf(),
            final(self).cap() == old(self).cap(),
            final(self).is_open() == old(self).is_open(),
            match res {
                EnqueueResult::Accepted => old(self).can_accept() && final(self).contents()
                    =~= old(self).contents().push(r),
                EnqueueResult::Full => old(self).is_open() && !old(self).can_accept()
                    && final(self).contents() == old(self).contents(),
                EnqueueResult::Closed => !old(self).is_open() && final(self).contents() == old(
                    self,
                ).contents(),
            },
    {
        if !self.open {
            EnqueueResult::Closed
        } else if self.items.len() == self.capacity {
            EnqueueResult::Full
        } else {
            self.items.push(r);
            EnqueueResult::Accepted
        }
    }

    /// Take the request that has waited longest. A closed queue still yields
    /// its remaining requests and reports closure only once drained.
    pub fn dequeue(&mut self) -> (res: DequeueResult)
        requires
            old(self).wf(),
        ensures
            final(self).wf(),
            final(self).cap() == old(self).cap(),
            final(self).is_open() == old(self).is_open(),
            match res {
                DequeueResult::Item(r) => old(self).contents().len() > 0 && r == old(
                    self,
                ).contents()[0] && final(self).contents() =~= old(self).contents().drop_first(),
                DequeueResult::Empty => old(self).is_open() && old(self).contents().len() == 0
                    && final(self).contents() == old(self).contents(),
                DequeueResult::Closed => !old(self).is_open() && old(self).contents().len() == 0
                    && final(self).contents() == old(self).contents(),
            },
    {
        if self.items.len() > 0 {
            let r = self.items.remove(0);
            proof {
                assert(self.items@ =~= old(self).items@.drop_first());
            }
            DequeueResult::Item(r)
        } else if self.open {
            DequeueResult::Empty
        } else {
            DequeueResult::Closed
        }
    }

    /// The last producer handle is gone: nothing more will be accepted, and
    /// once the remainder is drained, dequeue reports closure.
    pub fn close(&mut self)
        requires
            old(self).wf(),
        ensures
            final(self).wf(),
            !final(self).is_open(),
            final(self).cap() == old(self).cap(),
            final(self).contents() == old(self).contents(),
    {
        self.open = false;
    }
}

/// Backpressure: a queue holding as many requests as its capacity accepts
/// nothing more, and the moment one request is dequeued it can accept again.
/// A producer that keeps offering is therefore suspended across exactly the
/// interval in which the queue stands at capacity — the request is never
/// dropped and never turned into an error.
pub proof fn lemma_backpressure(q0: BoundedQueue, q1: BoundedQueue)
    requires
        q0.wf(),
        q0.is_open(),
        q0.contents().len() == q0.cap(),
        q1.wf(),
        q1.is_open(),
        q1.cap() == q0.cap(),
        q1.contents() =~= q0.contents().drop_first(),
    ensures
        !q0.can_accept(),
        q1.can_accept(),
{
}

/// FIFO: dequeuing never reorders. Starting from queue contents `s`, the
/// k-th dequeue returns `s[k]` and leaves the requests after it, so a
/// request enqueued strictly before another is always dequeued — and hence
/// handed to the worker — strictly before it.
pub proof fn lemma_fifo(s: Seq<Request>, k: int)
    requires
        0 <= k < s.len(),
    ensures
        s.skip(k).len() == s.len() - k,
        s.skip(k)[0] == s[k],
        s.skip(k).drop_first() =~= s.skip(k + 1),
{
}

} // verus!
