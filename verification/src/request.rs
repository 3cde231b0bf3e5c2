//! One request's journey through the bridge, as the caller sees it.
//!
//! A request is created, enqueued, awaited, and finally either answered or
//! abandoned. Both terminal phases resolve the caller's pending call to a
//! concrete optional reply: a lost worker surfaces as an absent reply, never
//! as a fault and never as a permanent hang.

use vstd::prelude::*;

verus! {

/// One unit of work handed from a caller to the worker: the prompt text and
/// the correlator under which the reply returns to its originator.
pub struct Request {
    pub prompt: String,
    pub correlator: u64,
}

/// The caller-side lifecycle of one request.
pub enum RequestPhase {
    /// The reply slot exists; nothing has been sent yet.
    Created,
    /// The request was accepted by the queue.
    Enqueued,
    /// The caller is suspended on the reply slot.
    AwaitingReply,
    /// The worker wrote a result into the reply slot.
    Answered(Option<String>),
    /// The queue was closed before dequeue, or the worker vanished without
    /// writing; the caller resolves to an absent reply.
    Abandoned,
}

/// What the bridge observes about one request.
pub enum BridgeEvent {
    /// The queue took the request.
    EnqueueAccepted,
    /// The queue's receive side is gone; the request was never taken.
    EnqueueClosed,
    /// The caller starts waiting on the reply slot.
    BeginAwait,
    /// The worker wrote this result into the reply slot.
    ReplyWritten(Option<String>),
    /// The worker dropped the write half without writing.
    WriterDropped,
}

/// The request lifecycle's transition relation. Events that do not apply to
/// a phase leave it unchanged; terminal phases absorb every event.
pub open spec fn spec_step(p: RequestPhase, e: BridgeEvent) -> RequestPhase {
    match (p, e) {
        (RequestPhase::Created, BridgeEvent::EnqueueAccepted) => RequestPhase::Enqueued,
        (RequestPhase::Created, BridgeEvent::EnqueueClosed) => RequestPhase::Abandoned,
        (RequestPhase::Enqueued, BridgeEvent::BeginAwait) => RequestPhase::AwaitingReply,
        (RequestPhase::AwaitingReply, BridgeEvent::ReplyWritten(t)) => RequestPhase::Answered(t),
        (RequestPhase::AwaitingReply, BridgeEvent::WriterDropped) => RequestPhase::Abandoned,
        (q, _) => q,
    }
}

/// A phase from which the request never moves again.
pub open spec fn is_terminal(p: RequestPhase) -> bool {
    p is Answered || p is Abandoned
}

/// The value a terminal phase hands back to the caller: the written text for
/// an answered request, nothing for an abandoned one.
pub open spec fn spec_outcome(p: RequestPhase) -> Option<String> {
    match p {
        RequestPhase::Answered(t) => t,
        _ => None,
    }
}

/// Advance one request by one observed event.
pub fn step(p: RequestPhase, e: BridgeEvent) -> (r: RequestPhase)
    ensures
        r == spec_step(p, e),
{
    match (p, e) {
        (RequestPhase::Created, BridgeEvent::EnqueueAccepted) => RequestPhase::Enqueued,
        (RequestPhase::Created, BridgeEvent::EnqueueClosed) => RequestPhase::Abandoned,
        (RequestPhase::Enqueued, BridgeEvent::BeginAwait) => RequestPhase::AwaitingReply,
        (RequestPhase::AwaitingReply, BridgeEvent::ReplyWritten(t)) => RequestPhase::Answered(t),
        (RequestPhase::AwaitingReply, BridgeEvent::WriterDropped) => RequestPhase::Abandoned,
        (q, _) => q,
    }
}

/// Resolve a finished request to the value its caller receives.
pub fn outcome(p: RequestPhase) -> (r: Option<String>)
    requires
        is_terminal(p),
    ensures
        r == spec_outcome(p),
{
    match p {
        RequestPhase::Answered(t) => t,
        _ => None,
    }
}

/// One reply slot, seen from the worker's write half: a single-producer,
/// single-consumer handoff cell written at most once.
pub enum ReplySlot {
    /// No write has happened; the reader may or may not still be waiting.
    Unwritten { reader_waiting: bool },
    /// The single write happened while the reader was waiting; the reader
    /// observes exactly the written value.
    Delivered(Option<String>),
    /// The single write happened after the reader had given up; the value
    /// was dropped silently.
    Discarded,
}

/// The slot's single write. Delivery is best-effort: a waiting reader
/// observes exactly the written value, and a reader that has given up costs
/// only the value itself — the write succeeds either way, so an abandoned
/// reply is never a fault and never terminates the worker.
pub fn write_reply(slot: ReplySlot, value: Option<String>) -> (r: ReplySlot)
    requires
        slot is Unwritten,
    ensures
        match slot {
            ReplySlot::Unwritten { reader_waiting } => r == (if reader_waiting {
                ReplySlot::Delivered(value)
            } else {
                ReplySlot::Discarded
            }),
            _ => false,
        },
{
    match slot {
        ReplySlot::Unwritten { reader_waiting } => {
            if reader_waiting {
                ReplySlot::Delivered(value)
            } else {
                ReplySlot::Discarded
            }
        },
        _ => ReplySlot::Discarded,
    }
}

/// How far a phase still is from resolution.
pub open spec fn phase_rank(p: RequestPhase) -> nat {
    match p {
        RequestPhase::Created => 3,
        RequestPhase::Enqueued => 2,
        RequestPhase::AwaitingReply => 1,
        RequestPhase::Answered(_) => 0,
        RequestPhase::Abandoned => 0,
    }
}

/// Every request can resolve: from each non-terminal phase some event moves
/// the request strictly closer to a terminal phase, so no phase is a dead
/// end short of resolution. (That the environment eventually delivers such
/// an event is a liveness obligation of the queue and the worker, outside
/// what this model states.)
pub proof fn lemma_request_progress(p: RequestPhase)
    requires
        !is_terminal(p),
    ensures
        exists|e: BridgeEvent| phase_rank(spec_step(p, e)) < phase_rank(p),
{
    match p {
        RequestPhase::Created => {
            assert(phase_rank(spec_step(p, BridgeEvent::EnqueueAccepted)) < phase_rank(p));
        },
        RequestPhase::Enqueued => {
            assert(phase_rank(spec_step(p, BridgeEvent::BeginAwait)) < phase_rank(p));
        },
        RequestPhase::AwaitingReply => {
            assert(phase_rank(spec_step(p, BridgeEvent::WriterDropped)) < phase_rank(p));
        },
        _ => {},
    }
}

/// A vanished worker never strands or faults a caller: a queue that refuses
/// the request as closed, and a writer that disappears mid-flight, both land
/// the request in the abandoned phase, whose outcome is the absent reply.
pub proof fn lemma_worker_loss_resolves_none()
    ensures
        spec_step(RequestPhase::Created, BridgeEvent::EnqueueClosed) == RequestPhase::Abandoned,
        spec_step(RequestPhase::AwaitingReply, BridgeEvent::WriterDropped)
            == RequestPhase::Abandoned,
        is_terminal(RequestPhase::Abandoned),
        spec_outcome(RequestPhase::Abandoned) is None,
{
}

} // verus!
