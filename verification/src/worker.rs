//! The worker's per-request protocol and its steady-state loop.
//!
//! Per request the worker, strictly in sequence: dequeues, creates a session
//! seeded with the prompt, invokes the engine, extracts the reply the engine
//! produced for that session's identifier, hands the reply to the request's
//! correlator, and destroys the session. The engine itself is the caller's
//! opaque capability: the worker receives its output — replies keyed by
//! session identifier — as a value and is verified for every value of it.

use vstd::prelude::*;

use crate::queue::{BoundedQueue, DequeueResult};
use crate::session::SessionStore;

verus! {

/// The reply an engine output holds for one session identifier: the text of
/// the first entry keyed by it, or nothing when the engine produced no entry
/// for that session.
pub open spec fn response_for(out: Seq<(u64, String)>, id: u64) -> Option<Seq<char>>
    decreases out.len(),
{
    if out.len() == 0 {
        None
    } else if out[0].0 == id {
        Some(out[0].1@)
    } else {
        response_for(out.drop_first(), id)
    }
}

/// A reply agrees with an engine output: it is the text the output holds for
/// the session's identifier, or absent when the output holds none.
pub open spec fn reply_matches(reply: Option<String>, out: Seq<(u64, String)>, id: u64) -> bool {
    match reply {
        Some(t) => response_for(out, id) == Some(t@),
        None => response_for(out, id) is None,
    }
}

/// Close one request–response cycle: extract from the engine's output the
/// reply produced for this session, then destroy the session. Whatever the
/// engine produced, the store ends with no trace of the session — an engine
/// that yielded nothing for it surfaces as an absent reply, never as a fault
/// and never as a leak.
pub fn finish_request(store: &mut SessionStore, id: u64, out: &Vec<(u64, String)>) -> (reply:
    Option<String>)
    requires
        old(store).wf(),
    ensures
        final(store).wf(),
        !final(store).contains_id(id),
        final(store).fresh_id() == old(store).fresh_id(),
        old(store).contains_id(id) ==> final(store).is_idle(),
        !old(store).contains_id(id) ==> final(store).live() == old(store).live(),
        reply_matches(reply, out@, id),
{
    let n = out.len();
    let mut i: usize = 0;
    let mut reply: Option<String> = None;
    proof {
        assert(out@.skip(0) =~= out@);
    }
    while i < n && reply.is_none()
        invariant
            n == out@.len(),
            i <= n,
            match reply {
                Some(t) => response_for(out@, id) == Some(t@),
                None => response_for(out@, id) == response_for(out@.skip(i as int), id),
            },
        decreases n - i,
    {
        proof {
            assert(out@.skip(i as int)[0] == out@[i as int]);
            assert(out@.skip(i as int).drop_first() =~= out@.skip(i as int + 1));
        }
        if out[i].0 == id {
            reply = Some(out[i].1.clone());
        }
        i += 1;
    }
    proof {
        if reply is None {
            assert(out@.skip(n as int) =~= Seq::<(u64, String)>::empty());
        }
    }
    store.remove(id);
    reply
}

/// The worker loop's steady state, run to completion: with every producer
/// gone, serve each queued request strictly in arrival order — create a
/// session seeded with the prompt, take the engine's output for that step
/// (the caller, who owns the engine, supplies one output per request),
/// extract the session's reply, destroy the session — then stop on the
/// drained, closed queue.
///
/// The contract pins the whole run: exactly one reply per queued request;
/// the k-th reply is correlated to the k-th enqueued request (FIFO); the
/// k-th reply is what the engine's k-th output held for the k-th session's
/// identifier; and the store is idle when the loop stops — no session
/// outlives its request.
pub fn drain(
    queue: &mut BoundedQueue,
    store: &mut SessionStore,
    outputs: &Vec<Vec<(u64, String)>>,
) -> (replies: Vec<(u64, Option<String>)>)
    requires
        old(queue).wf(),
        !old(queue).is_open(),
        old(store).wf(),
        old(store).is_idle(),
        outputs@.len() == old(queue).contents().len(),
        old(store).fresh_id() + old(queue).contents().len() <= u64::MAX,
    ensures
        final(queue).wf(),
        final(queue).contents().len() == 0,
        final(store).wf(),
        final(store).is_idle(),
        replies@.len() == old(queue).contents().len(),
        forall|k: int|
            0 <= k < replies@.len() ==> replies@[k].0 == old(queue).contents()[k].correlator,
        forall|k: int|
            0 <= k < replies@.len() ==> #[trigger] reply_matches(
                replies@[k].1,
                outputs@[k]@,
                (old(store).fresh_id() + k) as u64,
            ),
{
    let ghost q0 = queue.contents();
    let ghost id0 = store.fresh_id();
    let mut replies: Vec<(u64, Option<String>)> = Vec::new();
    let mut going = true;
    while going
        invariant
            queue.wf(),
            !queue.is_open(),
            store.wf(),
            store.is_idle(),
            outputs@.len() == q0.len(),
            id0 + q0.len() <= u64::MAX,
            store.fresh_id() == id0 + replies@.len(),
            replies@.len() + queue.contents().len() == q0.len(),
            queue.contents() =~= q0.skip(replies@.len() as int),
            !going ==> queue.contents().len() == 0,
            forall|k: int| 0 <= k < replies@.len() ==> replies@[k].0 == q0[k].correlator,
            forall|k: int|
                0 <= k < replies@.len() ==> #[trigger] reply_matches(
                    replies@[k].1,
                    outputs@[k]@,
                    (id0 + k) as u64,
                ),
        decreases queue.contents().len(), (if going { 1int } else { 0int }),
    {
        let ghost done = replies@.len() as int;
        match queue.dequeue() {
            DequeueResult::Item(req) => {
                proof {
                    assert(q0.skip(done)[0] == q0[done]);
                    assert(q0.skip(done).drop_first() =~= q0.skip(done + 1));
                }
                let correlator = req.correlator;
                let id = store.create(req.prompt);
                let reply = finish_request(store, id, &outputs[replies.len()]);
                replies.push((correlator, reply));
            },
            DequeueResult::Empty => {
                // A queue with no producer left never asks the worker to
                // wait: it yields its remainder and then reports closure.
                proof {
                    assert(false);
                }
                going = false;
            },
            DequeueResult::Closed => {
                going = false;
            },
        }
    }
    replies
}

} // verus!
