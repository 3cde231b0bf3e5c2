use mlchat::gateway::{fallback_reply, should_respond};
use mlchat::queue::{BoundedQueue, DequeueResult, EnqueueResult, QUEUE_CAPACITY};
use mlchat::request::{outcome, step, write_reply, BridgeEvent, ReplySlot, Request, RequestPhase};
use mlchat::session::SessionStore;
use mlchat::worker::{drain, finish_request};

fn req(prompt: &str, correlator: u64) -> Request {
    Request {
        prompt: prompt.to_string(),
        correlator,
    }
}

#[test]
fn echo_uppercase_reply() {
    // A stub engine that echoes the prompt uppercased answers "hello" with
    // Some("HELLO").
    let mut store = SessionStore::new();
    let id = store.create("hello".to_string());
    let out = vec![(id, "HELLO".to_string())];
    let reply = finish_request(&mut store, id, &out);
    assert_eq!(reply, Some("HELLO".to_string()));
    assert_eq!(store.count(), 0);
}

#[test]
fn engine_with_nothing_for_session_yields_none() {
    let mut store = SessionStore::new();
    let id = store.create("hello".to_string());
    let out = vec![(id + 1, "stray".to_string())];
    let reply = finish_request(&mut store, id, &out);
    assert_eq!(reply, None);
    assert_eq!(store.count(), 0);
}

#[test]
fn session_gone_after_cycle() {
    let mut store = SessionStore::new();
    let id = store.create("hi".to_string());
    assert!(store.contains(id));
    assert_eq!(store.count(), 1);
    let reply = finish_request(&mut store, id, &vec![(id, "yo".to_string())]);
    assert_eq!(reply, Some("yo".to_string()));
    assert!(!store.contains(id));
    assert_eq!(store.count(), 0);
}

#[test]
fn session_ids_never_reused() {
    let mut store = SessionStore::new();
    let a = store.create("one".to_string());
    store.remove(a);
    let b = store.create("two".to_string());
    assert_eq!(a, 0);
    assert_eq!(b, 1);
    assert!(!store.contains(a));
    assert!(store.contains(b));
}

#[test]
fn two_prompts_answered_in_order() {
    // Two prompts against an engine that echoes: both resolve to their own
    // reply, served strictly in enqueue order.
    let mut q = BoundedQueue::new(QUEUE_CAPACITY);
    assert!(matches!(q.enqueue(req("A", 1)), EnqueueResult::Accepted));
    assert!(matches!(q.enqueue(req("B", 2)), EnqueueResult::Accepted));
    q.close();
    let mut store = SessionStore::new();
    let outputs = vec![vec![(0u64, "A".to_string())], vec![(1u64, "B".to_string())]];
    let replies = drain(&mut q, &mut store, &outputs);
    assert_eq!(replies.len(), 2);
    assert_eq!(replies[0], (1, Some("A".to_string())));
    assert_eq!(replies[1], (2, Some("B".to_string())));
    assert_eq!(store.count(), 0);
    assert_eq!(q.len(), 0);
}

#[test]
fn drain_surfaces_absent_replies() {
    let mut q = BoundedQueue::new(4);
    assert!(matches!(q.enqueue(req("A", 10)), EnqueueResult::Accepted));
    assert!(matches!(q.enqueue(req("B", 20)), EnqueueResult::Accepted));
    q.close();
    let mut store = SessionStore::new();
    // The engine produces something for the first session only.
    let outputs = vec![vec![(0u64, "answer".to_string())], vec![]];
    let replies = drain(&mut q, &mut store, &outputs);
    assert_eq!(replies[0], (10, Some("answer".to_string())));
    assert_eq!(replies[1], (20, None));
}

#[test]
fn fifo_dequeue_order() {
    let mut q = BoundedQueue::new(8);
    for (p, c) in [("A", 1u64), ("B", 2), ("C", 3)] {
        assert!(matches!(q.enqueue(req(p, c)), EnqueueResult::Accepted));
    }
    for expect in [1u64, 2, 3] {
        match q.dequeue() {
            DequeueResult::Item(r) => assert_eq!(r.correlator, expect),
            _ => panic!("queue should still hold requests"),
        }
    }
    assert!(matches!(q.dequeue(), DequeueResult::Empty));
}

#[test]
fn backpressure_at_capacity() {
    // With capacity 2, the third concurrent offer is held back (not dropped,
    // not an error) until a dequeue frees a slot.
    let mut q = BoundedQueue::new(2);
    assert!(matches!(q.enqueue(req("A", 1)), EnqueueResult::Accepted));
    assert!(matches!(q.enqueue(req("B", 2)), EnqueueResult::Accepted));
    assert!(matches!(q.enqueue(req("C", 3)), EnqueueResult::Full));
    match q.dequeue() {
        DequeueResult::Item(r) => assert_eq!(r.correlator, 1),
        _ => panic!("queue was not empty"),
    }
    assert!(matches!(q.enqueue(req("C", 3)), EnqueueResult::Accepted));
    assert_eq!(q.len(), 2);
}

#[test]
fn closed_queue_refuses_new_requests() {
    let mut q = BoundedQueue::new(4);
    q.close();
    assert!(matches!(q.enqueue(req("late", 9)), EnqueueResult::Closed));
    assert!(matches!(q.dequeue(), DequeueResult::Closed));
}

#[test]
fn closed_queue_still_drains_remainder() {
    let mut q = BoundedQueue::new(4);
    assert!(matches!(q.enqueue(req("A", 1)), EnqueueResult::Accepted));
    q.close();
    match q.dequeue() {
        DequeueResult::Item(r) => assert_eq!(r.correlator, 1),
        _ => panic!("the remainder must still come out"),
    }
    assert!(matches!(q.dequeue(), DequeueResult::Closed));
}

#[test]
fn default_capacity_is_one_hundred() {
    assert_eq!(QUEUE_CAPACITY, 100);
}

#[test]
fn failed_initialization_resolves_to_none() {
    // When the engine never comes up, the queue's receive side is gone: the
    // enqueue reports closure and the caller gets None, not a fault.
    let p = step(RequestPhase::Created, BridgeEvent::EnqueueClosed);
    assert!(matches!(p, RequestPhase::Abandoned));
    assert_eq!(outcome(p), None);
}

#[test]
fn crash_mid_request_resolves_to_none() {
    let p = step(RequestPhase::Created, BridgeEvent::EnqueueAccepted);
    assert!(matches!(p, RequestPhase::Enqueued));
    let p = step(p, BridgeEvent::BeginAwait);
    assert!(matches!(p, RequestPhase::AwaitingReply));
    let p = step(p, BridgeEvent::WriterDropped);
    assert!(matches!(p, RequestPhase::Abandoned));
    assert_eq!(outcome(p), None);
}

#[test]
fn answered_request_resolves_to_text() {
    let p = step(RequestPhase::Created, BridgeEvent::EnqueueAccepted);
    let p = step(p, BridgeEvent::BeginAwait);
    let p = step(p, BridgeEvent::ReplyWritten(Some("HELLO".to_string())));
    assert!(matches!(p, RequestPhase::Answered(_)));
    assert_eq!(outcome(p), Some("HELLO".to_string()));
}

#[test]
fn explicit_empty_reply_is_answered_none() {
    let p = step(RequestPhase::AwaitingReply, BridgeEvent::ReplyWritten(None));
    assert!(matches!(p, RequestPhase::Answered(None)));
    assert_eq!(outcome(p), None);
}

#[test]
fn reply_reaches_a_waiting_reader() {
    let slot = ReplySlot::Unwritten {
        reader_waiting: true,
    };
    let slot = write_reply(slot, Some("HELLO".to_string()));
    match slot {
        ReplySlot::Delivered(v) => assert_eq!(v, Some("HELLO".to_string())),
        _ => panic!("a waiting reader must observe the written value"),
    }
}

#[test]
fn reply_to_a_gone_reader_is_discarded_silently() {
    let slot = ReplySlot::Unwritten {
        reader_waiting: false,
    };
    let slot = write_reply(slot, Some("late".to_string()));
    assert!(matches!(slot, ReplySlot::Discarded));
}

#[test]
fn gateway_answers_plain_human_messages() {
    assert!(should_respond("hello", false));
    assert!(should_respond(">x", false));
}

#[test]
fn gateway_ignores_commands_bots_and_empty() {
    assert!(!should_respond(">>ping", false));
    assert!(!should_respond(">>", false));
    assert!(!should_respond("", false));
    assert!(!should_respond("hello", true));
}

#[test]
fn gateway_falls_back_when_bridge_has_nothing() {
    assert_eq!(fallback_reply(None), "<no response>".to_string());
    assert_eq!(
        fallback_reply(Some("an answer".to_string())),
        "an answer".to_string()
    );
}
