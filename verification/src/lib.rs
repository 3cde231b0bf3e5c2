//! A serialized worker bridge: unboundedly many concurrent callers hand
//! prompts to a single worker that exclusively owns an expensive, stateful
//! response engine. Requests travel through a bounded FIFO queue and each
//! reply returns to its originator through a private correlation slot.
//!
//! The modules here state and verify the bridge's moving parts over plain
//! data: the queue and its backpressure policy, the session store and its
//! one-live-session discipline, the worker's per-request protocol, the
//! caller-side request lifecycle, and the gateway's message filter. The
//! channels, threads and gateway client that carry these values at run time
//! live in the surrounding application, outside this library.

pub mod gateway;
pub mod queue;
pub mod request;
pub mod session;
pub mod worker;
