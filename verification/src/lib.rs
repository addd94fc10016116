//! A log-distribution pipeline: a bounded replay buffer with broadcast
//! fan-out, a lifecycle supervisor with single initialization and coordinated
//! shutdown, a cancellation-aware fan-out service, a reconnecting client with
//! backoff, and a bounded cursor-addressable live view.
//!
//! Everything here is in-memory, per-process state. The byte transports, the
//! terminal renderer, and the logging-framework adapter that surround this
//! pipeline are thin I/O shells kept outside the library.

pub mod client;
pub mod config;
pub mod fanout;
pub mod history;
pub mod lifecycle;
pub mod live_list;
pub mod mailbox;
pub mod record;
pub mod writer;
