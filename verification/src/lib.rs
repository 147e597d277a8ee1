//! A per-connection transport layer that turns a raw byte stream into a
//! reliable, heartbeated, bidirectional message channel with framed payloads.
//!
//! The library holds the verified core: the frame model, the wire codec, the
//! stream assembler that re-delimits frames out of arbitrary byte chunks, the
//! bounded outbound queue, the heartbeat/timeout timers, and the session state
//! machine that coordinates them. The surrounding I/O (sockets, task
//! scheduling, clocks) hands this core plain values and carries out the
//! effects the core decides on.

pub mod buffer;
pub mod codec;
pub mod errors;
pub mod maps;
pub mod msg;
pub mod msger;
pub mod queue;
pub mod timer;
