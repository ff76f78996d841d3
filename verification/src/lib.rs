//! Bridge between asynchronous, OS-driven surface lifecycle notifications and a
//! single-threaded, frame-paced loop that owns a native rendering surface.
//!
//! Platform callback threads construct [`command::Command`] values and push them
//! onto a FIFO command channel; the single consumer drains the channel, applies
//! the lifecycle transitions, conditionally ticks the frame engine, and paces
//! itself against a target frame interval. Reclaiming the native window handle
//! is guarded by a release handshake: the producer that announced the surface's
//! destruction may not return until the consumer has detached the handle.
//!
//! The frame engine itself is an external collaborator: the scheduler emits
//! engine actions describing what the engine must do, and the embedding
//! performs them.

pub mod assets;
pub mod channel;
pub mod command;
pub mod context;
pub mod handshake;
pub mod laws;
pub mod lifecycle;
pub mod scheduler;
