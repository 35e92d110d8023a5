//! A frame graph: orders GPU render passes by their declared dependencies,
//! wires intermediate render targets between passes, and batches per-pass
//! draw submission by material.
//!
//! The graph itself is pure bookkeeping: a frame is rendered by producing a
//! command list (plain data) that an unverified GPU backend replays against
//! the graphics device.

mod error;

pub mod batch;
pub mod command;
pub mod graph;
pub mod pass;
pub mod pipeline;
pub mod pipelines;
pub mod scene;
pub mod scheduler;
pub mod target;

pub use error::GraphError;
