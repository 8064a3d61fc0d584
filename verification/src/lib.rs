//! Core of a minimal real-time rasterizer: the GPU context lifecycle and the
//! per-frame rendering state machine, kept apart from the window and device
//! plumbing that drives it.
//!
//! The library owns the decisions: how a resize request changes the stored
//! swapchain configuration, how keyboard events drive the pipeline-variant
//! toggle, which commands a frame records, and which acquire failures are
//! recoverable. The event-loop driver performs the GPU calls these decisions
//! ask for.

pub mod bindings;
pub mod geometry;
pub mod pipeline;
pub mod render;
pub mod state;
pub mod swapchain;
pub mod toggle;
