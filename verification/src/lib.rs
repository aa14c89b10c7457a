//! Setup layer for a minimal GPU renderer: selects an adapter compatible with
//! a presentation surface, acquires a logical device and queue, builds an
//! empty pipeline layout and a fixed-function graphics pipeline from two
//! precompiled shader blobs, and records one clearing render pass per frame.
//!
//! The fixed configuration (clear color, topology, color target format, and
//! so on) is held in plain-value configuration types whose construction is
//! verified; the GPU driver itself is reached through a small trusted
//! boundary.

pub mod config;
pub mod context;
pub mod gpu;
pub mod init;
pub mod render;
