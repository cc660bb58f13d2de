//! Verified core of a zero-copy frame-capture pipeline.
//!
//! A graphics application's rendered frames are exported to a media bus as a
//! video source.  This crate holds the verified logic of that pipeline: the
//! wire-level parameter objects and the format negotiation state machine, the
//! exported-buffer pool with its add/remove/process lifecycle, the per-frame
//! capture scheduler with its fence and generation bookkeeping, and the
//! cross-thread message bridge.  The graphics backend and the bus are reached
//! only through narrow interfaces: a backend trait implemented by the caller,
//! and plain data values for everything that crosses the wire.

pub mod backend;
pub mod bridge;
pub mod channel;
pub mod format;
pub mod laws;
pub mod params;
pub mod negotiate;
pub mod parse;
pub mod pool;
pub mod registry;
pub mod select;
pub mod swapchain;
pub mod stream_core;

use vstd::prelude::*;

verus! {

/// Upper bound on exported buffers in one pool: how many frames may be in
/// flight awaiting consumer pickup before the scheduler drops frames.
pub const MAX_BUFFERS: u32 = 64;

/// Capacity of the buffer-processing channel between the submission thread
/// and the bus's real-time thread.
pub const MAX_PROCESS_BUFFERS: usize = 4;

/// Default number of buffers asked of the bus during negotiation.
pub const DEFAULT_BUFFER_COUNT: i32 = 8;

} // verus!
