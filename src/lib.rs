//! GPU resource and frame-execution layer: buffer descriptions and memory
//! accounting, resource-state tracking with barrier validation, command
//! recording, a ring of frames in flight, deferred destruction, and the
//! renderer that runs the per-frame protocol over them. Device calls stay
//! with the caller; this crate decides what they are and keeps account.
use vstd::prelude::*;

pub mod allocator;
pub mod barrier;
pub mod buffer;
pub mod commands;
pub mod deletion_queue;
pub mod error;
pub mod frame;
pub mod pipeline;
pub mod renderer;

verus! {

} // verus!
