use vstd::prelude::*;

verus! {

/// Failures reported by the resource and frame layer.
#[derive(Debug, Clone, Copy, PartialEq, Eq, Structural)]
pub enum GpuError {
    /// The device is gone; nothing can be recovered.
    DeviceLost,
    /// A memory request did not fit in what the allocator has left.
    OutOfMemory,
    /// The swapchain no longer matches the surface and must be rebuilt.
    SwapchainOutOfDate,
    /// A transition named a source state other than the tracked one.
    StaleResourceState,
    /// A host write was asked of memory that the host cannot see.
    NotHostVisible,
    /// A write would run past the end of the buffer.
    DataTooLarge,
    /// An allocation that the allocator does not hold was handed back.
    UnknownAllocation,
    /// The frame slot still holds a submission that has not retired.
    FrameInFlight,
    /// A frame operation came in the wrong phase of the frame protocol.
    InvalidFrameState,
    /// A resource index outside the tracked set.
    UnknownResource,
}

} // verus!
