use rikka_gpu::barrier::{state_info, ResourceState};
use rikka_gpu::buffer::{BufferDesc, MemoryRequirements};
use rikka_gpu::commands::{Command, CommandBuffer};
use rikka_gpu::error::GpuError;
use rikka_gpu::frame::SlotState;
use rikka_gpu::renderer::{AcquireEvent, Extent, FrameStart, Renderer, DEPTH_IMAGE};

fn req(size: u64) -> MemoryRequirements {
    MemoryRequirements { size, alignment: 256 }
}

#[test]
fn out_of_date_recreates_targets_and_keeps_buffers() {
    let mut r = Renderer::new(1 << 24, 2, Extent { width: 800, height: 600 });
    assert!(r.recreate_swapchain(Extent { width: 800, height: 600 }, req(800 * 600 * 4)).is_ok());
    let depth0 = r.depth().unwrap();
    let geometry = r.create_buffer(1, BufferDesc::new().set_size(1000), req(1000)).unwrap();
    let material = r
        .create_buffer(2, BufferDesc::new().set_size(64).set_device_only(false), req(64))
        .unwrap();
    assert_eq!(r.states_mut().state(DEPTH_IMAGE), Some(ResourceState::DepthWrite));

    assert_eq!(r.begin_frame(AcquireEvent::OutOfDate), Ok(FrameStart::RecreateSwapchain));
    assert_eq!(r.frames().slot(0).state, SlotState::Idle);
    assert_eq!(r.frames().frame_count(), 0);

    let extent = Extent { width: 1024, height: 768 };
    let barrier = r.recreate_swapchain(extent, req(1024 * 768 * 4)).unwrap();
    assert_eq!(barrier.image, DEPTH_IMAGE);
    assert_eq!(barrier.old_layout, state_info(ResourceState::Undefined).layout);
    assert_eq!(barrier.new_layout, state_info(ResourceState::DepthWrite).layout);
    assert_eq!(barrier.dst_access, state_info(ResourceState::DepthWrite).access);
    let t = r.targets();
    assert_eq!(t.extent, extent);
    assert_eq!(t.depth_extent, extent);
    assert_eq!(t.viewport, extent);
    assert_eq!(t.generation, 2);
    let depth1 = r.depth().unwrap();
    assert_ne!(depth1.id, depth0.id);
    assert_eq!(depth1.size, 1024 * 768 * 4);
    assert_eq!(r.states_mut().state(DEPTH_IMAGE), Some(ResourceState::DepthWrite));
    assert_eq!(
        r.allocator().total_allocated(),
        geometry.allocation().size + material.allocation().size + depth1.size
    );
    assert_eq!(geometry.raw(), 1);
    assert_eq!(material.raw(), 2);

    assert_eq!(r.begin_frame(AcquireEvent::Acquired { image_index: 1 }), Ok(FrameStart::Render { image_index: 1 }));
    assert_eq!(r.end_frame().map(|f| f.frame), Ok(0));
}

#[test]
fn recreate_without_room_for_depth_fails() {
    let mut r = Renderer::new(1000, 2, Extent { width: 4, height: 4 });
    assert!(r.recreate_swapchain(Extent { width: 4, height: 4 }, req(512)).is_ok());
    // 1000 bytes: the old 512 go back first, so 768 fits but 1024 does not.
    assert!(r.recreate_swapchain(Extent { width: 16, height: 12 }, req(768)).is_ok());
    assert_eq!(r.allocator().total_allocated(), 768);
    assert_eq!(
        r.recreate_swapchain(Extent { width: 64, height: 64 }, req(64 * 64 * 4)),
        Err(GpuError::OutOfMemory)
    );
    assert_eq!(r.states_mut().state(DEPTH_IMAGE), Some(ResourceState::Undefined));
    assert!(r.depth().is_none());
    assert_eq!(r.allocator().total_allocated(), 0);
    assert_eq!(r.targets().extent, Extent { width: 64, height: 64 });
}

#[test]
fn device_lost_on_acquire_is_an_error() {
    let mut r = Renderer::new(1000, 2, Extent { width: 4, height: 4 });
    assert_eq!(r.begin_frame(AcquireEvent::DeviceLost), Err(GpuError::DeviceLost));
    assert_eq!(r.frames().slot(0).state, SlotState::Idle);
    assert!(matches!(r.end_frame(), Err(GpuError::InvalidFrameState)));
}

#[test]
fn destroyed_buffer_memory_returns_after_its_frame_retires() {
    let mut r = Renderer::new(1 << 20, 2, Extent { width: 4, height: 4 });
    let acquired = AcquireEvent::Acquired { image_index: 0 };
    let b = r.create_buffer(5, BufferDesc::new().set_size(300), req(300)).unwrap();
    assert_eq!(r.allocator().total_allocated(), 512);

    // Frame 0 uses the buffer, then it is dropped during frame 0.
    assert_eq!(r.begin_frame(acquired), Ok(FrameStart::Render { image_index: 0 }));
    r.destroy_buffer(b);
    assert_eq!(r.end_frame().map(|f| f.frame), Ok(0));
    assert_eq!(r.pending_deletions(), 1);

    // Frame 1 goes out; frame 0 is still in flight.
    assert_eq!(r.begin_frame(acquired), Ok(FrameStart::Render { image_index: 0 }));
    assert_eq!(r.end_frame().map(|f| f.frame), Ok(1));
    assert_eq!(r.allocator().total_allocated(), 512);

    // Frame 2 needs slot 0: it must wait for frame 0's fence.
    assert_eq!(r.begin_frame(acquired), Err(GpuError::FrameInFlight));
    assert_eq!(r.frames().slot_to_wait(), Some(0));
    assert_eq!(r.retire(3), Err(GpuError::InvalidFrameState));
    assert_eq!(r.retire(0), Ok(0));
    assert_eq!(r.pending_deletions(), 0);
    assert_eq!(r.allocator().total_allocated(), 0);
    assert_eq!(r.retire(0), Err(GpuError::InvalidFrameState));
    assert_eq!(r.begin_frame(acquired), Ok(FrameStart::Render { image_index: 0 }));
}

#[test]
fn deletion_requested_in_later_frame_outlives_earlier_retirement() {
    let mut r = Renderer::new(1 << 20, 2, Extent { width: 4, height: 4 });
    let acquired = AcquireEvent::Acquired { image_index: 0 };
    let b = r.create_buffer(5, BufferDesc::new().set_size(256), req(256)).unwrap();
    assert_eq!(r.begin_frame(acquired), Ok(FrameStart::Render { image_index: 0 }));
    assert_eq!(r.end_frame().map(|f| f.frame), Ok(0));
    assert_eq!(r.begin_frame(acquired), Ok(FrameStart::Render { image_index: 0 }));
    r.destroy_buffer(b);
    assert_eq!(r.end_frame().map(|f| f.frame), Ok(1));
    assert_eq!(r.retire(0), Ok(0));
    assert_eq!(r.pending_deletions(), 1);
    assert_eq!(r.allocator().total_allocated(), 256);
    assert_eq!(r.retire(1), Ok(1));
    assert_eq!(r.pending_deletions(), 0);
    assert_eq!(r.allocator().total_allocated(), 0);
}

fn finished(marker: u64) -> CommandBuffer {
    let mut cb = CommandBuffer::new();
    cb.begin().unwrap();
    cb.record(Command::BindGraphicsPipeline { pipeline: marker }).unwrap();
    cb.end().unwrap();
    cb
}

#[test]
fn queued_command_buffers_go_out_with_their_frame() {
    let mut r = Renderer::new(1 << 20, 2, Extent { width: 4, height: 4 });
    assert_eq!(r.queue_command_buffer(finished(1)), Err(GpuError::InvalidFrameState));
    assert_eq!(r.begin_frame(AcquireEvent::Acquired { image_index: 2 }), Ok(FrameStart::Render { image_index: 2 }));
    let mut open = CommandBuffer::new();
    open.begin().unwrap();
    assert_eq!(r.queue_command_buffer(open), Err(GpuError::InvalidFrameState));
    assert_eq!(r.queue_command_buffer(finished(1)), Ok(()));
    assert_eq!(r.queue_command_buffer(finished(2)), Ok(()));
    let sub = r.end_frame().unwrap();
    assert_eq!(sub.frame, 0);
    assert_eq!(sub.slot, 0);
    assert_eq!(sub.command_buffers.len(), 2);
    assert_eq!(sub.command_buffers[0].commands(), &[Command::BindGraphicsPipeline { pipeline: 1 }]);
    assert_eq!(sub.command_buffers[1].commands(), &[Command::BindGraphicsPipeline { pipeline: 2 }]);

    assert_eq!(r.begin_frame(AcquireEvent::Acquired { image_index: 0 }), Ok(FrameStart::Render { image_index: 0 }));
    let sub = r.end_frame().unwrap();
    assert_eq!((sub.frame, sub.slot), (1, 1));
    assert!(sub.command_buffers.is_empty());
}
