use vstd::prelude::*;

use crate::allocator::{aligned_size, Allocation, MemoryAllocator};
use crate::barrier::{barrier_spec, ImageBarrier, ResourceState, StateTracker};
use crate::commands::{CommandBuffer, CommandBufferState};
use crate::buffer::{is_host_visible, zeroes, Buffer, BufferDesc, BufferLocation, MemoryRequirements};
use crate::deletion_queue::{due, resources, waiting, DeletionQueue, PendingDeletion};
use crate::error::GpuError;
use crate::frame::{FrameOrchestrator, FrameSlot, SlotState};

verus! {

/// Width and height of a surface or image, in pixels.
#[derive(Debug, Clone, Copy, PartialEq, Eq, Structural)]
pub struct Extent {
    pub width: u32,
    pub height: u32,
}

/// What acquiring the next swapchain image gave.
#[derive(Debug, Clone, Copy, PartialEq, Eq, Structural)]
pub enum AcquireEvent {
    Acquired { image_index: u32 },
    OutOfDate,
    DeviceLost,
}

/// What the caller does after `begin_frame`.
#[derive(Debug, Clone, Copy, PartialEq, Eq, Structural)]
pub enum FrameStart {
    /// Record the frame into swapchain image `image_index`.
    Render { image_index: u32 },
    /// The frame was dropped: rebuild the swapchain and what depends on its
    /// extent, then begin again.
    RecreateSwapchain,
}

/// What depends on the swapchain's extent.
#[derive(Debug, Clone, Copy, PartialEq, Eq, Structural)]
pub struct SwapchainTargets {
    pub extent: Extent,
    pub depth_extent: Extent,
    pub viewport: Extent,
    pub generation: u64,
}

/// Whether one of the buffers of `s` holds the allocation `a`.
pub open spec fn released_by(s: Seq<PendingDeletion<Buffer>>, a: Allocation) -> bool {
    exists|k: int| 0 <= k < s.len() && s[k].resource.allocation_spec() == a
}

/// Index of the depth image in the renderer's state tracker.
pub const DEPTH_IMAGE: usize = 0;

/// Owns the allocator, the frame ring, the deletion queue and the targets
/// that follow the swapchain, and runs the per-frame protocol over them.
pub struct Renderer {
    allocator: MemoryAllocator,
    frames: FrameOrchestrator,
    deletions: DeletionQueue<Buffer>,
    targets: SwapchainTargets,
    depth: Option<Allocation>,
    states: StateTracker,
    queued: Vec<CommandBuffer>,
}

/// A frame handed to the device: its index, its slot, and the command
/// buffers to submit, in the order they were queued.
pub struct FrameSubmission {
    pub frame: u64,
    pub slot: usize,
    pub command_buffers: Vec<CommandBuffer>,
}

impl Renderer {
    pub closed spec fn allocator_spec(&self) -> MemoryAllocator {
        self.allocator
    }

    pub closed spec fn frames_spec(&self) -> FrameOrchestrator {
        self.frames
    }

    pub closed spec fn deletions_spec(&self) -> DeletionQueue<Buffer> {
        self.deletions
    }

    pub closed spec fn targets_spec(&self) -> SwapchainTargets {
        self.targets
    }

    /// The memory of the current depth image, if it has any.
    pub closed spec fn depth_spec(&self) -> Option<Allocation> {
        self.depth
    }

    pub closed spec fn states_spec(&self) -> StateTracker {
        self.states
    }

    /// Command buffers queued for the frame being recorded.
    pub closed spec fn queued_spec(&self) -> Seq<CommandBuffer> {
        self.queued@
    }

    pub open spec fn wf(&self) -> bool {
        &&& self.allocator_spec().wf()
        &&& self.frames_spec().wf()
        &&& self.states_spec().states().len() > DEPTH_IMAGE
    }

    /// A renderer with `capacity` bytes of device memory, `frames_in_flight`
    /// frame slots and a swapchain of `extent`, whose depth image is still to
    /// be made (see `recreate_swapchain`).
    pub fn new(capacity: u64, frames_in_flight: usize, extent: Extent) -> (r: Self)
        requires
            frames_in_flight > 0,
        ensures
            r.wf(),
            r.allocator_spec().live() == Seq::<Allocation>::empty(),
            r.allocator_spec().capacity_spec() == capacity,
            r.frames_spec().n() == frames_in_flight,
            r.frames_spec().frame_count_spec() == 0,
            r.deletions_spec().pending().len() == 0,
            r.targets_spec() == (SwapchainTargets {
                extent,
                depth_extent: extent,
                viewport: extent,
                generation: 0,
            }),
            r.depth_spec() is None,
            r.states_spec().states() == seq![ResourceState::Undefined],
            r.queued_spec() == Seq::<CommandBuffer>::empty(),
    {
        let mut states = StateTracker::new();
        let _ = states.track(ResourceState::Undefined);
        assert(states.states() =~= seq![ResourceState::Undefined]);
        Renderer {
            allocator: MemoryAllocator::new(capacity),
            frames: FrameOrchestrator::new(frames_in_flight),
            deletions: DeletionQueue::new(),
            targets: SwapchainTargets { extent, depth_extent: extent, viewport: extent, generation: 0 },
            depth: None,
            states,
            queued: Vec::new(),
        }
    }

    pub fn allocator(&self) -> (r: &MemoryAllocator)
        ensures
            *r == self.allocator_spec(),
    {
        &self.allocator
    }

    pub fn frames(&self) -> (r: &FrameOrchestrator)
        ensures
            *r == self.frames_spec(),
    {
        &self.frames
    }

    pub fn targets(&self) -> (r: SwapchainTargets)
        ensures
            r == self.targets_spec(),
    {
        self.targets
    }

    pub fn depth(&self) -> (r: Option<Allocation>)
        ensures
            r == self.depth_spec(),
    {
        self.depth
    }

    pub fn pending_deletions(&self) -> (r: usize)
        ensures
            r == self.deletions_spec().pending().len(),
    {
        self.deletions.len()
    }

    /// The state tracker of the images the renderer follows.
    pub fn states_mut(&mut self) -> (r: &mut StateTracker)
        ensures
            *r == old(self).states_spec(),
    {
        &mut self.states
    }

    /// Creates a buffer on the device handle `raw` from the renderer's memory.
    pub fn create_buffer(&mut self, raw: u64, desc: BufferDesc, requirements: MemoryRequirements) -> (r:
        Result<Buffer, GpuError>)
        requires
            old(self).wf(),
            requirements.alignment > 0,
        ensures
            final(self).wf(),
            final(self).frames_spec() == old(self).frames_spec(),
            final(self).targets_spec() == old(self).targets_spec(),
            final(self).depth_spec() == old(self).depth_spec(),
            r.is_err() <==> old(self).allocator_spec().refuses(
                requirements.size,
                requirements.alignment,
            ),
            r.is_err() ==> r == Err::<Buffer, GpuError>(GpuError::OutOfMemory),
            r.is_err() ==> final(self).allocator_spec() == old(self).allocator_spec(),
            match r {
                Ok(b) => b.wf() && b.raw_spec() == raw && b.desc_spec() == desc
                    && b.allocation_spec().location == desc.location_spec()
                    && b.allocation_spec().size == aligned_size(
                    requirements.size as int,
                    requirements.alignment as int,
                ) && b.contents() == (if is_host_visible(desc.location_spec()) {
                    zeroes(desc.size as nat)
                } else {
                    Seq::<u8>::empty()
                }) && final(self).allocator_spec().live() == old(
                    self,
                ).allocator_spec().live().push(b.allocation_spec()),
                Err(_) => true,
            },
    {
        Buffer::create(&mut self.allocator, raw, desc, requirements)
    }

    /// Hands `buffer` to the deletion queue, tagged with the current frame:
    /// its memory goes back once that frame has retired.
    pub fn destroy_buffer(&mut self, buffer: Buffer)
        requires
            old(self).wf(),
        ensures
            final(self).wf(),
            final(self).allocator_spec() == old(self).allocator_spec(),
            final(self).frames_spec() == old(self).frames_spec(),
            final(self).deletions_spec().pending() == old(self).deletions_spec().pending().push(
                crate::deletion_queue::PendingDeletion {
                    resource: buffer,
                    frame: old(self).frames_spec().frame_count_spec(),
                },
            ),
    {
        let frame = self.frames.frame_count();
        self.deletions.request_destroy(buffer, frame);
    }

    /// Records that the fence of `slot` was seen signaled, and returns to the
    /// allocator the memory of every buffer whose destruction was requested
    /// during that slot's frame or before it.
    pub fn retire(&mut self, slot: usize) -> (r: Result<u64, GpuError>)
        requires
            old(self).wf(),
        ensures
            final(self).wf(),
            final(self).targets_spec() == old(self).targets_spec(),
            final(self).allocator_spec().capacity_spec() == old(
                self,
            ).allocator_spec().capacity_spec(),
            r.is_ok() <==> slot < old(self).frames_spec().n() && old(
                self,
            ).frames_spec().slots()[slot as int].state == SlotState::Submitted,
            r.is_err() ==> r == Err::<u64, GpuError>(GpuError::InvalidFrameState) && *final(self)
                == *old(self),
            r.is_ok() ==> {
                let f = old(self).frames_spec().slots()[slot as int].frame;
                &&& r == Ok::<u64, GpuError>(f)
                &&& final(self).frames_spec().slots() == old(self).frames_spec().slots().update(
                    slot as int,
                    FrameSlot { state: SlotState::Retired, frame: f },
                )
                &&& final(self).deletions_spec().pending() == waiting(
                    old(self).deletions_spec().pending(),
                    f,
                )
                &&& forall|a: Allocation|
                    #[trigger] final(self).allocator_spec().live().contains(a) <==> old(
                        self,
                    ).allocator_spec().live().contains(a) && !released_by(
                        due(old(self).deletions_spec().pending(), f),
                        a,
                    )
            },
    {
        let frame = match self.frames.fence_signaled(slot) {
            Ok(f) => f,
            Err(e) => return Err(e),
        };
        let ghost live0 = self.allocator.live();
        let mut freed = self.deletions.collect(frame);
        let ghost d = due(old(self).deletions.pending(), frame);
        let ghost all = freed@;
        proof {
            assert forall|a: Allocation|
                #[trigger] live0.contains(a) <==> live0.contains(a) && !released_by(
                    d.subrange(all.len() as int, all.len() as int),
                    a,
                ) by {}
            assert(all.subrange(0, all.len() as int) =~= all);
            assert(all.len() == d.len());
        }
        while freed.len() > 0
            invariant
                all == resources(d),
                all.len() == d.len(),
                freed@.len() <= all.len(),
                freed@ == all.subrange(0, freed@.len() as int),
                forall|a: Allocation|
                    #[trigger] self.allocator.live().contains(a) <==> live0.contains(a)
                        && !released_by(d.subrange(freed@.len() as int, d.len() as int), a),
                self.allocator.wf(),
                self.frames.wf(),
                self.states.states().len() > DEPTH_IMAGE,
                self.targets == old(self).targets,
                self.frames.slots() == old(self).frames.slots().update(
                    slot as int,
                    FrameSlot { state: SlotState::Retired, frame },
                ),
                frame == old(self).frames.slots()[slot as int].frame,
                self.deletions.pending() == waiting(old(self).deletions.pending(), frame),
                self.allocator.capacity_spec() == old(self).allocator.capacity_spec(),
            decreases freed@.len(),
        {
            let ghost n = freed@.len();
            let ghost before = freed@;
            let popped = freed.pop();
            proof {
                assert(popped == Some(before[n - 1]));
            }
            let b = popped.unwrap();
            proof {
                assert(b == before[n - 1]);
                assert(before[n - 1] == all.subrange(0, n as int)[n - 1]);
                assert(freed@ =~= all.subrange(0, n - 1));
                assert(b == all[n - 1]);
                assert(d[n - 1].resource == b);
            }
            let _ = b.destroy(&mut self.allocator);
            proof {
                let tail = d.subrange(n - 1, d.len() as int);
                let tail1 = d.subrange(n as int, d.len() as int);
                assert forall|a: Allocation|
                    #[trigger] self.allocator.live().contains(a) <==> live0.contains(a)
                        && !released_by(tail, a) by {
                    assert(released_by(tail, a) <==> released_by(tail1, a) || a
                        == b.allocation_spec()) by {
                        if released_by(tail, a) {
                            let k = choose|k: int|
                                0 <= k < tail.len() && tail[k].resource.allocation_spec() == a;
                            if k > 0 {
                                assert(tail1[k - 1] == tail[k]);
                            }
                        }
                        if released_by(tail1, a) {
                            let k = choose|k: int|
                                0 <= k < tail1.len() && tail1[k].resource.allocation_spec() == a;
                            assert(tail[k + 1] == tail1[k]);
                        }
                        if a == b.allocation_spec() {
                            assert(tail[0] == d[n - 1]);
                        }
                    }
                }
            }
        }
        proof {
            assert(d.subrange(0, d.len() as int) =~= d);
        }
        Ok(frame)
    }

    /// Starts the current frame given what acquiring a swapchain image gave.
    /// An out-of-date swapchain drops the frame and asks for recreation; a
    /// lost device is an error. Nothing else is touched on either path.
    pub fn begin_frame(&mut self, event: AcquireEvent) -> (r: Result<FrameStart, GpuError>)
        requires
            old(self).wf(),
        ensures
            final(self).wf(),
            final(self).allocator_spec() == old(self).allocator_spec(),
            final(self).deletions_spec() == old(self).deletions_spec(),
            final(self).targets_spec() == old(self).targets_spec(),
            final(self).depth_spec() == old(self).depth_spec(),
            final(self).frames_spec().frame_count_spec() == old(
                self,
            ).frames_spec().frame_count_spec(),
            ({
                let o = old(self).frames_spec();
                let st = o.slots()[o.current_slot()].state;
                let free = (st == SlotState::Idle || st == SlotState::Retired)
                    && o.frame_count_spec() < u64::MAX;
                &&& st == SlotState::Submitted ==> r == Err::<FrameStart, GpuError>(
                    GpuError::FrameInFlight,
                )
                &&& !free && st != SlotState::Submitted ==> r == Err::<FrameStart, GpuError>(
                    GpuError::InvalidFrameState,
                )
                &&& !free ==> r.is_err() && final(self).frames_spec() == o
                    && final(self).queued_spec() == old(self).queued_spec()
                &&& free ==> match event {
                    AcquireEvent::Acquired { image_index } => r == Ok::<FrameStart, GpuError>(
                        FrameStart::Render { image_index },
                    ) && final(self).queued_spec() == old(self).queued_spec()
                        && final(self).frames_spec().slots() == o.slots().update(
                        o.current_slot(),
                        FrameSlot { state: SlotState::Recording, frame: o.frame_count_spec() },
                    ),
                    AcquireEvent::OutOfDate => r == Ok::<FrameStart, GpuError>(
                        FrameStart::RecreateSwapchain,
                    ) && final(self).queued_spec() == Seq::<CommandBuffer>::empty()
                        && final(self).frames_spec().slots() == o.slots().update(
                        o.current_slot(),
                        FrameSlot { state: SlotState::Idle, frame: o.frame_count_spec() },
                    ),
                    AcquireEvent::DeviceLost => r == Err::<FrameStart, GpuError>(
                        GpuError::DeviceLost,
                    ) && final(self).queued_spec() == Seq::<CommandBuffer>::empty()
                        && final(self).frames_spec().slots() == o.slots().update(
                        o.current_slot(),
                        FrameSlot { state: SlotState::Idle, frame: o.frame_count_spec() },
                    ),
                }
            }),
    {
        let ghost o = self.frames;
        match self.frames.begin_frame() {
            Ok(_) => {},
            Err(e) => return Err(e),
        }
        proof {
            o.lemma_slots_in_range();
            let cs = o.current_slot();
            assert(o.slots().update(cs, FrameSlot { state: SlotState::Recording, frame: o.frame_count_spec() }).update(cs, FrameSlot { state: SlotState::Idle, frame: o.frame_count_spec() }) =~= o.slots().update(cs, FrameSlot { state: SlotState::Idle, frame: o.frame_count_spec() }));
        }
        match event {
            AcquireEvent::Acquired { image_index } => Ok(FrameStart::Render { image_index }),
            AcquireEvent::OutOfDate => {
                let _ = self.frames.abandon_frame();
                self.queued = Vec::new();
                Ok(FrameStart::RecreateSwapchain)
            },
            AcquireEvent::DeviceLost => {
                let _ = self.frames.abandon_frame();
                self.queued = Vec::new();
                Err(GpuError::DeviceLost)
            },
        }
    }

    /// Queues the finished recording `cb` for submission with the frame
    /// being recorded. Fails with `InvalidFrameState` (and drops `cb`) if no
    /// frame is being recorded or `cb` is not finished.
    pub fn queue_command_buffer(&mut self, cb: CommandBuffer) -> (r: Result<(), GpuError>)
        requires
            old(self).wf(),
        ensures
            final(self).wf(),
            final(self).allocator_spec() == old(self).allocator_spec(),
            final(self).frames_spec() == old(self).frames_spec(),
            final(self).deletions_spec() == old(self).deletions_spec(),
            final(self).targets_spec() == old(self).targets_spec(),
            r.is_ok() <==> old(self).frames_spec().slots()[old(
                self,
            ).frames_spec().current_slot()].state == SlotState::Recording && cb.state_spec()
                == CommandBufferState::Executable,
            r.is_ok() ==> final(self).queued_spec() == old(self).queued_spec().push(cb),
            r.is_err() ==> r == Err::<(), GpuError>(GpuError::InvalidFrameState)
                && final(self).queued_spec() == old(self).queued_spec(),
    {
        let s = self.frames.current_slot_index();
        proof {
            self.frames.lemma_slots_in_range();
        }
        if self.frames.slot(s).state != SlotState::Recording || cb.state()
            != CommandBufferState::Executable {
            return Err(GpuError::InvalidFrameState);
        }
        self.queued.push(cb);
        Ok(())
    }

    /// Submits the frame being recorded: hands out its index, its slot and
    /// the queued command buffers, and moves on to the next frame index.
    pub fn end_frame(&mut self) -> (r: Result<FrameSubmission, GpuError>)
        requires
            old(self).wf(),
        ensures
            final(self).wf(),
            final(self).allocator_spec() == old(self).allocator_spec(),
            final(self).deletions_spec() == old(self).deletions_spec(),
            final(self).targets_spec() == old(self).targets_spec(),
            final(self).depth_spec() == old(self).depth_spec(),
            ({
                let o = old(self).frames_spec();
                &&& r.is_ok() <==> o.slots()[o.current_slot()].state == SlotState::Recording
                &&& r.is_err() ==> r is Err && r->Err_0 == GpuError::InvalidFrameState
                    && final(self).frames_spec() == o
                    && final(self).queued_spec() == old(self).queued_spec()
                &&& r.is_ok() ==> r->Ok_0.frame == o.frame_count_spec()
                    && r->Ok_0.slot == o.current_slot()
                    && r->Ok_0.command_buffers@ == old(self).queued_spec()
                    && final(self).queued_spec() == Seq::<CommandBuffer>::empty()
                    && final(self).frames_spec().frame_count_spec() == o.frame_count_spec() + 1
                    && final(self).frames_spec().slots() == o.slots().update(
                    o.current_slot(),
                    FrameSlot { state: SlotState::Submitted, frame: o.frame_count_spec() },
                )
            }),
    {
        let slot = self.frames.current_slot_index();
        match self.frames.end_frame() {
            Ok(frame) => {
                let mut command_buffers: Vec<CommandBuffer> = Vec::new();
                std::mem::swap(&mut command_buffers, &mut self.queued);
                Ok(FrameSubmission { frame, slot, command_buffers })
            },
            Err(e) => Err(e),
        }
    }

    /// Bytes that freeing the current depth image gives back.
    pub open spec fn depth_bytes(&self) -> int {
        match self.depth_spec() {
            Some(d) => if self.allocator_spec().live().contains(d) {
                d.size as int
            } else {
                0
            },
            None => 0,
        }
    }

    /// Whether a new depth image of `req` fits once the current one is
    /// freed.
    pub open spec fn depth_fits(&self, req: MemoryRequirements) -> bool {
        &&& self.allocator_spec().next_id_spec() < u64::MAX
        &&& self.allocator_spec().allocated() - self.depth_bytes() + aligned_size(
            req.size as int,
            req.alignment as int,
        ) <= self.allocator_spec().capacity_spec()
    }

    /// Rebuilds what follows the swapchain for a surface of `extent`: the
    /// targets take the new extent and a new generation, the old depth
    /// memory goes back, and the new depth image gets memory as
    /// `depth_requirements` asks and is moved from `Undefined` to
    /// `DepthWrite`; the barrier for that comes back, to be recorded before
    /// the image is rendered to. Every other allocation, geometry and
    /// material buffers among them, stays as it was. Fails with `OutOfMemory`
    /// exactly when the new depth image does not fit once the old one is
    /// freed; then there is no depth memory and its state is `Undefined`.
    pub fn recreate_swapchain(&mut self, extent: Extent, depth_requirements: MemoryRequirements) -> (r:
        Result<ImageBarrier, GpuError>)
        requires
            old(self).wf(),
            depth_requirements.alignment > 0,
            old(self).targets_spec().generation < u64::MAX,
        ensures
            final(self).wf(),
            final(self).frames_spec() == old(self).frames_spec(),
            final(self).deletions_spec() == old(self).deletions_spec(),
            final(self).queued_spec() == old(self).queued_spec(),
            final(self).targets_spec() == (SwapchainTargets {
                extent,
                depth_extent: extent,
                viewport: extent,
                generation: (old(self).targets_spec().generation + 1) as u64,
            }),
            r.is_ok() <==> old(self).depth_fits(depth_requirements),
            r.is_ok() ==> r == Ok::<ImageBarrier, GpuError>(
                barrier_spec(DEPTH_IMAGE, ResourceState::Undefined, ResourceState::DepthWrite),
            ) && final(self).states_spec().states() == old(self).states_spec().states().update(
                DEPTH_IMAGE as int,
                ResourceState::DepthWrite,
            ),
            r.is_err() ==> final(self).states_spec().states() == old(
                self,
            ).states_spec().states().update(DEPTH_IMAGE as int, ResourceState::Undefined),
            forall|a: Allocation|
                #[trigger] final(self).allocator_spec().live().contains(a) <==> (old(
                    self,
                ).allocator_spec().live().contains(a) && Some(a) != old(self).depth_spec()) || Some(
                    a,
                ) == final(self).depth_spec(),
            r.is_ok() <==> final(self).depth_spec() is Some,
            r.is_err() ==> r == Err::<ImageBarrier, GpuError>(GpuError::OutOfMemory),
            match final(self).depth_spec() {
                Some(d) => d.location == BufferLocation::GpuOnly && d.size == aligned_size(
                    depth_requirements.size as int,
                    depth_requirements.alignment as int,
                ) && !old(self).allocator_spec().live().contains(d),
                None => true,
            },
    {
        let ghost live0 = self.allocator.live();
        if let Some(d) = self.depth {
            let _ = self.allocator.free(d);
        }
        self.depth = None;
        let ghost mid = self.allocator.live();
        let res = self.allocator.allocate(
            depth_requirements.size,
            depth_requirements.alignment,
            BufferLocation::GpuOnly,
        );
        let _ = self.states.reset(DEPTH_IMAGE, ResourceState::Undefined);
        self.targets = SwapchainTargets {
            extent,
            depth_extent: extent,
            viewport: extent,
            generation: self.targets.generation + 1,
        };
        match res {
            Ok(d) => {
                self.depth = Some(d);
                proof {
                    self.allocator.lemma_fresh_id(d);
                    assert(self.allocator.live().drop_last() =~= mid);
                    if live0.contains(d) {
                        old(self).allocator.lemma_ids_below_next(d);
                    }
                    assert forall|a: Allocation|
                        #[trigger] self.allocator.live().contains(a) <==> mid.contains(a) || a
                            == d by {
                        if self.allocator.live().contains(a) && a != d {
                            let j = choose|j: int|
                                0 <= j < self.allocator.live().len() && self.allocator.live()[j]
                                    == a;
                            assert(j < mid.len());
                            assert(mid[j] == a);
                        }
                        if mid.contains(a) {
                            let j = choose|j: int| 0 <= j < mid.len() && mid[j] == a;
                            assert(self.allocator.live()[j] == a);
                        }
                        if a == d {
                            assert(self.allocator.live()[mid.len() as int] == d);
                        }
                    }
                }
                let barrier = match self.states.transition(
                    DEPTH_IMAGE,
                    ResourceState::Undefined,
                    ResourceState::DepthWrite,
                ) {
                    Ok(b) => b,
                    Err(e) => return Err(e),
                };
                proof {
                    assert(self.states.states() =~= old(self).states.states().update(
                        DEPTH_IMAGE as int,
                        ResourceState::DepthWrite,
                    ));
                }
                Ok(barrier)
            },
            Err(e) => Err(e),
        }
    }
}

} // verus!
