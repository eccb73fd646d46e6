use vstd::prelude::*;

use crate::barrier::{barrier_spec, Barriers, ImageBarrier, ResourceState, StateTracker, Transition, apply_transitions};
use crate::error::GpuError;

verus! {

/// One recorded command. Handles are the device's opaque 64-bit values.
#[derive(Debug, Clone, Copy, PartialEq, Eq, Structural)]
pub enum Command {
    Barrier { barrier: ImageBarrier },
    BeginRendering { width: u32, height: u32, color_view: u64, depth_view: u64 },
    EndRendering,
    BindGraphicsPipeline { pipeline: u64 },
    BindVertexBuffer { buffer: u64, slot: u32, offset: u64 },
    BindIndexBuffer { buffer: u64, offset: u64 },
    BindDescriptorSet { set: u64, layout: u64, index: u32 },
    DrawIndexed {
        index_count: u32,
        instance_count: u32,
        first_index: u32,
        vertex_offset: i32,
        first_instance: u32,
    },
}

/// Lifecycle of a command buffer: empty, being recorded, ready to submit.
#[derive(Debug, Clone, Copy, PartialEq, Eq, Structural)]
pub enum CommandBufferState {
    Initial,
    Recording,
    Executable,
}

/// A recording target: the commands in order, and its lifecycle state.
pub struct CommandBuffer {
    state: CommandBufferState,
    commands: Vec<Command>,
}

impl CommandBuffer {
    pub closed spec fn state_spec(&self) -> CommandBufferState {
        self.state
    }

    pub closed spec fn commands_spec(&self) -> Seq<Command> {
        self.commands@
    }

    pub fn new() -> (r: Self)
        ensures
            r.state_spec() == CommandBufferState::Initial,
            r.commands_spec() == Seq::<Command>::empty(),
    {
        CommandBuffer { state: CommandBufferState::Initial, commands: Vec::new() }
    }

    pub fn state(&self) -> (r: CommandBufferState)
        ensures
            r == self.state_spec(),
    {
        self.state
    }

    pub fn commands(&self) -> (r: &[Command])
        ensures
            r@ == self.commands_spec(),
    {
        self.commands.as_slice()
    }

    /// Empties the buffer for a new recording.
    pub fn reset(&mut self)
        ensures
            final(self).state_spec() == CommandBufferState::Initial,
            final(self).commands_spec() == Seq::<Command>::empty(),
    {
        self.state = CommandBufferState::Initial;
        self.commands = Vec::new();
    }

    /// Opens a recording; only an empty buffer can be opened.
    pub fn begin(&mut self) -> (r: Result<(), GpuError>)
        ensures
            r.is_ok() <==> old(self).state_spec() == CommandBufferState::Initial,
            r.is_ok() ==> final(self).state_spec() == CommandBufferState::Recording,
            r.is_err() ==> r == Err::<(), GpuError>(GpuError::InvalidFrameState),
            r.is_err() ==> final(self).state_spec() == old(self).state_spec(),
            final(self).commands_spec() == old(self).commands_spec(),
    {
        if self.state != CommandBufferState::Initial {
            return Err(GpuError::InvalidFrameState);
        }
        self.state = CommandBufferState::Recording;
        Ok(())
    }

    /// Closes the recording; the buffer can then be submitted.
    pub fn end(&mut self) -> (r: Result<(), GpuError>)
        ensures
            r.is_ok() <==> old(self).state_spec() == CommandBufferState::Recording,
            r.is_ok() ==> final(self).state_spec() == CommandBufferState::Executable,
            r.is_err() ==> r == Err::<(), GpuError>(GpuError::InvalidFrameState),
            r.is_err() ==> final(self).state_spec() == old(self).state_spec(),
            final(self).commands_spec() == old(self).commands_spec(),
    {
        if self.state != CommandBufferState::Recording {
            return Err(GpuError::InvalidFrameState);
        }
        self.state = CommandBufferState::Executable;
        Ok(())
    }

    /// Appends `c` to an open recording.
    pub fn record(&mut self, c: Command) -> (r: Result<(), GpuError>)
        ensures
            final(self).state_spec() == old(self).state_spec(),
            r.is_ok() <==> old(self).state_spec() == CommandBufferState::Recording,
            r.is_ok() ==> final(self).commands_spec() == old(self).commands_spec().push(c),
            r.is_err() ==> r == Err::<(), GpuError>(GpuError::InvalidFrameState),
            r.is_err() ==> final(self).commands_spec() == old(self).commands_spec(),
    {
        if self.state != CommandBufferState::Recording {
            return Err(GpuError::InvalidFrameState);
        }
        self.commands.push(c);
        Ok(())
    }

    /// Checks `barriers` against `states` and, if all of them hold, records
    /// one barrier command per transition and updates `states`. If one is
    /// rejected, nothing is recorded or updated.
    pub fn pipeline_barrier(&mut self, states: &mut StateTracker, barriers: &Barriers) -> (r: Result<
        (),
        GpuError,
    >)
        ensures
            final(self).state_spec() == old(self).state_spec(),
            r.is_ok() <==> old(self).state_spec() == CommandBufferState::Recording
                && apply_transitions(old(states).states(), barriers.transitions_spec()) is Some,
            r.is_ok() ==> final(states).states() == apply_transitions(
                old(states).states(),
                barriers.transitions_spec(),
            )->Some_0,
            r.is_ok() ==> final(self).commands_spec() == old(self).commands_spec()
                + barrier_commands(barriers.transitions_spec()),
            r.is_err() ==> final(self).commands_spec() == old(self).commands_spec()
                && final(states).states() == old(states).states(),
    {
        if self.state != CommandBufferState::Recording {
            return Err(GpuError::InvalidFrameState);
        }
        let out = match states.pipeline_barrier(barriers) {
            Ok(v) => v,
            Err(e) => return Err(e),
        };
        let ghost base = self.commands@;
        let ghost ts = barriers.transitions_spec();
        let mut i: usize = 0;
        while i < out.len()
            invariant
                i <= out@.len(),
                out@ == ts.map_values(|t: Transition| barrier_spec(t.image, t.from, t.to)),
                self.commands@ == base + barrier_commands(ts.subrange(0, i as int)),
                self.state == old(self).state,
            decreases out@.len() - i,
        {
            self.commands.push(Command::Barrier { barrier: out[i] });
            proof {
                let pre = ts.subrange(0, i as int + 1);
                assert(pre.drop_last() =~= ts.subrange(0, i as int));
                assert(self.commands@ =~= base + barrier_commands(pre));
            }
            i = i + 1;
        }
        assert(ts.subrange(0, ts.len() as int) =~= ts);
        Ok(())
    }
}

/// The barrier commands for `ts`, in order.
pub open spec fn barrier_commands(ts: Seq<Transition>) -> Seq<Command>
    decreases ts.len(),
{
    if ts.len() == 0 {
        Seq::empty()
    } else {
        barrier_commands(ts.drop_last()).push(
            Command::Barrier { barrier: barrier_spec(ts.last().image, ts.last().from, ts.last().to) },
        )
    }
}

/// What the scene hands over for one mesh primitive.
#[derive(Debug, Clone, Copy, PartialEq, Eq, Structural)]
pub struct MeshDraw {
    pub position_buffer: Option<u64>,
    pub position_offset: u64,
    pub tex_coords_buffer: Option<u64>,
    pub tex_coords_offset: u64,
    pub normal_buffer: Option<u64>,
    pub normal_offset: u64,
    pub tangent_buffer: Option<u64>,
    pub tangent_offset: u64,
    pub index_buffer: Option<u64>,
    pub index_offset: u64,
    pub descriptor_set: Option<u64>,
    pub count: u32,
    pub textures_incomplete: bool,
}

impl MeshDraw {
    /// Whether the draw is skipped: its textures are not all there.
    pub open spec fn skipped(self) -> bool {
        self.textures_incomplete
    }

    /// Whether everything a drawn primitive needs is present (a tangent
    /// stream is optional).
    pub open spec fn complete(self) -> bool {
        &&& self.position_buffer is Some
        &&& self.tex_coords_buffer is Some
        &&& self.normal_buffer is Some
        &&& self.index_buffer is Some
        &&& self.descriptor_set is Some
    }
}

/// The per-frame objects a scene is drawn with.
#[derive(Debug, Clone, Copy, PartialEq, Eq, Structural)]
pub struct SceneFrame {
    /// Index of the swapchain image in the state tracker.
    pub swapchain_image: usize,
    pub width: u32,
    pub height: u32,
    pub color_view: u64,
    pub depth_view: u64,
    pub pipeline: u64,
    pub pipeline_layout: u64,
    /// The descriptor set of all textures, bound as set 1.
    pub bindless_set: u64,
    /// A vertex buffer of zeros that stands in for a missing tangent stream.
    pub zero_buffer: u64,
}

/// The commands that draw one primitive.
pub open spec fn draw_commands(d: MeshDraw, f: SceneFrame) -> Seq<Command> {
    if d.skipped() {
        Seq::empty()
    } else {
        seq![
            Command::BindVertexBuffer { buffer: d.position_buffer->Some_0, slot: 0, offset: d.position_offset },
            Command::BindVertexBuffer { buffer: d.tex_coords_buffer->Some_0, slot: 1, offset: d.tex_coords_offset },
            Command::BindVertexBuffer { buffer: d.normal_buffer->Some_0, slot: 2, offset: d.normal_offset },
            match d.tangent_buffer {
                Some(t) => Command::BindVertexBuffer { buffer: t, slot: 3, offset: d.tangent_offset },
                None => Command::BindVertexBuffer { buffer: f.zero_buffer, slot: 3, offset: 0 },
            },
            Command::BindIndexBuffer { buffer: d.index_buffer->Some_0, offset: d.index_offset },
            Command::BindDescriptorSet { set: d.descriptor_set->Some_0, layout: f.pipeline_layout, index: 0 },
            Command::BindDescriptorSet { set: f.bindless_set, layout: f.pipeline_layout, index: 1 },
            Command::DrawIndexed { index_count: d.count, instance_count: 1, first_index: 0, vertex_offset: 0, first_instance: 0 },
        ]
    }
}

/// The commands that draw `draws` in order.
pub open spec fn draws_commands(draws: Seq<MeshDraw>, f: SceneFrame) -> Seq<Command>
    decreases draws.len(),
{
    if draws.len() == 0 {
        Seq::empty()
    } else {
        draws_commands(draws.drop_last(), f) + draw_commands(draws.last(), f)
    }
}

/// The whole recording of a frame: the swapchain image goes to a render
/// target, rendering begins with the pipeline bound, every primitive is
/// drawn, rendering ends and the image goes to presentation.
pub open spec fn scene_commands(draws: Seq<MeshDraw>, f: SceneFrame) -> Seq<Command> {
    seq![
        Command::Barrier { barrier: barrier_spec(f.swapchain_image, ResourceState::Undefined, ResourceState::RenderTarget) },
        Command::BeginRendering { width: f.width, height: f.height, color_view: f.color_view, depth_view: f.depth_view },
        Command::BindGraphicsPipeline { pipeline: f.pipeline },
    ] + draws_commands(draws, f) + seq![
        Command::EndRendering,
        Command::Barrier { barrier: barrier_spec(f.swapchain_image, ResourceState::RenderTarget, ResourceState::Present) },
    ]
}

/// Records one primitive into an open recording.
fn record_draw(cb: &mut CommandBuffer, d: MeshDraw, f: SceneFrame)
    requires
        old(cb).state_spec() == CommandBufferState::Recording,
        !d.skipped() ==> d.complete(),
    ensures
        final(cb).state_spec() == CommandBufferState::Recording,
        final(cb).commands_spec() == old(cb).commands_spec() + draw_commands(d, f),
{
    if d.textures_incomplete {
        assert(old(cb).commands_spec() + draw_commands(d, f) =~= old(cb).commands_spec());
        return;
    }
    let tangent = match d.tangent_buffer {
        Some(t) => Command::BindVertexBuffer { buffer: t, slot: 3, offset: d.tangent_offset },
        None => Command::BindVertexBuffer { buffer: f.zero_buffer, slot: 3, offset: 0 },
    };
    let _ = cb.record(Command::BindVertexBuffer { buffer: d.position_buffer.unwrap(), slot: 0, offset: d.position_offset });
    let _ = cb.record(Command::BindVertexBuffer { buffer: d.tex_coords_buffer.unwrap(), slot: 1, offset: d.tex_coords_offset });
    let _ = cb.record(Command::BindVertexBuffer { buffer: d.normal_buffer.unwrap(), slot: 2, offset: d.normal_offset });
    let _ = cb.record(tangent);
    let _ = cb.record(Command::BindIndexBuffer { buffer: d.index_buffer.unwrap(), offset: d.index_offset });
    let _ = cb.record(Command::BindDescriptorSet { set: d.descriptor_set.unwrap(), layout: f.pipeline_layout, index: 0 });
    let _ = cb.record(Command::BindDescriptorSet { set: f.bindless_set, layout: f.pipeline_layout, index: 1 });
    let _ = cb.record(Command::DrawIndexed { index_count: d.count, instance_count: 1, first_index: 0, vertex_offset: 0, first_instance: 0 });
    assert(final(cb).commands_spec() =~= old(cb).commands_spec() + draw_commands(d, f));
}

/// Records a frame that draws `draws` into the empty buffer `cb`, checking
/// the swapchain image's transitions against `states`. Fails with
/// `InvalidFrameState` if `cb` is not empty and `UnknownResource` if the
/// swapchain image is not tracked; on failure nothing is recorded.
pub fn record_scene(
    cb: &mut CommandBuffer,
    states: &mut StateTracker,
    f: SceneFrame,
    draws: &[MeshDraw],
) -> (r: Result<(), GpuError>)
    requires
        forall|i: int| 0 <= i < draws@.len() && !(#[trigger] draws@[i]).skipped() ==> draws@[i].complete(),
    ensures
        old(cb).state_spec() != CommandBufferState::Initial ==> r == Err::<(), GpuError>(
            GpuError::InvalidFrameState,
        ),
        old(cb).state_spec() == CommandBufferState::Initial && f.swapchain_image >= old(
            states,
        ).states().len() ==> r == Err::<(), GpuError>(GpuError::UnknownResource),
        r.is_ok() <==> old(cb).state_spec() == CommandBufferState::Initial && f.swapchain_image
            < old(states).states().len(),
        r.is_ok() ==> final(cb).state_spec() == CommandBufferState::Executable
            && final(cb).commands_spec() == old(cb).commands_spec() + scene_commands(draws@, f)
            && final(states).states() == old(states).states().update(
            f.swapchain_image as int,
            ResourceState::Present,
        ),
        r.is_err() ==> final(cb).commands_spec() == old(cb).commands_spec()
            && final(cb).state_spec() == old(cb).state_spec()
            && final(states).states() == old(states).states(),
{
    if cb.state != CommandBufferState::Initial {
        return Err(GpuError::InvalidFrameState);
    }
    if f.swapchain_image >= states.len() {
        return Err(GpuError::UnknownResource);
    }
    let ghost base = cb.commands@;
    let ghost s0 = states.states();
    let _ = cb.begin();
    let to_target = Barriers::new().add_image(
        f.swapchain_image,
        ResourceState::Undefined,
        ResourceState::RenderTarget,
    );
    proof {
        let ts = to_target.transitions_spec();
        assert(ts.drop_last() =~= Seq::<Transition>::empty());
        assert(apply_transitions(s0, ts.drop_last()) == Some(s0));
    }
    let _ = cb.pipeline_barrier(states, &to_target);
    let _ = cb.record(
        Command::BeginRendering {
            width: f.width,
            height: f.height,
            color_view: f.color_view,
            depth_view: f.depth_view,
        },
    );
    let _ = cb.record(Command::BindGraphicsPipeline { pipeline: f.pipeline });
    let ghost head = cb.commands@;
    let mut i: usize = 0;
    assert(draws@.subrange(0, 0) =~= Seq::<MeshDraw>::empty());
    while i < draws.len()
        invariant
            i <= draws@.len(),
            cb.state == CommandBufferState::Recording,
            cb.commands@ == head + draws_commands(draws@.subrange(0, i as int), f),
            forall|k: int| 0 <= k < draws@.len() && !(#[trigger] draws@[k]).skipped() ==> draws@[k].complete(),
        decreases draws@.len() - i,
    {
        record_draw(cb, draws[i], f);
        proof {
            let pre = draws@.subrange(0, i as int + 1);
            assert(pre.drop_last() =~= draws@.subrange(0, i as int));
            assert(pre.last() == draws@[i as int]);
            assert(cb.commands@ =~= head + draws_commands(pre, f));
        }
        i = i + 1;
    }
    assert(draws@.subrange(0, draws@.len() as int) =~= draws@);
    let _ = cb.record(Command::EndRendering);
    let to_present = Barriers::new().add_image(
        f.swapchain_image,
        ResourceState::RenderTarget,
        ResourceState::Present,
    );
    let ghost s1 = states.states();
    proof {
        let ts = to_present.transitions_spec();
        assert(ts.drop_last() =~= Seq::<Transition>::empty());
        assert(apply_transitions(s1, ts.drop_last()) == Some(s1));
        let ts0 = to_target.transitions_spec();
        assert(ts0.drop_last() =~= Seq::<Transition>::empty());
        assert(barrier_commands(ts0.drop_last()) =~= Seq::<Command>::empty());
        assert(barrier_commands(ts.drop_last()) =~= Seq::<Command>::empty());
    }
    let _ = cb.pipeline_barrier(states, &to_present);
    let _ = cb.end();
    proof {
        assert(cb.commands@ =~= base + scene_commands(draws@, f));
        assert(states.states() =~= s0.update(f.swapchain_image as int, ResourceState::Present));
    }
    Ok(())
}

} // verus!
