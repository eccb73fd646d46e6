use vstd::prelude::*;

use crate::error::GpuError;

verus! {

/// Image layout codes of the graphics API.
pub const LAYOUT_UNDEFINED: u32 = 0;
pub const LAYOUT_GENERAL: u32 = 1;
pub const LAYOUT_COLOR_ATTACHMENT: u32 = 2;
pub const LAYOUT_DEPTH_STENCIL_ATTACHMENT: u32 = 3;
pub const LAYOUT_SHADER_READ_ONLY: u32 = 5;
pub const LAYOUT_TRANSFER_SRC: u32 = 6;
pub const LAYOUT_TRANSFER_DST: u32 = 7;
pub const LAYOUT_PRESENT_SRC: u32 = 1000001002;

/// Memory access bits of the graphics API.
pub const ACCESS_NONE: u32 = 0;
pub const ACCESS_SHADER_READ: u32 = 0x20;
pub const ACCESS_COLOR_ATTACHMENT_READ: u32 = 0x80;
pub const ACCESS_COLOR_ATTACHMENT_WRITE: u32 = 0x100;
pub const ACCESS_DEPTH_STENCIL_ATTACHMENT_READ: u32 = 0x200;
pub const ACCESS_DEPTH_STENCIL_ATTACHMENT_WRITE: u32 = 0x400;
pub const ACCESS_TRANSFER_READ: u32 = 0x800;
pub const ACCESS_TRANSFER_WRITE: u32 = 0x1000;
pub const ACCESS_MEMORY_READ: u32 = 0x8000;

/// Pipeline stage bits of the graphics API.
pub const STAGE_TOP_OF_PIPE: u32 = 0x1;
pub const STAGE_FRAGMENT_SHADER: u32 = 0x80;
pub const STAGE_EARLY_FRAGMENT_TESTS: u32 = 0x100;
pub const STAGE_LATE_FRAGMENT_TESTS: u32 = 0x200;
pub const STAGE_COLOR_ATTACHMENT_OUTPUT: u32 = 0x400;
pub const STAGE_TRANSFER: u32 = 0x1000;
pub const STAGE_BOTTOM_OF_PIPE: u32 = 0x2000;

/// How a resource is being accessed, which fixes its layout, access mask and
/// pipeline stage.
#[derive(Debug, Clone, Copy, PartialEq, Eq, Structural)]
pub enum ResourceState {
    Undefined,
    RenderTarget,
    DepthWrite,
    DepthRead,
    ShaderRead,
    TransferSrc,
    TransferDst,
    Present,
    General,
}

/// Layout, access mask and stage mask of a resource state.
#[derive(Debug, Clone, Copy, PartialEq, Eq, Structural)]
pub struct StateInfo {
    pub layout: u32,
    pub access: u32,
    pub stage: u32,
}

pub open spec fn state_info_spec(s: ResourceState) -> StateInfo {
    match s {
        ResourceState::Undefined => StateInfo {
            layout: LAYOUT_UNDEFINED,
            access: ACCESS_NONE,
            stage: STAGE_TOP_OF_PIPE,
        },
        ResourceState::RenderTarget => StateInfo {
            layout: LAYOUT_COLOR_ATTACHMENT,
            access: ACCESS_COLOR_ATTACHMENT_READ | ACCESS_COLOR_ATTACHMENT_WRITE,
            stage: STAGE_COLOR_ATTACHMENT_OUTPUT,
        },
        ResourceState::DepthWrite => StateInfo {
            layout: LAYOUT_DEPTH_STENCIL_ATTACHMENT,
            access: ACCESS_DEPTH_STENCIL_ATTACHMENT_READ | ACCESS_DEPTH_STENCIL_ATTACHMENT_WRITE,
            stage: STAGE_EARLY_FRAGMENT_TESTS | STAGE_LATE_FRAGMENT_TESTS,
        },
        ResourceState::DepthRead => StateInfo {
            layout: LAYOUT_DEPTH_STENCIL_ATTACHMENT,
            access: ACCESS_DEPTH_STENCIL_ATTACHMENT_READ,
            stage: STAGE_EARLY_FRAGMENT_TESTS | STAGE_LATE_FRAGMENT_TESTS,
        },
        ResourceState::ShaderRead => StateInfo {
            layout: LAYOUT_SHADER_READ_ONLY,
            access: ACCESS_SHADER_READ,
            stage: STAGE_FRAGMENT_SHADER,
        },
        ResourceState::TransferSrc => StateInfo {
            layout: LAYOUT_TRANSFER_SRC,
            access: ACCESS_TRANSFER_READ,
            stage: STAGE_TRANSFER,
        },
        ResourceState::TransferDst => StateInfo {
            layout: LAYOUT_TRANSFER_DST,
            access: ACCESS_TRANSFER_WRITE,
            stage: STAGE_TRANSFER,
        },
        ResourceState::Present => StateInfo {
            layout: LAYOUT_PRESENT_SRC,
            access: ACCESS_MEMORY_READ,
            stage: STAGE_BOTTOM_OF_PIPE,
        },
        ResourceState::General => StateInfo {
            layout: LAYOUT_GENERAL,
            access: ACCESS_SHADER_READ | ACCESS_TRANSFER_READ | ACCESS_TRANSFER_WRITE,
            stage: STAGE_FRAGMENT_SHADER | STAGE_TRANSFER,
        },
    }
}

/// Layout, access mask and stage mask of `s`.
pub fn state_info(s: ResourceState) -> (r: StateInfo)
    ensures
        r == state_info_spec(s),
{
    match s {
        ResourceState::Undefined => StateInfo {
            layout: LAYOUT_UNDEFINED,
            access: ACCESS_NONE,
            stage: STAGE_TOP_OF_PIPE,
        },
        ResourceState::RenderTarget => StateInfo {
            layout: LAYOUT_COLOR_ATTACHMENT,
            access: ACCESS_COLOR_ATTACHMENT_READ | ACCESS_COLOR_ATTACHMENT_WRITE,
            stage: STAGE_COLOR_ATTACHMENT_OUTPUT,
        },
        ResourceState::DepthWrite => StateInfo {
            layout: LAYOUT_DEPTH_STENCIL_ATTACHMENT,
            access: ACCESS_DEPTH_STENCIL_ATTACHMENT_READ | ACCESS_DEPTH_STENCIL_ATTACHMENT_WRITE,
            stage: STAGE_EARLY_FRAGMENT_TESTS | STAGE_LATE_FRAGMENT_TESTS,
        },
        ResourceState::DepthRead => StateInfo {
            layout: LAYOUT_DEPTH_STENCIL_ATTACHMENT,
            access: ACCESS_DEPTH_STENCIL_ATTACHMENT_READ,
            stage: STAGE_EARLY_FRAGMENT_TESTS | STAGE_LATE_FRAGMENT_TESTS,
        },
        ResourceState::ShaderRead => StateInfo {
            layout: LAYOUT_SHADER_READ_ONLY,
            access: ACCESS_SHADER_READ,
            stage: STAGE_FRAGMENT_SHADER,
        },
        ResourceState::TransferSrc => StateInfo {
            layout: LAYOUT_TRANSFER_SRC,
            access: ACCESS_TRANSFER_READ,
            stage: STAGE_TRANSFER,
        },
        ResourceState::TransferDst => StateInfo {
            layout: LAYOUT_TRANSFER_DST,
            access: ACCESS_TRANSFER_WRITE,
            stage: STAGE_TRANSFER,
        },
        ResourceState::Present => StateInfo {
            layout: LAYOUT_PRESENT_SRC,
            access: ACCESS_MEMORY_READ,
            stage: STAGE_BOTTOM_OF_PIPE,
        },
        ResourceState::General => StateInfo {
            layout: LAYOUT_GENERAL,
            access: ACCESS_SHADER_READ | ACCESS_TRANSFER_READ | ACCESS_TRANSFER_WRITE,
            stage: STAGE_FRAGMENT_SHADER | STAGE_TRANSFER,
        },
    }
}

/// A layout transition of one image, ready to be recorded.
#[derive(Debug, Clone, Copy, PartialEq, Eq, Structural)]
pub struct ImageBarrier {
    pub image: usize,
    pub old_layout: u32,
    pub new_layout: u32,
    pub src_access: u32,
    pub dst_access: u32,
    pub src_stage: u32,
    pub dst_stage: u32,
}

/// The barrier that moves `image` from `from` to `to`: source masks from the
/// old state, destination masks from the new one.
pub open spec fn barrier_spec(image: usize, from: ResourceState, to: ResourceState) -> ImageBarrier {
    ImageBarrier {
        image,
        old_layout: state_info_spec(from).layout,
        new_layout: state_info_spec(to).layout,
        src_access: state_info_spec(from).access,
        dst_access: state_info_spec(to).access,
        src_stage: state_info_spec(from).stage,
        dst_stage: state_info_spec(to).stage,
    }
}

/// Whether a transition out of `from` is consistent with the recorded state
/// `recorded`: it names the recorded state, or discards the contents.
pub open spec fn source_matches(recorded: ResourceState, from: ResourceState) -> bool {
    from == ResourceState::Undefined || from == recorded
}

/// One requested transition.
#[derive(Debug, Clone, Copy, PartialEq, Eq, Structural)]
pub struct Transition {
    pub image: usize,
    pub from: ResourceState,
    pub to: ResourceState,
}

/// A set of transitions to record as one pipeline barrier.
pub struct Barriers {
    transitions: Vec<Transition>,
}

impl Barriers {
    pub closed spec fn transitions_spec(&self) -> Seq<Transition> {
        self.transitions@
    }

    pub fn new() -> (r: Self)
        ensures
            r.transitions_spec() == Seq::<Transition>::empty(),
    {
        Barriers { transitions: Vec::new() }
    }

    pub fn add_image(self, image: usize, from: ResourceState, to: ResourceState) -> (r: Self)
        ensures
            r.transitions_spec() == self.transitions_spec().push(Transition { image, from, to }),
    {
        let mut transitions = self.transitions;
        transitions.push(Transition { image, from, to });
        Barriers { transitions }
    }

    pub fn transitions(&self) -> (r: &[Transition])
        ensures
            r@ == self.transitions_spec(),
    {
        self.transitions.as_slice()
    }
}

/// The result of applying `ts` in order to the states `states`, if each
/// transition names a known image and a source consistent with its state
/// at that point.
pub open spec fn apply_transitions(states: Seq<ResourceState>, ts: Seq<Transition>) -> Option<
    Seq<ResourceState>,
>
    decreases ts.len(),
{
    if ts.len() == 0 {
        Some(states)
    } else {
        match apply_transitions(states, ts.drop_last()) {
            None => None,
            Some(s) => {
                let t = ts.last();
                if t.image < s.len() && source_matches(s[t.image as int], t.from) {
                    Some(s.update(t.image as int, t.to))
                } else {
                    None
                }
            },
        }
    }
}

/// The last recorded state of every image it follows, by index.
pub struct StateTracker {
    states: Vec<ResourceState>,
}

impl StateTracker {
    pub closed spec fn states(&self) -> Seq<ResourceState> {
        self.states@
    }

    pub fn new() -> (r: Self)
        ensures
            r.states() == Seq::<ResourceState>::empty(),
    {
        StateTracker { states: Vec::new() }
    }

    /// Number of images followed.
    pub fn len(&self) -> (r: usize)
        ensures
            r == self.states().len(),
    {
        self.states.len()
    }

    /// Starts tracking a new image in state `initial`; returns its index.
    pub fn track(&mut self, initial: ResourceState) -> (r: usize)
        ensures
            r == old(self).states().len(),
            final(self).states() == old(self).states().push(initial),
    {
        self.states.push(initial);
        self.states.len() - 1
    }

    /// The recorded state of `image`.
    pub fn state(&self, image: usize) -> (r: Option<ResourceState>)
        ensures
            r == (if image < self.states().len() {
                Some(self.states()[image as int])
            } else {
                None::<ResourceState>
            }),
    {
        if image < self.states.len() {
            Some(self.states[image])
        } else {
            None
        }
    }

    /// Sets the recorded state of `image` outright, as when the image behind
    /// the index was replaced.
    pub fn reset(&mut self, image: usize, state: ResourceState) -> (r: Result<(), GpuError>)
        ensures
            r.is_ok() <==> image < old(self).states().len(),
            r.is_ok() ==> final(self).states() == old(self).states().update(image as int, state),
            r.is_err() ==> r == Err::<(), GpuError>(GpuError::UnknownResource)
                && final(self).states() == old(self).states(),
    {
        if image >= self.states.len() {
            return Err(GpuError::UnknownResource);
        }
        self.states.set(image, state);
        Ok(())
    }

    /// Checks one transition against the recorded state and records it:
    /// the recorded state becomes `to` and the matching barrier comes back.
    /// A source that is neither the recorded state nor `Undefined` is
    /// rejected with `StaleResourceState`, and nothing changes.
    pub fn transition(&mut self, image: usize, from: ResourceState, to: ResourceState) -> (r:
        Result<ImageBarrier, GpuError>)
        ensures
            image >= old(self).states().len() ==> r == Err::<ImageBarrier, GpuError>(
                GpuError::UnknownResource,
            ),
            image < old(self).states().len() && !source_matches(
                old(self).states()[image as int],
                from,
            ) ==> r == Err::<ImageBarrier, GpuError>(GpuError::StaleResourceState),
            r.is_ok() <==> image < old(self).states().len() && source_matches(
                old(self).states()[image as int],
                from,
            ),
            r.is_ok() ==> r == Ok::<ImageBarrier, GpuError>(barrier_spec(image, from, to))
                && final(self).states() == old(self).states().update(image as int, to),
            r.is_err() ==> final(self).states() == old(self).states(),
    {
        if image >= self.states.len() {
            return Err(GpuError::UnknownResource);
        }
        let recorded = self.states[image];
        if from != ResourceState::Undefined && from != recorded {
            return Err(GpuError::StaleResourceState);
        }
        let a = state_info(from);
        let b = state_info(to);
        self.states.set(image, to);
        Ok(
            ImageBarrier {
                image,
                old_layout: a.layout,
                new_layout: b.layout,
                src_access: a.access,
                dst_access: b.access,
                src_stage: a.stage,
                dst_stage: b.stage,
            },
        )
    }

    /// Checks and records every transition of `barriers`, in order. If one
    /// is rejected, none of them is recorded and its error comes back.
    pub fn pipeline_barrier(&mut self, barriers: &Barriers) -> (r: Result<
        Vec<ImageBarrier>,
        GpuError,
    >)
        ensures
            r.is_ok() <==> apply_transitions(old(self).states(), barriers.transitions_spec())
                is Some,
            r.is_ok() ==> final(self).states() == apply_transitions(
                old(self).states(),
                barriers.transitions_spec(),
            )->Some_0,
            r.is_ok() ==> r->Ok_0@ == barriers.transitions_spec().map_values(
                |t: Transition| barrier_spec(t.image, t.from, t.to),
            ),
            r.is_err() ==> final(self).states() == old(self).states(),
    {
        let ts = barriers.transitions();
        let mut work: Vec<ResourceState> = self.states.clone();
        let mut out: Vec<ImageBarrier> = Vec::new();
        let mut i: usize = 0;
        assert(ts@.subrange(0, 0) =~= Seq::<Transition>::empty());
        while i < ts.len()
            invariant
                i <= ts@.len(),
                ts@ == barriers.transitions_spec(),
                self.states@ == old(self).states@,
                apply_transitions(self.states@, ts@.subrange(0, i as int)) == Some(work@),
                out@ == ts@.subrange(0, i as int).map_values(
                    |t: Transition| barrier_spec(t.image, t.from, t.to),
                ),
            decreases ts@.len() - i,
        {
            let t = ts[i];
            proof {
                let pre = ts@.subrange(0, i as int + 1);
                assert(pre.drop_last() =~= ts@.subrange(0, i as int));
                assert(pre.last() == t);
            }
            if t.image >= work.len() {
                proof {
                    lemma_apply_fails_on(self.states@, ts@, i as int + 1);
                }
                return Err(GpuError::UnknownResource);
            }
            let recorded = work[t.image];
            if t.from != ResourceState::Undefined && t.from != recorded {
                proof {
                    lemma_apply_fails_on(self.states@, ts@, i as int + 1);
                }
                return Err(GpuError::StaleResourceState);
            }
            let a = state_info(t.from);
            let b = state_info(t.to);
            work.set(t.image, t.to);
            out.push(
                ImageBarrier {
                    image: t.image,
                    old_layout: a.layout,
                    new_layout: b.layout,
                    src_access: a.access,
                    dst_access: b.access,
                    src_stage: a.stage,
                    dst_stage: b.stage,
                },
            );
            proof {
                assert(out@ =~= ts@.subrange(0, i as int + 1).map_values(
                    |t: Transition| barrier_spec(t.image, t.from, t.to),
                ));
            }
            i = i + 1;
        }
        assert(ts@.subrange(0, ts@.len() as int) =~= ts@);
        self.states = work;
        Ok(out)
    }
}

/// Once a prefix of the transitions is rejected, the whole set is.
proof fn lemma_apply_fails_on(states: Seq<ResourceState>, ts: Seq<Transition>, k: int)
    requires
        0 <= k <= ts.len(),
        apply_transitions(states, ts.subrange(0, k)) is None,
    ensures
        apply_transitions(states, ts) is None,
    decreases ts.len() - k,
{
    if k < ts.len() {
        let pre = ts.subrange(0, k + 1);
        assert(pre.drop_last() =~= ts.subrange(0, k));
        lemma_apply_fails_on(states, ts, k + 1);
    } else {
        assert(ts.subrange(0, k) =~= ts);
    }
}

/// A transition from the recorded state `a` to `b` leaves `b` recorded; one
/// whose source is neither the recorded state nor `Undefined` is rejected
/// and leaves the recorded state as it was.
pub proof fn lemma_transition_tracks(states: Seq<ResourceState>, image: usize, a: ResourceState, b: ResourceState)
    requires
        image < states.len(),
    ensures
        states[image as int] == a ==> apply_transitions(
            states,
            seq![Transition { image, from: a, to: b }],
        ) == Some(states.update(image as int, b)),
        states[image as int] != a && a != ResourceState::Undefined ==> apply_transitions(
            states,
            seq![Transition { image, from: a, to: b }],
        ) is None,
{
    let ts = seq![Transition { image, from: a, to: b }];
    assert(ts.drop_last() =~= Seq::<Transition>::empty());
    assert(ts.last() == (Transition { image, from: a, to: b }));
    assert(apply_transitions(states, ts.drop_last()) == Some(states));
}

} // verus!
