use vstd::prelude::*;

use crate::error::GpuError;

verus! {

/// Phase of one slot of the frame ring.
#[derive(Debug, Clone, Copy, PartialEq, Eq, Structural)]
pub enum SlotState {
    /// Never used, or its last recording was dropped.
    Idle,
    /// The host is recording the slot's frame.
    Recording,
    /// The slot's frame went to the device and its fence has not been seen
    /// signaled.
    Submitted,
    /// The slot's fence was seen signaled: the device is done with its frame.
    Retired,
}

/// One slot of the frame ring and the frame it last held.
#[derive(Debug, Clone, Copy, PartialEq, Eq, Structural)]
pub struct FrameSlot {
    pub state: SlotState,
    pub frame: u64,
}

proof fn lemma_same_residue(a: int, b: int, n: int)
    requires
        n > 0,
        0 <= a,
        0 <= b,
        a % n == b % n,
        b - n <= a < b,
    ensures
        a == b - n,
{
    vstd::arithmetic::div_mod::lemma_fundamental_div_mod(a, n);
    vstd::arithmetic::div_mod::lemma_fundamental_div_mod(b, n);
    let k = b / n - a / n;
    assert(b - a == n * k) by (nonlinear_arith)
        requires
            a == n * (a / n) + a % n,
            b == n * (b / n) + b % n,
            a % n == b % n,
            k == b / n - a / n,
    ;
    assert(k == 1) by (nonlinear_arith)
        requires
            n > 0,
            0 < n * k <= n,
    ;
}

/// The ring of frames in flight: frame `k` is recorded in slot `k % N`, and
/// that slot may start it only once frame `k - N` has retired.
pub struct FrameOrchestrator {
    frames_in_flight: usize,
    frame_count: u64,
    slots: Vec<FrameSlot>,
}

impl FrameOrchestrator {
    /// Number of slots, that is of frames that may be in flight at once.
    pub closed spec fn n(&self) -> nat {
        self.frames_in_flight as nat
    }

    /// Index of the frame being recorded, or of the next one to begin.
    pub closed spec fn frame_count_spec(&self) -> u64 {
        self.frame_count
    }

    pub closed spec fn slots(&self) -> Seq<FrameSlot> {
        self.slots@
    }

    /// The slot that frame `frame` uses.
    pub open spec fn slot_of(&self, frame: int) -> int {
        frame % (self.n() as int)
    }

    /// The slot of the current frame.
    pub open spec fn current_slot(&self) -> int {
        self.slot_of(self.frame_count_spec() as int)
    }

    pub closed spec fn wf(&self) -> bool {
        &&& self.frames_in_flight > 0
        &&& self.slots@.len() == self.frames_in_flight
        &&& forall|i: int|
            0 <= i < self.slots@.len() ==> #[trigger] self.slot_ok(i)
    }

    closed spec fn slot_ok(&self, i: int) -> bool {
        let s = self.slots@[i];
        let n = self.frames_in_flight as int;
        let fc = self.frame_count as int;
        &&& s.state != SlotState::Idle ==> s.frame as int % n == i
        &&& s.state == SlotState::Recording ==> s.frame == self.frame_count && fc < u64::MAX
        &&& (s.state == SlotState::Submitted || s.state == SlotState::Retired) ==> s.frame < fc
            && fc <= s.frame + n
    }

    /// The ring has one slot per frame in flight, and the current frame's
    /// slot is one of them.
    pub proof fn lemma_slots_in_range(&self)
        requires
            self.wf(),
        ensures
            self.n() > 0,
            self.slots().len() == self.n(),
            0 <= self.current_slot() < self.n(),
    {
        vstd::arithmetic::div_mod::lemma_mod_bound(
            self.frame_count_spec() as int,
            self.n() as int,
        );
    }

    /// Number of frames in flight at once.
    pub fn new(frames_in_flight: usize) -> (r: Self)
        requires
            frames_in_flight > 0,
        ensures
            r.wf(),
            r.n() == frames_in_flight,
            r.frame_count_spec() == 0,
            r.slots() == Seq::new(
                frames_in_flight as nat,
                |i: int| FrameSlot { state: SlotState::Idle, frame: 0 },
            ),
    {
        let mut slots: Vec<FrameSlot> = Vec::new();
        while slots.len() < frames_in_flight
            invariant
                slots@.len() <= frames_in_flight,
                forall|i: int|
                    0 <= i < slots@.len() ==> slots@[i] == (FrameSlot {
                        state: SlotState::Idle,
                        frame: 0,
                    }),
            decreases frames_in_flight - slots@.len(),
        {
            slots.push(FrameSlot { state: SlotState::Idle, frame: 0 });
        }
        let r = FrameOrchestrator { frames_in_flight, frame_count: 0, slots };
        assert(r.slots() =~= Seq::new(
            frames_in_flight as nat,
            |i: int| FrameSlot { state: SlotState::Idle, frame: 0 },
        ));
        assert forall|i: int| 0 <= i < r.slots@.len() implies #[trigger] r.slot_ok(i) by {}
        r
    }

    pub fn frames_in_flight(&self) -> (r: usize)
        ensures
            r == self.n(),
    {
        self.frames_in_flight
    }

    pub fn frame_count(&self) -> (r: u64)
        ensures
            r == self.frame_count_spec(),
    {
        self.frame_count
    }

    /// The slot of the current frame.
    pub fn current_slot_index(&self) -> (r: usize)
        requires
            self.wf(),
        ensures
            r == self.current_slot(),
            r < self.n(),
    {
        (self.frame_count % (self.frames_in_flight as u64)) as usize
    }

    /// The state of slot `i`.
    pub fn slot(&self, i: usize) -> (r: FrameSlot)
        requires
            i < self.slots().len(),
        ensures
            r == self.slots()[i as int],
    {
        self.slots[i]
    }

    /// The slot whose fence must be waited on before the next frame can
    /// begin, if any.
    pub fn slot_to_wait(&self) -> (r: Option<usize>)
        requires
            self.wf(),
        ensures
            r == (if self.slots()[self.current_slot()].state == SlotState::Submitted {
                Some(self.current_slot() as usize)
            } else {
                None::<usize>
            }),
    {
        let s = self.current_slot_index();
        if self.slots[s].state == SlotState::Submitted {
            Some(s)
        } else {
            None
        }
    }

    /// Starts recording the current frame in its slot. Fails with
    /// `FrameInFlight` while that slot's previous frame has not retired, and
    /// with `InvalidFrameState` while a frame is already being recorded or no
    /// frame index is left.
    pub fn begin_frame(&mut self) -> (r: Result<usize, GpuError>)
        requires
            old(self).wf(),
        ensures
            final(self).wf(),
            final(self).n() == old(self).n(),
            final(self).frame_count_spec() == old(self).frame_count_spec(),
            old(self).slots()[old(self).current_slot()].state == SlotState::Submitted
                ==> r == Err::<usize, GpuError>(GpuError::FrameInFlight),
            old(self).slots()[old(self).current_slot()].state != SlotState::Submitted && r.is_err()
                ==> r == Err::<usize, GpuError>(GpuError::InvalidFrameState),
            r.is_ok() <==> (old(self).slots()[old(self).current_slot()].state == SlotState::Idle
                || old(self).slots()[old(self).current_slot()].state == SlotState::Retired)
                && old(self).frame_count_spec() < u64::MAX,
            r.is_err() ==> *final(self) == *old(self),
            r.is_ok() ==> r == Ok::<usize, GpuError>(old(self).current_slot() as usize)
                && final(self).slots() == old(self).slots().update(
                old(self).current_slot(),
                FrameSlot { state: SlotState::Recording, frame: old(self).frame_count_spec() },
            ),
    {
        let s = self.current_slot_index();
        let st = self.slots[s].state;
        if st == SlotState::Submitted {
            return Err(GpuError::FrameInFlight);
        }
        if st == SlotState::Recording || self.frame_count == u64::MAX {
            return Err(GpuError::InvalidFrameState);
        }
        let ghost before = *self;
        self.slots.set(s, FrameSlot { state: SlotState::Recording, frame: self.frame_count });
        assert forall|i: int| 0 <= i < self.slots@.len() implies #[trigger] self.slot_ok(i) by {
            assert(before.slot_ok(i));
        }
        Ok(s)
    }

    /// Drops the frame being recorded (its swapchain image could not be
    /// had): its slot goes back to idle and the frame index is not used up.
    pub fn abandon_frame(&mut self) -> (r: Result<(), GpuError>)
        requires
            old(self).wf(),
        ensures
            final(self).wf(),
            final(self).n() == old(self).n(),
            final(self).frame_count_spec() == old(self).frame_count_spec(),
            r.is_ok() <==> old(self).slots()[old(self).current_slot()].state
                == SlotState::Recording,
            r.is_err() ==> r == Err::<(), GpuError>(GpuError::InvalidFrameState) && *final(self)
                == *old(self),
            r.is_ok() ==> final(self).slots() == old(self).slots().update(
                old(self).current_slot(),
                FrameSlot { state: SlotState::Idle, frame: old(self).frame_count_spec() },
            ),
    {
        let s = self.current_slot_index();
        if self.slots[s].state != SlotState::Recording {
            return Err(GpuError::InvalidFrameState);
        }
        let ghost before = *self;
        self.slots.set(s, FrameSlot { state: SlotState::Idle, frame: self.frame_count });
        assert forall|i: int| 0 <= i < self.slots@.len() implies #[trigger] self.slot_ok(i) by {
            assert(before.slot_ok(i));
        }
        Ok(())
    }

    /// Submits the frame being recorded and moves on to the next frame
    /// index; returns the index of the submitted frame.
    pub fn end_frame(&mut self) -> (r: Result<u64, GpuError>)
        requires
            old(self).wf(),
        ensures
            final(self).wf(),
            final(self).n() == old(self).n(),
            r.is_ok() <==> old(self).slots()[old(self).current_slot()].state
                == SlotState::Recording,
            r.is_err() ==> r == Err::<u64, GpuError>(GpuError::InvalidFrameState) && *final(self)
                == *old(self),
            r.is_ok() ==> r == Ok::<u64, GpuError>(old(self).frame_count_spec())
                && final(self).frame_count_spec() == old(self).frame_count_spec() + 1
                && final(self).slots() == old(self).slots().update(
                old(self).current_slot(),
                FrameSlot { state: SlotState::Submitted, frame: old(self).frame_count_spec() },
            ),
    {
        let s = self.current_slot_index();
        if self.slots[s].state != SlotState::Recording {
            return Err(GpuError::InvalidFrameState);
        }
        let ghost before = *self;
        let frame = self.frame_count;
        assert(before.slot_ok(s as int));
        self.slots.set(s, FrameSlot { state: SlotState::Submitted, frame });
        self.frame_count = frame + 1;
        assert forall|i: int| 0 <= i < self.slots@.len() implies #[trigger] self.slot_ok(i) by {
            assert(before.slot_ok(i));
            let sl = self.slots@[i];
            let n = self.frames_in_flight as int;
            if i != s as int && (sl.state == SlotState::Submitted || sl.state == SlotState::Retired) {
                if frame as int == sl.frame + n {
                    assert((sl.frame as int + n) % n == (sl.frame as int) % n) by {
                        vstd::arithmetic::div_mod::lemma_mod_add_multiples_vanish(
                            sl.frame as int,
                            n,
                        );
                    }
                }
            }
        }
        Ok(frame)
    }

    /// Records that the fence of slot `slot` was seen signaled: its frame has
    /// retired. Returns the index of that frame.
    pub fn fence_signaled(&mut self, slot: usize) -> (r: Result<u64, GpuError>)
        requires
            old(self).wf(),
        ensures
            final(self).wf(),
            final(self).n() == old(self).n(),
            final(self).frame_count_spec() == old(self).frame_count_spec(),
            r.is_ok() <==> slot < old(self).n() && old(self).slots()[slot as int].state
                == SlotState::Submitted,
            r.is_err() ==> r == Err::<u64, GpuError>(GpuError::InvalidFrameState) && *final(self)
                == *old(self),
            r.is_ok() ==> r == Ok::<u64, GpuError>(old(self).slots()[slot as int].frame)
                && final(self).slots() == old(self).slots().update(
                slot as int,
                FrameSlot { state: SlotState::Retired, frame: old(self).slots()[slot as int].frame },
            ),
    {
        if slot >= self.slots.len() || self.slots[slot].state != SlotState::Submitted {
            return Err(GpuError::InvalidFrameState);
        }
        let ghost before = *self;
        let frame = self.slots[slot].frame;
        self.slots.set(slot, FrameSlot { state: SlotState::Retired, frame });
        assert forall|i: int| 0 <= i < self.slots@.len() implies #[trigger] self.slot_ok(i) by {
            assert(before.slot_ok(i));
        }
        Ok(frame)
    }
}

/// The ring bound: when the current frame's slot still holds a submitted
/// frame, that frame is exactly the one `N` frames back, so `begin_frame`
/// for frame `k` waits on the fence of frame `k - N` and never more than `N`
/// frames are in flight.
pub proof fn lemma_ring_bound(o: FrameOrchestrator)
    requires
        o.wf(),
        o.slots()[o.current_slot()].state == SlotState::Submitted,
    ensures
        o.slots()[o.current_slot()].frame + o.n() == o.frame_count_spec(),
{
    let s = o.current_slot();
    vstd::arithmetic::div_mod::lemma_mod_bound(o.frame_count_spec() as int, o.n() as int);
    assert(o.slot_ok(s));
    let f = o.slots()[s].frame as int;
    vstd::arithmetic::div_mod::lemma_mod_bound(f, o.n() as int);
    lemma_same_residue(f, o.frame_count_spec() as int, o.n() as int);
}

} // verus!
