use vstd::prelude::*;

verus! {

/// A resource waiting to be destroyed, tagged with the frame during which its
/// destruction was requested.
pub struct PendingDeletion<T> {
    pub resource: T,
    pub frame: u64,
}

/// The entries of `s` whose frame has retired once `retired` has, in order.
pub open spec fn due<T>(s: Seq<PendingDeletion<T>>, retired: u64) -> Seq<PendingDeletion<T>>
    decreases s.len(),
{
    if s.len() == 0 {
        Seq::empty()
    } else if s.last().frame <= retired {
        due(s.drop_last(), retired).push(s.last())
    } else {
        due(s.drop_last(), retired)
    }
}

/// The entries of `s` that must still wait after `retired` has retired, in
/// order.
pub open spec fn waiting<T>(s: Seq<PendingDeletion<T>>, retired: u64) -> Seq<
    PendingDeletion<T>,
>
    decreases s.len(),
{
    if s.len() == 0 {
        Seq::empty()
    } else if s.last().frame <= retired {
        waiting(s.drop_last(), retired)
    } else {
        waiting(s.drop_last(), retired).push(s.last())
    }
}

/// The resources held by a sequence of entries.
pub open spec fn resources<T>(s: Seq<PendingDeletion<T>>) -> Seq<T> {
    s.map_values(|e: PendingDeletion<T>| e.resource)
}

/// Destructions deferred until the device has finished the frame that last
/// used the resource.
pub struct DeletionQueue<T> {
    entries: Vec<PendingDeletion<T>>,
}

impl<T> DeletionQueue<T> {
    /// The pending entries, oldest first.
    pub closed spec fn pending(&self) -> Seq<PendingDeletion<T>> {
        self.entries@
    }

    pub fn new() -> (r: Self)
        ensures
            r.pending() == Seq::<PendingDeletion<T>>::empty(),
    {
        DeletionQueue { entries: Vec::new() }
    }

    pub fn len(&self) -> (r: usize)
        ensures
            r == self.pending().len(),
    {
        self.entries.len()
    }

    /// Defers the destruction of `resource`, requested during `current_frame`.
    pub fn request_destroy(&mut self, resource: T, current_frame: u64)
        ensures
            final(self).pending() == old(self).pending().push(
                PendingDeletion { resource, frame: current_frame },
            ),
    {
        self.entries.push(PendingDeletion { resource, frame: current_frame });
    }

    /// Takes out, oldest first, every entry whose frame is at most
    /// `retired_frame`, for the caller to destroy; the others stay, in order.
    pub fn collect(&mut self, retired_frame: u64) -> (r: Vec<T>)
        ensures
            r@ == resources(due(old(self).pending(), retired_frame)),
            final(self).pending() == waiting(old(self).pending(), retired_frame),
    {
        let mut rest: Vec<PendingDeletion<T>> = Vec::new();
        std::mem::swap(&mut rest, &mut self.entries);
        let ghost all = rest@;
        let mut freed: Vec<T> = Vec::new();
        let mut kept: Vec<PendingDeletion<T>> = Vec::new();
        let mut taken: Vec<PendingDeletion<T>> = Vec::new();
        // Entries come out of `rest` from the back, so walk it backwards into
        // `taken` and then forwards out of `taken`.
        while rest.len() > 0
            invariant
                rest@ + taken@.reverse() == all,
            decreases rest@.len(),
        {
            let e = rest.pop().unwrap();
            proof {
                assert(rest@ + (taken@.push(e)).reverse() =~= all);
            }
            taken.push(e);
        }
        let ghost n = all.len();
        assert(taken@.reverse() =~= all);
        while taken.len() > 0
            invariant
                n == all.len(),
                taken@.len() <= n,
                taken@.reverse() == all.subrange(n - taken@.len(), n as int),
                freed@ == resources(due(all.subrange(0, n - taken@.len()), retired_frame)),
                kept@ == waiting(all.subrange(0, n - taken@.len()), retired_frame),
            decreases taken@.len(),
        {
            let ghost done = n - taken@.len();
            let e = taken.pop().unwrap();
            proof {
                assert(taken@.reverse() =~= all.subrange(done + 1, n as int)) by {
                    assert(forall|j: int| 0 <= j < taken@.len() ==> #[trigger] taken@.reverse()[j] == all.subrange(done, n as int)[j + 1]);
                }
                assert(e == all[done]) by {
                    assert(all.subrange(done, n as int)[0] == e);
                }
                let pre = all.subrange(0, done + 1);
                assert(pre.drop_last() =~= all.subrange(0, done));
                assert(pre.last() == e);
            }
            if e.frame <= retired_frame {
                proof {
                    let pre = all.subrange(0, done);
                    assert(resources(due(pre, retired_frame).push(e)) =~= resources(due(pre, retired_frame)).push(e.resource));
                }
                freed.push(e.resource);
            } else {
                kept.push(e);
            }
        }
        assert(all.subrange(0, n as int) =~= all);
        self.entries = kept;
        freed
    }
}

/// A resource whose destruction was requested during frame `k` is not handed
/// out for destruction while only frames before `k` have retired, whatever
/// other requests came before or after it: it stays queued.
pub proof fn lemma_not_freed_before_retired<T>(
    s: Seq<PendingDeletion<T>>,
    i: int,
    retired_frame: u64,
)
    requires
        0 <= i < s.len(),
        retired_frame < s[i].frame,
    ensures
        !due(s, retired_frame).contains(s[i]),
        waiting(s, retired_frame).contains(s[i]),
    decreases s.len(),
{
    lemma_due_frames(s, retired_frame);
    if i == s.len() - 1 {
        assert(waiting(s, retired_frame).last() == s[i]);
    } else {
        assert(s.drop_last()[i] == s[i]);
        lemma_not_freed_before_retired(s.drop_last(), i, retired_frame);
        let w = waiting(s.drop_last(), retired_frame);
        let j = choose|j: int| 0 <= j < w.len() && w[j] == s[i];
        if s.last().frame > retired_frame {
            assert(waiting(s, retired_frame)[j] == s[i]);
        }
    }
}

/// Every entry handed out by `collect(retired_frame)` was requested during a
/// frame that has retired.
pub proof fn lemma_due_frames<T>(s: Seq<PendingDeletion<T>>, retired_frame: u64)
    ensures
        forall|j: int|
            0 <= j < due(s, retired_frame).len() ==> #[trigger] due(s, retired_frame)[j].frame
                <= retired_frame,
    decreases s.len(),
{
    if s.len() > 0 {
        lemma_due_frames(s.drop_last(), retired_frame);
        let d = due(s.drop_last(), retired_frame);
        if s.last().frame <= retired_frame {
            assert forall|j: int| 0 <= j < d.len() + 1 implies #[trigger] d.push(s.last())[j].frame
                <= retired_frame by {
                if j < d.len() {
                    assert(d.push(s.last())[j] == d[j]);
                }
            }
        }
    }
}

} // verus!
