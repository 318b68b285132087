//! Fence timelines: fences wait on the timeline they name until the renderer reports one
//! of them complete, and each is delivered once, in the order it was requested.
use vstd::prelude::*;
use crate::rutabaga_utils::{RutabagaFence, RUTABAGA_FLAG_INFO_RING_IDX};

verus! {

/// The ordering domain of a fence: the default timeline, or one ring of one context.
#[derive(Copy, Clone, Debug, PartialEq, Eq, Structural)]
pub enum FenceTimeline {
    Global,
    Context { ctx_id: u32, ring_idx: u8 },
}

/// The timeline a fence is ordered on: its context's ring when it names one, else the
/// default timeline.
pub open spec fn spec_timeline(f: RutabagaFence) -> FenceTimeline {
    if f.flags & RUTABAGA_FLAG_INFO_RING_IDX != 0 {
        FenceTimeline::Context { ctx_id: f.ctx_id, ring_idx: f.ring_idx }
    } else {
        FenceTimeline::Global
    }
}

/// Whether the completion of `done` completes `f` too: `f` is on the same timeline and not
/// later than `done`.
pub open spec fn spec_retires(done: RutabagaFence, f: RutabagaFence) -> bool {
    spec_timeline(f) == spec_timeline(done) && f.fence_id <= done.fence_id
}

/// The fences that the completion of `done` completes.
pub open spec fn retired_by(done: RutabagaFence) -> spec_fn(RutabagaFence) -> bool {
    |f: RutabagaFence| spec_retires(done, f)
}

/// The fences that the completion of `done` leaves waiting.
pub open spec fn kept_by(done: RutabagaFence) -> spec_fn(RutabagaFence) -> bool {
    |f: RutabagaFence| !spec_retires(done, f)
}

/// The timeline a fence is ordered on.
pub fn timeline_of(f: &RutabagaFence) -> (r: FenceTimeline)
    ensures
        r == spec_timeline(*f),
{
    if f.flags & RUTABAGA_FLAG_INFO_RING_IDX != 0 {
        FenceTimeline::Context { ctx_id: f.ctx_id, ring_idx: f.ring_idx }
    } else {
        FenceTimeline::Global
    }
}

/// Whether the completion of `done` completes `f` too.
pub fn retires(done: &RutabagaFence, f: &RutabagaFence) -> (r: bool)
    ensures
        r == spec_retires(*done, *f),
{
    timeline_of(f) == timeline_of(done) && f.fence_id <= done.fence_id
}

/// The fences requested and not yet delivered, in the order they were requested.
pub struct FenceTimelines {
    pending: Vec<RutabagaFence>,
}

impl FenceTimelines {
    /// The pending fences, oldest first.
    pub closed spec fn pending(&self) -> Seq<RutabagaFence> {
        self.pending@
    }

    /// No fence pending.
    pub fn new() -> (r: FenceTimelines)
        ensures
            r.pending() == Seq::<RutabagaFence>::empty(),
    {
        FenceTimelines { pending: Vec::new() }
    }

    /// How many fences are pending.
    pub fn pending_count(&self) -> (r: usize)
        ensures
            r == self.pending().len(),
    {
        self.pending.len()
    }

    /// A fence handed to the renderer starts waiting on its timeline.
    pub fn request(&mut self, fence: RutabagaFence)
        ensures
            final(self).pending() == old(self).pending().push(fence),
    {
        self.pending.push(fence);
    }

    /// The renderer reports `done` complete: every pending fence that it retires is
    /// delivered, in the order requested, and stops pending; every other fence keeps
    /// waiting, in its order.
    pub fn complete(&mut self, done: RutabagaFence) -> (r: Vec<RutabagaFence>)
        ensures
            r@ == old(self).pending().filter(retired_by(done)),
            final(self).pending() == old(self).pending().filter(kept_by(done)),
    {
        let mut delivered: Vec<RutabagaFence> = Vec::new();
        let mut waiting: Vec<RutabagaFence> = Vec::new();
        let mut i: usize = 0;
        while i < self.pending.len()
            invariant
                i <= self.pending@.len(),
                self.pending@ == old(self).pending@,
                delivered@ == self.pending@.take(i as int).filter(retired_by(done)),
                waiting@ == self.pending@.take(i as int).filter(kept_by(done)),
            decreases self.pending@.len() - i,
        {
            let f = self.pending[i];
            proof {
                assert(self.pending@.take(i + 1) =~= self.pending@.take(i as int).push(f));
                self.pending@.take(i as int).lemma_filter_push(f, retired_by(done));
                self.pending@.take(i as int).lemma_filter_push(f, kept_by(done));
                assert(retired_by(done)(f) == spec_retires(done, f));
                assert(kept_by(done)(f) == !spec_retires(done, f));
            }
            if retires(&done, &f) {
                delivered.push(f);
            } else {
                waiting.push(f);
            }
            i = i + 1;
        }
        proof {
            assert(self.pending@.take(i as int) =~= self.pending@);
        }
        self.pending = waiting;
        delivered
    }
}

/// Each fence is delivered once: a fence that a completion delivers is no longer pending
/// afterwards, and fences on other timelines keep waiting in their order.
pub proof fn lemma_delivered_once(pending: Seq<RutabagaFence>, done: RutabagaFence)
    ensures
        forall|f: RutabagaFence| #[trigger] pending.filter(retired_by(done)).contains(f)
            ==> !pending.filter(kept_by(done)).contains(f),
        forall|f: RutabagaFence| spec_timeline(f) != spec_timeline(done) && #[trigger] pending.contains(f)
            ==> pending.filter(kept_by(done)).contains(f),
{
    let p_in = retired_by(done);
    let p_out = kept_by(done);
    assert forall|f: RutabagaFence| #[trigger] pending.filter(p_in).contains(f) implies !pending.filter(
        p_out,
    ).contains(f) by {
        let i = choose|i: int| 0 <= i < pending.filter(p_in).len() && pending.filter(p_in)[i] == f;
        pending.lemma_filter_pred(p_in, i);
        if pending.filter(p_out).contains(f) {
            let j = choose|j: int| 0 <= j < pending.filter(p_out).len() && pending.filter(p_out)[j] == f;
            pending.lemma_filter_pred(p_out, j);
        }
    }
    assert forall|f: RutabagaFence| spec_timeline(f) != spec_timeline(done) && #[trigger] pending.contains(f)
        implies pending.filter(p_out).contains(f) by {
        let i = choose|i: int| 0 <= i < pending.len() && pending[i] == f;
        pending.lemma_filter_contains(p_out, i);
    }
}

} // verus!
