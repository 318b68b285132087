//! The dispatcher's registry: the one place that maps live resource and context ids to
//! their records. Each id has at most one live entry; destroying a context never
//! destroys a resource.
use vstd::prelude::*;
use std::collections::HashMap;
use crate::error::{RutabagaErrorKind, RutabagaResult, error_of};
use crate::gfxstream::GfxstreamContext;
use crate::resource::{HandleExport, RutabagaResource, exports, same_but_backing};
use crate::rutabaga_utils::RutabagaIovec;

verus! {

broadcast use vstd::std_specs::hash::group_hash_axioms;

/// Live resources and contexts, each keyed by its guest-visible id.
pub struct ResourceRegistry {
    resources: HashMap<u32, RutabagaResource>,
    contexts: HashMap<u32, GfxstreamContext>,
    attached: Vec<(u32, u32)>,
}

/// Whether a (context, resource) pair is one that a removal for `ctx` and `res` takes out:
/// it matches each of the two that is given.
pub open spec fn spec_removed_pair(p: (u32, u32), ctx: Option<u32>, res: Option<u32>) -> bool {
    &&& (ctx matches Some(c) ==> p.0 == c)
    &&& (res matches Some(r) ==> p.1 == r)
}

/// The pairs of `pairs` that a removal for `ctx` and `res` leaves.
pub open spec fn spec_pairs_left(pairs: Set<(u32, u32)>, ctx: Option<u32>, res: Option<u32>) -> Set<
    (u32, u32),
> {
    pairs.filter(|p: (u32, u32)| !spec_removed_pair(p, ctx, res))
}

/// The pairs of `v` that a removal for `ctx` and `res` leaves, in their order.
fn pairs_left(v: &Vec<(u32, u32)>, ctx: Option<u32>, res: Option<u32>) -> (r: Vec<(u32, u32)>)
    ensures
        forall|p: (u32, u32)| r@.contains(p) <==> v@.contains(p) && !spec_removed_pair(p, ctx, res),
{
    let mut kept: Vec<(u32, u32)> = Vec::new();
    let mut i: usize = 0;
    while i < v.len()
        invariant
            i <= v@.len(),
            forall|p: (u32, u32)| kept@.contains(p) <==> (exists|j: int| 0 <= j < i && v@[j] == p)
                && !spec_removed_pair(p, ctx, res),
        decreases v@.len() - i,
    {
        let p = v[i];
        let drop = match (ctx, res) {
            (Some(c), Some(r)) => p.0 == c && p.1 == r,
            (Some(c), None) => p.0 == c,
            (None, Some(r)) => p.1 == r,
            (None, None) => true,
        };
        let ghost old_kept = kept@;
        if !drop {
            kept.push(p);
        }
        proof {
            assert forall|q: (u32, u32)| kept@.contains(q) <==> (exists|j: int| 0 <= j < i + 1 && v@[j] == q)
                && !spec_removed_pair(q, ctx, res) by {
                if kept@.contains(q) {
                    if old_kept.contains(q) {
                        let j = choose|j: int| 0 <= j < i && v@[j] == q;
                        assert(0 <= j < i + 1 && v@[j] == q);
                    } else {
                        let k = choose|k: int| 0 <= k < kept@.len() && kept@[k] == q;
                        assert(k == old_kept.len());
                        assert(v@[i as int] == q);
                    }
                }
                if (exists|j: int| 0 <= j < i + 1 && v@[j] == q) && !spec_removed_pair(q, ctx, res) {
                    let j = choose|j: int| 0 <= j < i + 1 && v@[j] == q;
                    if j < i {
                        assert(old_kept.contains(q));
                        let k = choose|k: int| 0 <= k < old_kept.len() && old_kept[k] == q;
                        assert(kept@[k] == q);
                    } else {
                        assert(kept@[old_kept.len() as int] == q);
                    }
                }
            }
        }
        i = i + 1;
    }
    kept
}

/// `after` is `before` with the guest backing of resource `id` set to `backing`, and
/// nothing else changed.
pub open spec fn backing_replaced(
    before: Map<u32, RutabagaResource>,
    after: Map<u32, RutabagaResource>,
    id: u32,
    backing: Option<Vec<RutabagaIovec>>,
) -> bool {
    &&& before.contains_key(id)
    &&& after.dom() == before.dom()
    &&& forall|k: u32| k != id && #[trigger] before.contains_key(k) ==> after[k] == before[k]
    &&& same_but_backing(&after[id], &before[id])
    &&& after[id].backing_iovecs == backing
}

impl ResourceRegistry {
    /// The live resources by id.
    pub closed spec fn resource_map(&self) -> Map<u32, RutabagaResource> {
        self.resources@
    }

    /// The live contexts by id.
    pub closed spec fn context_map(&self) -> Map<u32, GfxstreamContext> {
        self.contexts@
    }

    /// The (context id, resource id) pairs of resources attached to contexts.
    pub closed spec fn attachments(&self) -> Set<(u32, u32)> {
        Set::new(|p: (u32, u32)| self.attached@.contains(p))
    }

    /// The entries agree with their keys, and attachments join live contexts to live
    /// resources.
    pub closed spec fn wf(&self) -> bool {
        &&& forall|id: u32| #[trigger] self.resources@.contains_key(id) ==> self.resources@[id].resource_id == id
        &&& forall|id: u32| #[trigger] self.contexts@.contains_key(id) ==> self.contexts@[id].ctx_id == id
        &&& forall|p: (u32, u32)| #[trigger] self.attached@.contains(p) ==> self.contexts@.contains_key(p.0)
            && self.resources@.contains_key(p.1)
    }

    /// Every attachment joins a live context to a live resource.
    pub proof fn lemma_attachments_live(&self)
        requires
            self.wf(),
        ensures
            forall|p: (u32, u32)| #[trigger] self.attachments().contains(p) ==> self.context_map().contains_key(p.0)
                && self.resource_map().contains_key(p.1),
    {
    }

    /// Attaches a live resource to a live context; attaching it twice is the same as once.
    /// An unknown context fails with an invalid-context error, then an unknown resource
    /// with an invalid-resource error.
    pub fn context_attach_resource(&mut self, ctx_id: u32, resource_id: u32) -> (r: RutabagaResult<()>)
        requires
            old(self).wf(),
        ensures
            final(self).wf(),
            final(self).resource_map() == old(self).resource_map(),
            final(self).context_map() == old(self).context_map(),
            !old(self).context_map().contains_key(ctx_id) ==> (r matches Err(e) && e.kind
                == RutabagaErrorKind::InvalidContextId),
            old(self).context_map().contains_key(ctx_id) && !old(self).resource_map().contains_key(
                resource_id,
            ) ==> (r matches Err(e) && e.kind == RutabagaErrorKind::InvalidResourceId),
            r is Ok <==> old(self).context_map().contains_key(ctx_id) && old(self).resource_map().contains_key(resource_id),
            r is Ok ==> final(self).attachments() == old(self).attachments().insert((ctx_id, resource_id)),
            r is Err ==> final(self).attachments() == old(self).attachments(),
    {
        if !self.contexts.contains_key(&ctx_id) {
            return Err(error_of(RutabagaErrorKind::InvalidContextId));
        }
        if !self.resources.contains_key(&resource_id) {
            return Err(error_of(RutabagaErrorKind::InvalidResourceId));
        }
        if self.is_attached(ctx_id, resource_id) {
            assert(self.attachments() =~= old(self).attachments().insert((ctx_id, resource_id)));
            return Ok(());
        }
        let ghost before = self.attached@;
        assert(self.contexts@.contains_key(ctx_id) && self.resources@.contains_key(resource_id));
        self.attached.push((ctx_id, resource_id));
        proof {
            assert forall|p: (u32, u32)| #[trigger] self.attached@.contains(p) <==> before.contains(p) || p == (ctx_id, resource_id) by {
                if self.attached@.contains(p) && p != (ctx_id, resource_id) {
                    let k = choose|k: int| 0 <= k < self.attached@.len() && self.attached@[k] == p;
                    assert(before[k] == p);
                }
                if before.contains(p) {
                    let k = choose|k: int| 0 <= k < before.len() && before[k] == p;
                    assert(self.attached@[k] == p);
                }
                if p == (ctx_id, resource_id) {
                    assert(self.attached@[before.len() as int] == p);
                }
            }
            assert(forall|p: (u32, u32)| #[trigger] self.attached@.contains(p) ==> self.contexts@.contains_key(p.0)
                && self.resources@.contains_key(p.1));
            assert(self.attachments() =~= old(self).attachments().insert((ctx_id, resource_id)));
        }
        Ok(())
    }

    /// Whether the resource is attached to the context.
    pub fn is_attached(&self, ctx_id: u32, resource_id: u32) -> (r: bool)
        ensures
            r == self.attachments().contains((ctx_id, resource_id)),
    {
        let mut i: usize = 0;
        while i < self.attached.len()
            invariant
                i <= self.attached@.len(),
                forall|j: int| 0 <= j < i ==> self.attached@[j] != (ctx_id, resource_id),
            decreases self.attached@.len() - i,
        {
            let p = self.attached[i];
            if p.0 == ctx_id && p.1 == resource_id {
                assert(self.attached@[i as int] == (ctx_id, resource_id));
                return true;
            }
            i = i + 1;
        }
        false
    }

    /// Detaches a resource from a context; safe to repeat, and on a pair never attached. An
    /// unknown context fails with an invalid-context error, then an unknown resource with
    /// an invalid-resource error.
    pub fn context_detach_resource(&mut self, ctx_id: u32, resource_id: u32) -> (r: RutabagaResult<()>)
        requires
            old(self).wf(),
        ensures
            final(self).wf(),
            final(self).resource_map() == old(self).resource_map(),
            final(self).context_map() == old(self).context_map(),
            !old(self).context_map().contains_key(ctx_id) ==> (r matches Err(e) && e.kind
                == RutabagaErrorKind::InvalidContextId),
            old(self).context_map().contains_key(ctx_id) && !old(self).resource_map().contains_key(
                resource_id,
            ) ==> (r matches Err(e) && e.kind == RutabagaErrorKind::InvalidResourceId),
            r is Ok <==> old(self).context_map().contains_key(ctx_id) && old(self).resource_map().contains_key(resource_id),
            r is Ok ==> final(self).attachments() == old(self).attachments().remove((ctx_id, resource_id)),
            r is Err ==> final(self).attachments() == old(self).attachments(),
    {
        if !self.contexts.contains_key(&ctx_id) {
            return Err(error_of(RutabagaErrorKind::InvalidContextId));
        }
        if !self.resources.contains_key(&resource_id) {
            return Err(error_of(RutabagaErrorKind::InvalidResourceId));
        }
        self.attached = pairs_left(&self.attached, Some(ctx_id), Some(resource_id));
        proof {
            assert(self.attachments() =~= old(self).attachments().remove((ctx_id, resource_id)));
        }
        Ok(())
    }

    /// An empty registry.
    pub fn new() -> (r: ResourceRegistry)
        ensures
            r.wf(),
            r.resource_map() == Map::<u32, RutabagaResource>::empty(),
            r.context_map() == Map::<u32, GfxstreamContext>::empty(),
            r.attachments() == Set::<(u32, u32)>::empty(),
    {
        ResourceRegistry { resources: HashMap::new(), contexts: HashMap::new(), attached: Vec::new() }
    }

    /// The live resource with this id, if any.
    pub fn resource(&self, resource_id: u32) -> (r: Option<&RutabagaResource>)
        ensures
            self.resource_map().contains_key(resource_id) <==> r is Some,
            r matches Some(res) ==> *res == self.resource_map()[resource_id],
    {
        self.resources.get(&resource_id)
    }

    /// Registers a new resource under its id. An id that is already live is refused and
    /// the registry is left as it was.
    pub fn add_resource(&mut self, resource: RutabagaResource) -> (r: RutabagaResult<()>)
        requires
            old(self).wf(),
        ensures
            final(self).wf(),
            final(self).context_map() == old(self).context_map(),
            old(self).resource_map().contains_key(resource.resource_id) <==> r is Err,
            r matches Err(e) ==> e.kind == RutabagaErrorKind::InvalidResourceId,
            r is Err ==> final(self).resource_map() == old(self).resource_map(),
            r is Ok ==> final(self).resource_map() == old(self).resource_map().insert(
                resource.resource_id,
                resource,
            ),
    {
        if self.resources.contains_key(&resource.resource_id) {
            return Err(error_of(RutabagaErrorKind::InvalidResourceId));
        }
        self.resources.insert(resource.resource_id, resource);
        Ok(())
    }

    /// Destroys a resource: its entry leaves the registry and is handed back, and it is
    /// detached from every context. An unknown id fails with an invalid-id error.
    pub fn unref_resource(&mut self, resource_id: u32) -> (r: RutabagaResult<RutabagaResource>)
        requires
            old(self).wf(),
        ensures
            final(self).wf(),
            final(self).context_map() == old(self).context_map(),
            old(self).resource_map().contains_key(resource_id) <==> r is Ok,
            r matches Err(e) ==> e.kind == RutabagaErrorKind::InvalidResourceId,
            r is Err ==> final(self).resource_map() == old(self).resource_map(),
            r matches Ok(res) ==> res == old(self).resource_map()[resource_id]
                && final(self).resource_map() == old(self).resource_map().remove(resource_id),
            r is Ok ==> final(self).attachments() == spec_pairs_left(
                old(self).attachments(),
                None,
                Some(resource_id),
            ),
            r is Err ==> final(self).attachments() == old(self).attachments(),
    {
        match self.resources.remove(&resource_id) {
            Some(res) => {
                self.attached = pairs_left(&self.attached, None, Some(resource_id));
                proof {
                    assert(self.attachments() =~= spec_pairs_left(
                        old(self).attachments(),
                        None,
                        Some(resource_id),
                    ));
                }
                Ok(res)
            },
            None => Err(error_of(RutabagaErrorKind::InvalidResourceId)),
        }
    }

    /// Sets the guest backing of a live resource, replacing any earlier one. An unknown id
    /// fails with an invalid-id error.
    pub fn attach_backing(&mut self, resource_id: u32, iovecs: Vec<RutabagaIovec>) -> (r:
        RutabagaResult<()>)
        requires
            old(self).wf(),
        ensures
            final(self).wf(),
            final(self).context_map() == old(self).context_map(),
            old(self).resource_map().contains_key(resource_id) <==> r is Ok,
            r matches Err(e) ==> e.kind == RutabagaErrorKind::InvalidResourceId,
            r is Err ==> final(self).resource_map() == old(self).resource_map(),
            r is Ok ==> backing_replaced(
                old(self).resource_map(),
                final(self).resource_map(),
                resource_id,
                Some(iovecs),
            ),
    {
        match self.resources.remove(&resource_id) {
            None => Err(error_of(RutabagaErrorKind::InvalidResourceId)),
            Some(mut res) => {
                res.attach_backing(iovecs);
                self.resources.insert(resource_id, res);
                Ok(())
            },
        }
    }

    /// Removes the guest backing of a live resource; safe to repeat, and on a resource that
    /// never had any. An unknown id fails with an invalid-id error.
    pub fn detach_backing(&mut self, resource_id: u32) -> (r: RutabagaResult<()>)
        requires
            old(self).wf(),
        ensures
            final(self).wf(),
            final(self).context_map() == old(self).context_map(),
            old(self).resource_map().contains_key(resource_id) <==> r is Ok,
            r matches Err(e) ==> e.kind == RutabagaErrorKind::InvalidResourceId,
            r is Err ==> final(self).resource_map() == old(self).resource_map(),
            r is Ok ==> backing_replaced(
                old(self).resource_map(),
                final(self).resource_map(),
                resource_id,
                None,
            ),
    {
        match self.resources.remove(&resource_id) {
            None => Err(error_of(RutabagaErrorKind::InvalidResourceId)),
            Some(mut res) => {
                res.detach_backing();
                self.resources.insert(resource_id, res);
                Ok(())
            },
        }
    }

    /// Exports the OS handle of a live resource, as the resource's own export does. An
    /// unknown id fails with an invalid-id error; every other entry stays as it was.
    pub fn export_blob(&mut self, resource_id: u32) -> (r: RutabagaResult<HandleExport>)
        requires
            old(self).wf(),
        ensures
            final(self).wf(),
            final(self).context_map() == old(self).context_map(),
            final(self).attachments() == old(self).attachments(),
            !old(self).resource_map().contains_key(resource_id) ==> (r matches Err(e) && e.kind
                == RutabagaErrorKind::InvalidResourceId) && final(self).resource_map()
                == old(self).resource_map(),
            old(self).resource_map().contains_key(resource_id) ==> {
                &&& final(self).resource_map().contains_key(resource_id)
                &&& exports(
                    old(self).resource_map()[resource_id],
                    final(self).resource_map()[resource_id],
                    r,
                )
                &&& final(self).resource_map() == old(self).resource_map().insert(
                    resource_id,
                    final(self).resource_map()[resource_id],
                )
            },
    {
        match self.resources.remove(&resource_id) {
            None => Err(error_of(RutabagaErrorKind::InvalidResourceId)),
            Some(mut res) => {
                let r = res.export_blob();
                self.resources.insert(resource_id, res);
                proof {
                    assert(self.resources@ =~= old(self).resources@.insert(resource_id, res));
                }
                r
            },
        }
    }

    /// The live context with this id, if any.
    pub fn context(&self, ctx_id: u32) -> (r: Option<&GfxstreamContext>)
        ensures
            self.context_map().contains_key(ctx_id) <==> r is Some,
            r matches Some(c) ==> *c == self.context_map()[ctx_id],
    {
        self.contexts.get(&ctx_id)
    }

    /// Registers a new context under its id. An id that is already live is refused and the
    /// registry is left as it was.
    pub fn add_context(&mut self, context: GfxstreamContext) -> (r: RutabagaResult<()>)
        requires
            old(self).wf(),
        ensures
            final(self).wf(),
            final(self).resource_map() == old(self).resource_map(),
            old(self).context_map().contains_key(context.ctx_id) <==> r is Err,
            r matches Err(e) ==> e.kind == RutabagaErrorKind::InvalidContextId,
            r is Err ==> final(self).context_map() == old(self).context_map(),
            r is Ok ==> final(self).context_map() == old(self).context_map().insert(
                context.ctx_id,
                context,
            ),
    {
        if self.contexts.contains_key(&context.ctx_id) {
            return Err(error_of(RutabagaErrorKind::InvalidContextId));
        }
        self.contexts.insert(context.ctx_id, context);
        Ok(())
    }

    /// Destroys a context: its entry leaves the registry and is handed back, and every
    /// resource attached to it is detached; every resource stays. An unknown id fails with
    /// an invalid-id error.
    pub fn destroy_context(&mut self, ctx_id: u32) -> (r: RutabagaResult<GfxstreamContext>)
        requires
            old(self).wf(),
        ensures
            final(self).wf(),
            final(self).resource_map() == old(self).resource_map(),
            old(self).context_map().contains_key(ctx_id) <==> r is Ok,
            r matches Err(e) ==> e.kind == RutabagaErrorKind::InvalidContextId,
            r is Err ==> final(self).context_map() == old(self).context_map(),
            r matches Ok(c) ==> c == old(self).context_map()[ctx_id]
                && final(self).context_map() == old(self).context_map().remove(ctx_id),
            r is Ok ==> final(self).attachments() == spec_pairs_left(
                old(self).attachments(),
                Some(ctx_id),
                None,
            ),
            r is Err ==> final(self).attachments() == old(self).attachments(),
    {
        match self.contexts.remove(&ctx_id) {
            Some(c) => {
                self.attached = pairs_left(&self.attached, Some(ctx_id), None);
                proof {
                    assert(self.attachments() =~= spec_pairs_left(
                        old(self).attachments(),
                        Some(ctx_id),
                        None,
                    ));
                }
                Ok(c)
            },
            None => Err(error_of(RutabagaErrorKind::InvalidContextId)),
        }
    }
}

/// For every live resource id, attaching guest backing and then detaching it leaves the
/// registry as it was before the attach in all that map, transfer and export read; a
/// resource that had no backing before is left exactly as it was.
pub proof fn lemma_attach_then_detach(
    before: Map<u32, RutabagaResource>,
    attached: Map<u32, RutabagaResource>,
    after: Map<u32, RutabagaResource>,
    id: u32,
    iovecs: Vec<RutabagaIovec>,
)
    requires
        backing_replaced(before, attached, id, Some(iovecs)),
        backing_replaced(attached, after, id, None),
    ensures
        after.dom() == before.dom(),
        forall|k: u32| k != id && #[trigger] before.contains_key(k) ==> after[k] == before[k],
        same_but_backing(&after[id], &before[id]),
        before[id].backing_iovecs is None ==> after == before,
{
    if before[id].backing_iovecs is None {
        assert(after[id] == before[id]);
        assert(after =~= before);
    }
}

} // verus!
