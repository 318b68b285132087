//! The per-resource record that the dispatcher keeps, and the operations on it that do
//! not reach a backend.
use vstd::prelude::*;
use crate::error::{RutabagaError, RutabagaErrorKind, RutabagaResult, error_of};
use crate::rutabaga_utils::{
    Resource3DInfo, RutabagaHandle, RutabagaIovec, RutabagaMapping, VulkanInfo,
    RUTABAGA_BLOB_FLAG_USE_CROSS_DEVICE, RUTABAGA_BLOB_FLAG_USE_SHAREABLE,
};

verus! {

/// A resource: its guest-visible id, the component that owns it, its backing kind and
/// size, its guest backing pages, its exported OS handle and its host mapping.
#[derive(Debug)]
pub struct RutabagaResource {
    pub resource_id: u32,
    pub handle: Option<RutabagaHandle>,
    pub blob: bool,
    pub blob_mem: u32,
    pub blob_flags: u32,
    pub map_info: Option<u32>,
    pub info_3d: Option<Resource3DInfo>,
    pub vulkan_info: Option<VulkanInfo>,
    pub backing_iovecs: Option<Vec<RutabagaIovec>>,
    pub component_mask: u8,
    pub size: u64,
    pub mapping: Option<RutabagaMapping>,
}

/// How an exported handle reaches its new owner.
#[derive(Debug)]
pub enum HandleExport {
    /// The resource keeps its handle; the new owner gets a duplicate of this descriptor.
    Duplicate { os_handle: i64, handle_type: u32 },
    /// The handle leaves the resource and is handed over as it is.
    Transfer(RutabagaHandle),
}

/// Whether a blob's handle may be shared: it was created shareable or cross-device.
pub open spec fn spec_shareable(blob_flags: u32) -> bool {
    blob_flags & (RUTABAGA_BLOB_FLAG_USE_SHAREABLE | RUTABAGA_BLOB_FLAG_USE_CROSS_DEVICE) != 0
}

/// What exporting the handle of resource `before` gives, leaving the record `after`. A
/// non-blob resource, and a blob without a handle, fail with an invalid-handle error and
/// stay as they were. A shareable blob keeps its handle and the caller gets a duplicate of
/// it; any other blob gives its one handle away.
pub open spec fn exports(before: RutabagaResource, after: RutabagaResource, r: RutabagaResult<HandleExport>) -> bool {
    if !before.blob || before.handle is None {
        &&& r matches Err(e) && e.kind == RutabagaErrorKind::InvalidRutabagaHandle
        &&& after == before
    } else {
        let h = before.handle->Some_0;
        if spec_shareable(before.blob_flags) {
            &&& r == Ok::<HandleExport, RutabagaError>(
                HandleExport::Duplicate { os_handle: h.os_handle, handle_type: h.handle_type },
            )
            &&& after == before
        } else {
            &&& r == Ok::<HandleExport, RutabagaError>(HandleExport::Transfer(h))
            &&& after.handle is None
            &&& same_but_handle(&after, &before)
        }
    }
}

/// Two records that agree on everything but their guest backing pages: whatever map,
/// unmap, export and transfer read of a resource.
pub open spec fn same_but_backing(a: &RutabagaResource, b: &RutabagaResource) -> bool {
    &&& a.resource_id == b.resource_id
    &&& a.handle == b.handle
    &&& a.blob == b.blob
    &&& a.blob_mem == b.blob_mem
    &&& a.blob_flags == b.blob_flags
    &&& a.map_info == b.map_info
    &&& a.info_3d == b.info_3d
    &&& a.vulkan_info == b.vulkan_info
    &&& a.component_mask == b.component_mask
    &&& a.size == b.size
    &&& a.mapping == b.mapping
}

impl RutabagaResource {
    /// Associates guest memory ranges with the resource, replacing any earlier ones.
    pub fn attach_backing(&mut self, iovecs: Vec<RutabagaIovec>)
        ensures
            same_but_backing(&*final(self), &*old(self)),
            final(self).backing_iovecs == Some(iovecs),
    {
        self.backing_iovecs = Some(iovecs);
    }

    /// Disassociates the guest memory ranges; safe on a resource that has none.
    pub fn detach_backing(&mut self)
        ensures
            same_but_backing(&*final(self), &*old(self)),
            final(self).backing_iovecs is None,
    {
        self.backing_iovecs = None;
    }

    /// Whether the resource's handle may be shared, were it a blob.
    pub fn shareable(&self) -> (r: bool)
        ensures
            r == spec_shareable(self.blob_flags),
    {
        self.blob_flags & (RUTABAGA_BLOB_FLAG_USE_SHAREABLE | RUTABAGA_BLOB_FLAG_USE_CROSS_DEVICE)
            != 0
    }

    /// Hands out the resource's OS handle. Only a blob has one to give: a non-blob resource,
    /// and a blob without a handle, fail with an invalid-handle error. A shareable blob keeps
    /// its handle and the caller duplicates it; any other blob gives its one handle away.
    pub fn export_blob(&mut self) -> (r: RutabagaResult<HandleExport>)
        ensures
            exports(*old(self), *final(self), r),
    {
        if !self.blob {
            return Err(error_of(RutabagaErrorKind::InvalidRutabagaHandle));
        }
        let shareable = self.shareable();
        match self.handle.take() {
            None => Err(error_of(RutabagaErrorKind::InvalidRutabagaHandle)),
            Some(h) => {
                if shareable {
                    let e = HandleExport::Duplicate { os_handle: h.os_handle, handle_type: h.handle_type };
                    self.handle = Some(h);
                    Ok(e)
                } else {
                    Ok(HandleExport::Transfer(h))
                }
            },
        }
    }
}

/// Two records that agree on everything but their exported handle.
pub open spec fn same_but_handle(a: &RutabagaResource, b: &RutabagaResource) -> bool {
    &&& a.resource_id == b.resource_id
    &&& a.blob == b.blob
    &&& a.blob_mem == b.blob_mem
    &&& a.blob_flags == b.blob_flags
    &&& a.map_info == b.map_info
    &&& a.info_3d == b.info_3d
    &&& a.vulkan_info == b.vulkan_info
    &&& a.backing_iovecs == b.backing_iovecs
    &&& a.component_mask == b.component_mask
    &&& a.size == b.size
    &&& a.mapping == b.mapping
}

/// Exporting a handle from a non-blob resource fails with an invalid-handle error and
/// leaves the resource as it was.
pub proof fn lemma_non_blob_export_fails(
    before: RutabagaResource,
    after: RutabagaResource,
    r: RutabagaResult<HandleExport>,
)
    requires
        !before.blob,
        exports(before, after, r),
    ensures
        r matches Err(e) && e.kind == RutabagaErrorKind::InvalidRutabagaHandle,
        after == before,
{
}

} // verus!
