//! The gfxstream component: the decisions made around each call into the native
//! gfxstream renderer. The renderer itself sits behind a fixed C call surface that the
//! embedding program drives; every function here either prepares the arguments of one
//! such call or turns what the call returned into this library's results.
use vstd::prelude::*;
use crate::error::{
    RutabagaError, RutabagaErrorKind, RutabagaResult, error_of, is_component_error, ret_to_res,
};
use crate::flags::GfxstreamFlags;
use crate::resource::RutabagaResource;
use crate::rutabaga_utils::{
    DeviceId, Resource3DInfo, ResourceCreate3D, ResourceCreateBlob, RutabagaComponentType,
    RutabagaFence, RutabagaHandle, RutabagaImportData, RutabagaIovec, RutabagaMapping,
    Transfer3D, VulkanInfo, RUTABAGA_FLAG_FENCE_HOST_SHAREABLE, RUTABAGA_IMPORT_FLAG_3D_INFO,
    RUTABAGA_IMPORT_FLAG_RESOURCE_EXISTS, RUTABAGA_IMPORT_FLAG_VULKAN_INFO,
    RUTABAGA_MAP_ACCESS_RW, component_bit,
};

verus! {

/// Keys of the renderer's start-up parameters.
pub const STREAM_RENDERER_PARAM_USER_DATA: u64 = 1;
pub const STREAM_RENDERER_PARAM_RENDERER_FLAGS: u64 = 2;
pub const STREAM_RENDERER_PARAM_FENCE_CALLBACK: u64 = 3;
pub const STREAM_RENDERER_PARAM_WIN0_WIDTH: u64 = 4;
pub const STREAM_RENDERER_PARAM_WIN0_HEIGHT: u64 = 5;
pub const STREAM_RENDERER_PARAM_DEBUG_CALLBACK: u64 = 6;
pub const STREAM_RENDERER_PARAM_RENDERER_FEATURES: u64 = 11;

/// The name a context gets when none is given.
pub const DEFAULT_CONTEXT_NAME: &'static str = "gpu_renderer";

/// One start-up parameter of the renderer: a key and its value.
#[derive(Clone, Copy, Debug)]
pub struct stream_renderer_param {
    pub key: u64,
    pub value: u64,
}

/// An OS handle as it crosses the renderer boundary.
#[derive(Copy, Clone, Default, Debug)]
pub struct stream_renderer_handle {
    pub os_handle: i64,
    pub handle_type: u32,
}

/// Device memory identity as the renderer reports it.
#[derive(Copy, Clone, Default, Debug)]
pub struct stream_renderer_vulkan_info {
    pub memory_index: u32,
    pub device_uuid: [u8; 16],
    pub driver_uuid: [u8; 16],
}

/// Image layout as it crosses the renderer boundary.
#[derive(Copy, Clone, Default, Debug)]
pub struct stream_renderer_3d_info {
    pub width: u32,
    pub height: u32,
    pub drm_fourcc: u32,
    pub strides: [u32; 4],
    pub offsets: [u32; 4],
    pub modifier: u64,
}

/// Import metadata as it crosses the renderer boundary.
#[derive(Copy, Clone, Default, Debug)]
pub struct stream_renderer_import_data {
    pub flags: u32,
    pub info_3d: stream_renderer_3d_info,
    pub info_vulkan: stream_renderer_vulkan_info,
}

/// Resource creation arguments as they cross the renderer boundary.
#[derive(Copy, Clone, Default, Debug)]
pub struct virgl_renderer_resource_create_args {
    pub handle: u32,
    pub target: u32,
    pub format: u32,
    pub bind: u32,
    pub width: u32,
    pub height: u32,
    pub depth: u32,
    pub array_size: u32,
    pub last_level: u32,
    pub nr_samples: u32,
    pub flags: u32,
}

/// A transfer box as it crosses the renderer boundary.
#[derive(Copy, Clone, Default, Debug)]
pub struct VirglBox {
    pub x: u32,
    pub y: u32,
    pub z: u32,
    pub w: u32,
    pub h: u32,
    pub d: u32,
}

/// The arguments of one transfer call into the renderer.
#[derive(Copy, Clone, Debug)]
pub struct TransferArgs {
    pub resource_id: u32,
    pub ctx_id: u32,
    pub level: u32,
    pub stride: u32,
    pub layer_stride: u32,
    pub transfer_box: VirglBox,
    pub offset: u64,
}

/// The virtio-gpu backend state tracker which supports accelerated rendering.
#[derive(Debug)]
pub struct Gfxstream {
    pub flags: GfxstreamFlags,
}

/// A guest command-submission endpoint bound to gfxstream.
#[derive(Debug)]
pub struct GfxstreamContext {
    pub ctx_id: u32,
}

/// What creating a fence asks of the caller.
#[derive(Copy, Clone, Debug)]
pub enum FenceStep {
    /// Deliver the fence to the context's handler now, before returning; the renderer is
    /// not called.
    SignalNow(RutabagaFence),
    /// Hand the fence to the renderer, which completes it later on its timeline.
    Submit(RutabagaFence),
}

/// The start-up parameters, in the order the renderer receives them.
pub open spec fn spec_init_params(
    display_width: u32,
    display_height: u32,
    flags: u32,
    user_data: u64,
    fence_callback: u64,
    debug_callback: Option<u64>,
    features: Option<u64>,
) -> Seq<stream_renderer_param> {
    let base = seq![
        stream_renderer_param { key: STREAM_RENDERER_PARAM_USER_DATA, value: user_data },
        stream_renderer_param { key: STREAM_RENDERER_PARAM_RENDERER_FLAGS, value: flags as u64 },
        stream_renderer_param { key: STREAM_RENDERER_PARAM_FENCE_CALLBACK, value: fence_callback },
        stream_renderer_param { key: STREAM_RENDERER_PARAM_WIN0_WIDTH, value: display_width as u64 },
        stream_renderer_param { key: STREAM_RENDERER_PARAM_WIN0_HEIGHT, value: display_height as u64 },
    ];
    let with_debug = match debug_callback {
        Some(d) => base.push(stream_renderer_param { key: STREAM_RENDERER_PARAM_DEBUG_CALLBACK, value: d }),
        None => base,
    };
    match features {
        Some(f) => with_debug.push(stream_renderer_param { key: STREAM_RENDERER_PARAM_RENDERER_FEATURES, value: f }),
        None => with_debug,
    }
}

/// The handle that a successful export call reported.
pub open spec fn spec_handle_of(h: stream_renderer_handle) -> RutabagaHandle {
    RutabagaHandle { os_handle: h.os_handle, handle_type: h.handle_type }
}

/// The device identity that a successful query reported.
pub open spec fn spec_vulkan_info_of(v: stream_renderer_vulkan_info) -> VulkanInfo {
    VulkanInfo {
        memory_idx: v.memory_index,
        device_id: DeviceId { device_uuid: v.device_uuid, driver_uuid: v.driver_uuid },
    }
}

/// The record of a non-blob resource that gfxstream owns.
pub open spec fn spec_plain_resource(resource_id: u32) -> RutabagaResource {
    RutabagaResource {
        resource_id,
        handle: None,
        blob: false,
        blob_mem: 0,
        blob_flags: 0,
        map_info: None,
        info_3d: None,
        vulkan_info: None,
        backing_iovecs: None,
        component_mask: component_bit(RutabagaComponentType::Gfxstream),
        size: 0,
        mapping: None,
    }
}

/// The box of a transfer, or nothing for a transfer of zero volume.
pub open spec fn spec_transfer_args(ctx_id: u32, resource_id: u32, t: Transfer3D) -> Option<TransferArgs> {
    if t.spec_is_empty() {
        None
    } else {
        Some(TransferArgs {
            resource_id,
            ctx_id,
            level: t.level,
            stride: t.stride,
            layer_stride: t.layer_stride,
            transfer_box: VirglBox { x: t.x, y: t.y, z: t.z, w: t.w, h: t.h, d: t.d },
            offset: t.offset,
        })
    }
}

/// What a transfer gives, once the call `args` asks for returned `ret`: success when no
/// call was needed, else what the call returned.
pub open spec fn transfer_result(args: Option<TransferArgs>, ret: i32, r: RutabagaResult<()>) -> bool {
    &&& args is None ==> r is Ok
    &&& args is Some ==> (r is Ok <==> ret == 0)
    &&& args is Some && ret != 0 ==> is_component_error(r, ret)
}

/// A transfer read or write with a zero width, height or depth asks for no call into the
/// renderer and succeeds, whatever the renderer would have returned.
pub proof fn lemma_empty_transfer_makes_no_call(
    ctx_id: u32,
    resource_id: u32,
    transfer: Transfer3D,
    ret: i32,
    r: RutabagaResult<()>,
)
    requires
        transfer.w == 0 || transfer.h == 0 || transfer.d == 0,
        transfer_result(spec_transfer_args(ctx_id, resource_id, transfer), ret, r),
    ensures
        spec_transfer_args(ctx_id, resource_id, transfer) is None,
        r is Ok,
{
}

/// Whether a fence asks for a host-shareable handle once created.
pub open spec fn spec_needs_export(fence: RutabagaFence) -> bool {
    fence.flags & RUTABAGA_FLAG_FENCE_HOST_SHAREABLE != 0
}

/// The decimal digits of `n` as ASCII bytes, most significant first, with no leading zero.
pub open spec fn decimal_digits(n: nat) -> Seq<u8>
    decreases n,
{
    if n < 10 {
        seq![(48 + n) as u8]
    } else {
        decimal_digits(n / 10).push((48 + n % 10) as u8)
    }
}

/// The record of a context's snapshot: the compact JSON object `{"ctx_id":N}`, with `N` the
/// context id in decimal.
pub open spec fn context_snapshot_json(ctx_id: u32) -> Seq<u8> {
    seq![123u8, 34u8, 99u8, 116u8, 120u8, 95u8, 105u8, 100u8, 34u8, 58u8] + decimal_digits(
        ctx_id as nat,
    ) + seq![125u8]
}

/// The unsigned integer under the key `ctx_id` of the JSON object in `bytes`, as serde_json
/// reads it; nothing when `bytes` is no JSON object or holds no such integer there.
pub uninterp spec fn snapshot_ctx_id(bytes: Seq<u8>) -> Option<u64>;

/// Relies on serde_json::to_vec of the serde_json::Value object {"ctx_id": ctx_id}: the
/// compact form, with integers in decimal. Serializing a Value with string keys does not
/// fail.
#[verifier::external_body]
fn write_context_snapshot(ctx_id: u32) -> (r: Option<Vec<u8>>)
    ensures
        r is Some,
        r matches Some(b) ==> b@ == context_snapshot_json(ctx_id),
{
    let mut object = serde_json::Map::new();
    object.insert(String::from("ctx_id"), serde_json::Value::from(ctx_id));
    serde_json::to_vec(&serde_json::Value::Object(object)).ok()
}

/// Relies on serde_json::from_slice into a serde_json::Value, then Value::get and
/// Value::as_u64: the unsigned integer under the key `ctx_id`, if any. Empty input is no
/// JSON value, and serde_json reads back the object that it wrote.
#[verifier::external_body]
fn read_context_snapshot(bytes: &[u8]) -> (r: Option<u64>)
    ensures
        r == snapshot_ctx_id(bytes@),
        bytes@.len() == 0 ==> r is None,
        forall|id: u32| bytes@ == #[trigger] context_snapshot_json(id) ==> r == Some(id as u64),
{
    let value: serde_json::Value = serde_json::from_slice(bytes).ok()?;
    value.get("ctx_id").and_then(serde_json::Value::as_u64)
}

/// The context that a record's `ctx_id` field gives: the context with that id when the
/// field is there and fits 32 bits, else a snapshot error.
pub open spec fn context_from_field(field: Option<u64>, r: RutabagaResult<GfxstreamContext>) -> bool {
    if field is Some && field->Some_0 <= u32::MAX {
        r matches Ok(c) && c.ctx_id == field->Some_0
    } else {
        r matches Err(e) && e.kind is SnapshotError
    }
}

impl Gfxstream {
    /// The start-up parameters handed to the renderer's init: user data, flags, fence
    /// callback and window size, then the debug callback and the feature string, each when
    /// given.
    pub fn init_params(
        display_width: u32,
        display_height: u32,
        gfxstream_flags: GfxstreamFlags,
        user_data: u64,
        fence_callback: u64,
        debug_callback: Option<u64>,
        features: Option<u64>,
    ) -> (r: Vec<stream_renderer_param>)
        ensures
            r@ == spec_init_params(
                display_width,
                display_height,
                gfxstream_flags.0,
                user_data,
                fence_callback,
                debug_callback,
                features,
            ),
    {
        let mut params: Vec<stream_renderer_param> = Vec::new();
        params.push(stream_renderer_param { key: STREAM_RENDERER_PARAM_USER_DATA, value: user_data });
        params.push(stream_renderer_param {
            key: STREAM_RENDERER_PARAM_RENDERER_FLAGS,
            value: gfxstream_flags.0 as u64,
        });
        params.push(stream_renderer_param { key: STREAM_RENDERER_PARAM_FENCE_CALLBACK, value: fence_callback });
        params.push(stream_renderer_param {
            key: STREAM_RENDERER_PARAM_WIN0_WIDTH,
            value: display_width as u64,
        });
        params.push(stream_renderer_param {
            key: STREAM_RENDERER_PARAM_WIN0_HEIGHT,
            value: display_height as u64,
        });
        if let Some(d) = debug_callback {
            params.push(stream_renderer_param { key: STREAM_RENDERER_PARAM_DEBUG_CALLBACK, value: d });
        }
        if let Some(f) = features {
            params.push(stream_renderer_param { key: STREAM_RENDERER_PARAM_RENDERER_FEATURES, value: f });
        }
        proof {
            let spec = spec_init_params(
                display_width,
                display_height,
                gfxstream_flags.0,
                user_data,
                fence_callback,
                debug_callback,
                features,
            );
            assert(params@ =~= spec);
        }
        params
    }

    /// The component, once the renderer's init returned `ret`.
    pub fn init(gfxstream_flags: GfxstreamFlags, ret: i32) -> (r: RutabagaResult<Gfxstream>)
        ensures
            ret == 0 <==> r is Ok,
            r matches Ok(g) ==> g.flags == gfxstream_flags,
            ret != 0 ==> is_component_error(r, ret),
    {
        match ret_to_res(ret) {
            Ok(()) => Ok(Gfxstream { flags: gfxstream_flags }),
            Err(e) => Err(e),
        }
    }

    /// The map flags of a blob, from the renderer's map-info query: what it reported,
    /// caching and access rights alike.
    pub fn map_info(&self, ret: i32, map_info: u32) -> (r: RutabagaResult<u32>)
        ensures
            ret == 0 <==> r is Ok,
            ret == 0 ==> r == Ok::<u32, RutabagaError>(map_info),
            ret != 0 ==> is_component_error(r, ret),
    {
        match ret_to_res(ret) {
            Ok(()) => Ok(map_info),
            Err(e) => Err(e),
        }
    }

    /// The device identity of a blob, from the renderer's Vulkan-info query.
    pub fn vulkan_info(&self, ret: i32, info: stream_renderer_vulkan_info) -> (r: RutabagaResult<
        VulkanInfo,
    >)
        ensures
            ret == 0 <==> r is Ok,
            ret == 0 ==> r == Ok::<VulkanInfo, RutabagaError>(spec_vulkan_info_of(info)),
            ret != 0 ==> is_component_error(r, ret),
    {
        match ret_to_res(ret) {
            Ok(()) => Ok(
                VulkanInfo {
                    memory_idx: info.memory_index,
                    device_id: DeviceId {
                        device_uuid: info.device_uuid,
                        driver_uuid: info.driver_uuid,
                    },
                },
            ),
            Err(e) => Err(e),
        }
    }

    /// The resource id to hand the renderer's export call for `resource`. Only a blob has
    /// memory to export: any other resource fails with an invalid-handle error, and the
    /// renderer is not called.
    pub fn export_blob(&self, resource: &RutabagaResource) -> (r: RutabagaResult<u32>)
        ensures
            resource.blob ==> r == Ok::<u32, RutabagaError>(resource.resource_id),
            !resource.blob ==> (r matches Err(e) && e.kind == RutabagaErrorKind::InvalidRutabagaHandle),
    {
        if !resource.blob {
            return Err(error_of(RutabagaErrorKind::InvalidRutabagaHandle));
        }
        Ok(resource.resource_id)
    }

    /// The handle of a blob, from the renderer's export call. The renderer hands over a
    /// descriptor that the caller now owns.
    pub fn exported_blob(&self, ret: i32, handle: stream_renderer_handle) -> (r: RutabagaResult<
        RutabagaHandle,
    >)
        ensures
            ret == 0 <==> r is Ok,
            ret == 0 ==> r == Ok::<RutabagaHandle, RutabagaError>(spec_handle_of(handle)),
            ret != 0 ==> is_component_error(r, ret),
    {
        handle_from_native(ret, handle)
    }

    /// The buffer that the renderer fills with a capset: exactly `max_size` zero bytes, the
    /// size that the capset query reported.
    pub fn get_capset(&self, max_size: u32) -> (r: Vec<u8>)
        ensures
            r@.len() == max_size,
            forall|i: int| 0 <= i < max_size ==> r@[i] == 0u8,
    {
        let mut buf: Vec<u8> = Vec::new();
        let mut i: u32 = 0;
        while i < max_size
            invariant
                i <= max_size,
                buf@.len() == i,
                forall|j: int| 0 <= j < i ==> buf@[j] == 0u8,
            decreases max_size - i,
        {
            buf.push(0u8);
            i = i + 1;
        }
        buf
    }

    /// The creation arguments handed to the renderer for a 3D resource.
    pub fn create_3d_args(&self, resource_id: u32, p: ResourceCreate3D) -> (r:
        virgl_renderer_resource_create_args)
        ensures
            r == (virgl_renderer_resource_create_args {
                handle: resource_id,
                target: p.target,
                format: p.format,
                bind: p.bind,
                width: p.width,
                height: p.height,
                depth: p.depth,
                array_size: p.array_size,
                last_level: p.last_level,
                nr_samples: p.nr_samples,
                flags: p.flags,
            }),
    {
        virgl_renderer_resource_create_args {
            handle: resource_id,
            target: p.target,
            format: p.format,
            bind: p.bind,
            width: p.width,
            height: p.height,
            depth: p.depth,
            array_size: p.array_size,
            last_level: p.last_level,
            nr_samples: p.nr_samples,
            flags: p.flags,
        }
    }

    /// The record of a 3D resource, once the renderer's create call returned `ret`: a
    /// non-blob resource of gfxstream with no handle, backing or mapping.
    pub fn create_3d(&self, resource_id: u32, ret: i32) -> (r: RutabagaResult<RutabagaResource>)
        ensures
            ret == 0 <==> r is Ok,
            ret == 0 ==> r == Ok::<RutabagaResource, RutabagaError>(spec_plain_resource(resource_id)),
            ret != 0 ==> is_component_error(r, ret),
    {
        match ret_to_res(ret) {
            Ok(()) => Ok(plain_resource(resource_id)),
            Err(e) => Err(e),
        }
    }

    /// The import metadata handed to the renderer, checked before any call: layout and
    /// device identity together are a protocol violation, and device identity alone is not
    /// supported by gfxstream. Otherwise the flags and the layout cross as they are.
    pub fn import_data(&self, import_data: RutabagaImportData) -> (r: RutabagaResult<
        stream_renderer_import_data,
    >)
        ensures
            import_data.flags & RUTABAGA_IMPORT_FLAG_VULKAN_INFO == 0 <==> r is Ok,
            import_data.flags & RUTABAGA_IMPORT_FLAG_3D_INFO != 0 && import_data.flags
                & RUTABAGA_IMPORT_FLAG_VULKAN_INFO != 0 ==> (r matches Err(e)
                && e.kind is SpecViolation),
            import_data.flags & RUTABAGA_IMPORT_FLAG_3D_INFO == 0 && import_data.flags
                & RUTABAGA_IMPORT_FLAG_VULKAN_INFO != 0 ==> (r matches Err(e)
                && e.kind == RutabagaErrorKind::Unsupported),
            r matches Ok(d) ==> d.flags == import_data.flags && d.info_3d == spec_3d_info_of(
                import_data.info_3d,
            ) && d.info_vulkan.memory_index == 0 && (forall|i: int| 0 <= i < 16
                ==> d.info_vulkan.device_uuid[i] == 0u8 && d.info_vulkan.driver_uuid[i] == 0u8),
    {
        if import_data.flags & RUTABAGA_IMPORT_FLAG_VULKAN_INFO != 0 {
            if import_data.flags & RUTABAGA_IMPORT_FLAG_3D_INFO != 0 {
                return Err(
                    error_of(
                        RutabagaErrorKind::SpecViolation("both layout and device identity given"),
                    ),
                );
            }
            return Err(error_of(RutabagaErrorKind::Unsupported));
        }
        let i = import_data.info_3d;
        Ok(
            stream_renderer_import_data {
                flags: import_data.flags,
                info_3d: stream_renderer_3d_info {
                    width: i.width,
                    height: i.height,
                    drm_fourcc: i.drm_fourcc,
                    strides: i.strides,
                    offsets: i.offsets,
                    modifier: i.modifier,
                },
                info_vulkan: stream_renderer_vulkan_info {
                    memory_index: 0,
                    device_uuid: [0u8; 16],
                    driver_uuid: [0u8; 16],
                },
            },
        )
    }

    /// The outcome of an import, once the renderer's import call returned `ret`: nothing
    /// new when the resource already existed, else a new non-blob resource.
    pub fn import(&self, resource_id: u32, flags: u32, ret: i32) -> (r: RutabagaResult<
        Option<RutabagaResource>,
    >)
        ensures
            ret == 0 <==> r is Ok,
            ret != 0 ==> is_component_error(r, ret),
            ret == 0 && flags & RUTABAGA_IMPORT_FLAG_RESOURCE_EXISTS != 0 ==> r == Ok::<
                Option<RutabagaResource>,
                RutabagaError,
            >(None),
            ret == 0 && flags & RUTABAGA_IMPORT_FLAG_RESOURCE_EXISTS == 0 ==> r == Ok::<
                Option<RutabagaResource>,
                RutabagaError,
            >(Some(spec_plain_resource(resource_id))),
    {
        match ret_to_res(ret) {
            Err(e) => Err(e),
            Ok(()) => {
                if flags & RUTABAGA_IMPORT_FLAG_RESOURCE_EXISTS != 0 {
                    Ok(None)
                } else {
                    Ok(Some(plain_resource(resource_id)))
                }
            },
        }
    }

    /// The arguments of a transfer-write call, or nothing when the transfer has zero
    /// volume: then no call is made and the write succeeds.
    pub fn transfer_write(&self, ctx_id: u32, resource_id: u32, transfer: Transfer3D) -> (r:
        Option<TransferArgs>)
        ensures
            r == spec_transfer_args(ctx_id, resource_id, transfer),
            r is None <==> transfer.spec_is_empty(),
    {
        transfer_args(ctx_id, resource_id, transfer)
    }

    /// The arguments of a transfer-read call, or nothing when the transfer has zero
    /// volume: then no call is made and the read succeeds.
    pub fn transfer_read(&self, ctx_id: u32, resource_id: u32, transfer: Transfer3D) -> (r:
        Option<TransferArgs>)
        ensures
            r == spec_transfer_args(ctx_id, resource_id, transfer),
            r is None <==> transfer.spec_is_empty(),
    {
        transfer_args(ctx_id, resource_id, transfer)
    }

    /// The outcome of a transfer: success when no call was needed, else what the call
    /// returned.
    pub fn transfer_outcome(&self, args: Option<TransferArgs>, ret: i32) -> (r: RutabagaResult<()>)
        ensures
            transfer_result(args, ret, r),
    {
        match args {
            None => Ok(()),
            Some(_) => ret_to_res(ret),
        }
    }

    /// The record of a blob resource, once the renderer's create call succeeded (its
    /// failure is `ret_to_res` of its code). The handle, mapping rights and device identity
    /// come from the three queries made after the create; a failed query leaves its field
    /// empty.
    pub fn create_blob(
        &self,
        resource_id: u32,
        resource_create_blob: ResourceCreateBlob,
        iovecs: Option<Vec<RutabagaIovec>>,
        handle: RutabagaResult<RutabagaHandle>,
        map_info: RutabagaResult<u32>,
        vulkan_info: RutabagaResult<VulkanInfo>,
    ) -> (res: RutabagaResource)
        ensures
            res.resource_id == resource_id,
            res.handle == handle.ok(),
            res.blob,
            res.blob_mem == resource_create_blob.blob_mem,
            res.blob_flags == resource_create_blob.blob_flags,
            res.map_info == map_info.ok(),
            res.info_3d is None,
            res.vulkan_info == vulkan_info.ok(),
            res.backing_iovecs == iovecs,
            res.component_mask == component_bit(RutabagaComponentType::Gfxstream),
            res.size == resource_create_blob.size,
            res.mapping is None,
    {
        RutabagaResource {
            resource_id,
            handle: handle.ok(),
            blob: true,
            blob_mem: resource_create_blob.blob_mem,
            blob_flags: resource_create_blob.blob_flags,
            map_info: map_info.ok(),
            info_3d: None,
            vulkan_info: vulkan_info.ok(),
            backing_iovecs: iovecs,
            component_mask: RutabagaComponentType::Gfxstream.mask_bit(),
            size: resource_create_blob.size,
            mapping: None,
        }
    }

    /// The mapping of a blob, once the renderer's map call returned `ret` with an address
    /// and a size. A failed map is a mapping error carrying the code.
    pub fn map(&self, ret: i32, ptr: u64, size: u64) -> (r: RutabagaResult<RutabagaMapping>)
        ensures
            ret == 0 <==> r is Ok,
            ret == 0 ==> r == Ok::<RutabagaMapping, RutabagaError>(RutabagaMapping { ptr, size }),
            r matches Err(e) ==> e.kind == RutabagaErrorKind::MappingFailed(ret),
    {
        if ret != 0 {
            return Err(error_of(RutabagaErrorKind::MappingFailed(ret)));
        }
        Ok(RutabagaMapping { ptr, size })
    }

    /// The outcome of an unmap call that returned `ret`.
    pub fn unmap(&self, ret: i32) -> (r: RutabagaResult<()>)
        ensures
            ret == 0 <==> r is Ok,
            ret != 0 ==> is_component_error(r, ret),
    {
        ret_to_res(ret)
    }

    /// The name handed to the renderer for a new context: the given one, or a default when
    /// none or an empty one is given.
    pub fn context_name<'a>(&self, context_name: Option<&'a str>) -> (r: &'a str)
        ensures
            match context_name {
                Some(s) => if s@.len() > 0 {
                    r == s
                } else {
                    r@ == DEFAULT_CONTEXT_NAME@
                },
                None => r@ == DEFAULT_CONTEXT_NAME@,
            },
    {
        match context_name {
            Some(s) => {
                if s.is_empty() {
                    DEFAULT_CONTEXT_NAME
                } else {
                    s
                }
            },
            None => DEFAULT_CONTEXT_NAME,
        }
    }

    /// A context, once the renderer's context-create call returned `ret`.
    pub fn create_context(&self, ctx_id: u32, ret: i32) -> (r: RutabagaResult<GfxstreamContext>)
        ensures
            ret == 0 <==> r is Ok,
            r matches Ok(c) ==> c.ctx_id == ctx_id,
            ret != 0 ==> is_component_error(r, ret),
    {
        match ret_to_res(ret) {
            Ok(()) => Ok(GfxstreamContext { ctx_id }),
            Err(e) => Err(e),
        }
    }

    /// The context that the `ctx_id` field of a snapshot record gives: the context with
    /// that id when the field is there and fits 32 bits, else a snapshot error.
    pub fn context_from_record(&self, field: Option<u64>) -> (r: RutabagaResult<GfxstreamContext>)
        ensures
            context_from_field(field, r),
    {
        match field {
            Some(id) => {
                if id <= u32::MAX as u64 {
                    Ok(GfxstreamContext { ctx_id: id as u32 })
                } else {
                    Err(error_of(RutabagaErrorKind::SnapshotError("context id out of range")))
                }
            },
            None => Err(error_of(RutabagaErrorKind::SnapshotError("unreadable context record"))),
        }
    }

    /// A context rebuilt from its snapshot record. A record that does not hold a context id
    /// that fits 32 bits fails with a snapshot error.
    pub fn restore_context(&self, snapshot: &[u8]) -> (r: RutabagaResult<GfxstreamContext>)
        ensures
            restores(snapshot@, r),
    {
        let field = read_context_snapshot(snapshot);
        self.context_from_record(field)
    }
}

/// What a snapshot of context `c` gives: its record.
pub open spec fn snapshots(c: GfxstreamContext, r: RutabagaResult<Vec<u8>>) -> bool {
    r matches Ok(b) && b@ == context_snapshot_json(c.ctx_id)
}

/// What restoring from `snapshot` gives: the context that its `ctx_id` field gives; so the
/// context whose record it is, and a snapshot error for empty input.
pub open spec fn restores(snapshot: Seq<u8>, r: RutabagaResult<GfxstreamContext>) -> bool {
    &&& context_from_field(snapshot_ctx_id(snapshot), r)
    &&& forall|id: u32| snapshot == #[trigger] context_snapshot_json(id) ==> (r matches Ok(c)
        && c.ctx_id == id)
    &&& snapshot.len() == 0 ==> (r matches Err(e) && e.kind is SnapshotError)
}

/// A snapshot followed at once by a restore from its bytes rebuilds a context with the
/// same id.
pub proof fn lemma_snapshot_restore(
    c: GfxstreamContext,
    taken: RutabagaResult<Vec<u8>>,
    restored: RutabagaResult<GfxstreamContext>,
)
    requires
        snapshots(c, taken),
        taken matches Ok(b) && restores(b@, restored),
    ensures
        restored matches Ok(r) && r.ctx_id == c.ctx_id,
{
    let b = taken->Ok_0;
    assert(b@ == context_snapshot_json(c.ctx_id));
}

impl Gfxstream {
    /// Contexts rebuilt from their snapshot records, one result per record: a record that
    /// fails leaves the others to be restored as they would be alone.
    pub fn restore_contexts(&self, snapshots: &Vec<Vec<u8>>) -> (r: Vec<RutabagaResult<GfxstreamContext>>)
        ensures
            r@.len() == snapshots@.len(),
            forall|i: int| 0 <= i < r@.len() ==> restores(#[trigger] snapshots@[i]@, r@[i]),
    {
        let mut out: Vec<RutabagaResult<GfxstreamContext>> = Vec::new();
        let mut i: usize = 0;
        while i < snapshots.len()
            invariant
                i <= snapshots@.len(),
                out@.len() == i,
                forall|j: int| 0 <= j < i ==> restores(#[trigger] snapshots@[j]@, out@[j]),
            decreases snapshots@.len() - i,
        {
            let r = self.restore_context(snapshots[i].as_slice());
            out.push(r);
            i = i + 1;
        }
        out
    }
}

/// The layout that crosses the renderer boundary for a resource's metadata.
pub open spec fn spec_3d_info_of(i: Resource3DInfo) -> stream_renderer_3d_info {
    stream_renderer_3d_info {
        width: i.width,
        height: i.height,
        drm_fourcc: i.drm_fourcc,
        strides: i.strides,
        offsets: i.offsets,
        modifier: i.modifier,
    }
}

fn plain_resource(resource_id: u32) -> (r: RutabagaResource)
    ensures
        r == spec_plain_resource(resource_id),
{
    RutabagaResource {
        resource_id,
        handle: None,
        blob: false,
        blob_mem: 0,
        blob_flags: 0,
        map_info: None,
        info_3d: None,
        vulkan_info: None,
        backing_iovecs: None,
        component_mask: RutabagaComponentType::Gfxstream.mask_bit(),
        size: 0,
        mapping: None,
    }
}

fn transfer_args(ctx_id: u32, resource_id: u32, transfer: Transfer3D) -> (r: Option<TransferArgs>)
    ensures
        r == spec_transfer_args(ctx_id, resource_id, transfer),
{
    if transfer.is_empty() {
        return None;
    }
    Some(
        TransferArgs {
            resource_id,
            ctx_id,
            level: transfer.level,
            stride: transfer.stride,
            layer_stride: transfer.layer_stride,
            transfer_box: VirglBox {
                x: transfer.x,
                y: transfer.y,
                z: transfer.z,
                w: transfer.w,
                h: transfer.h,
                d: transfer.d,
            },
            offset: transfer.offset,
        },
    )
}

/// The handle that an export call returned, or the call's error.
pub fn handle_from_native(ret: i32, handle: stream_renderer_handle) -> (r: RutabagaResult<
    RutabagaHandle,
>)
    ensures
        ret == 0 <==> r is Ok,
        ret == 0 ==> r == Ok::<RutabagaHandle, RutabagaError>(spec_handle_of(handle)),
        ret != 0 ==> is_component_error(r, ret),
{
    match ret_to_res(ret) {
        Ok(()) => Ok(RutabagaHandle { os_handle: handle.os_handle, handle_type: handle.handle_type }),
        Err(e) => Err(e),
    }
}

/// The form in which a handle given to the renderer crosses its boundary; the renderer
/// takes over the descriptor.
pub fn stream_handle_of(handle: RutabagaHandle) -> (r: stream_renderer_handle)
    ensures
        r == (stream_renderer_handle { os_handle: handle.os_handle, handle_type: handle.handle_type }),
{
    stream_renderer_handle { os_handle: handle.os_handle, handle_type: handle.handle_type }
}

/// The command-word size: a submitted buffer's length must be a multiple of it.
pub const COMMAND_WORD_SIZE: usize = 4;

impl GfxstreamContext {
    /// The size handed to the renderer for a command buffer of `len` bytes. A length that is
    /// not a whole number of command words is rejected; one past 32 bits cannot be handed
    /// over.
    pub fn submit_cmd(&self, len: usize) -> (r: RutabagaResult<u32>)
        ensures
            len % 4 != 0 ==> (r matches Err(e) && e.kind == RutabagaErrorKind::InvalidCommandSize(
                len,
            )),
            len % 4 == 0 && len > u32::MAX ==> (r matches Err(e) && e.kind
                == RutabagaErrorKind::TryFromIntError),
            len % 4 == 0 && len <= u32::MAX ==> r == Ok::<u32, RutabagaError>(len as u32),
    {
        if len % COMMAND_WORD_SIZE != 0 {
            return Err(error_of(RutabagaErrorKind::InvalidCommandSize(len)));
        }
        if len > u32::MAX as usize {
            return Err(error_of(RutabagaErrorKind::TryFromIntError));
        }
        Ok(len as u32)
    }

    /// What creating a fence asks for: a fence on ring 1 is delivered to the handler at
    /// once; a fence on any other ring goes to the renderer.
    pub fn context_create_fence(&self, fence: RutabagaFence) -> (r: FenceStep)
        ensures
            fence.ring_idx == 1 ==> r == FenceStep::SignalNow(fence),
            fence.ring_idx != 1 ==> r == FenceStep::Submit(fence),
    {
        if fence.ring_idx as u32 == 1 {
            FenceStep::SignalNow(fence)
        } else {
            FenceStep::Submit(fence)
        }
    }

    /// Whether a created fence asks for a host-shareable handle.
    pub fn needs_export(&self, fence: RutabagaFence) -> (r: bool)
        ensures
            r == spec_needs_export(fence),
    {
        fence.flags & RUTABAGA_FLAG_FENCE_HOST_SHAREABLE != 0
    }

    /// The outcome of a fence handed to the renderer, whose create call returned `ret`. A
    /// failed create is that error. A created fence gives whether a host-shareable handle is
    /// owed: the caller then exports it, and an export failure is reported on its own, the
    /// fence staying created.
    pub fn fence_created(&self, fence: RutabagaFence, ret: i32) -> (r: RutabagaResult<bool>)
        ensures
            ret != 0 ==> is_component_error(r, ret),
            ret == 0 ==> r == Ok::<bool, RutabagaError>(spec_needs_export(fence)),
    {
        match ret_to_res(ret) {
            Err(e) => Err(e),
            Ok(()) => Ok(self.needs_export(fence)),
        }
    }

    /// The snapshot record of this context.
    pub fn snapshot(&self) -> (r: RutabagaResult<Vec<u8>>)
        ensures
            snapshots(*self, r),
    {
        match write_context_snapshot(self.ctx_id) {
            Some(b) => Ok(b),
            None => Err(error_of(RutabagaErrorKind::IoError)),
        }
    }
}

} // verus!
