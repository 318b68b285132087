use rutabaga_gfx::error::{ret_to_res, RutabagaError, RutabagaErrorKind};
use rutabaga_gfx::fence::{timeline_of, FenceTimeline, FenceTimelines};
use rutabaga_gfx::flags::{GfxstreamFlags, RutabagaWsi, VirglRendererFlags};
use rutabaga_gfx::gfxstream::{
    stream_renderer_handle, stream_renderer_vulkan_info, FenceStep, Gfxstream, GfxstreamContext,
    STREAM_RENDERER_PARAM_DEBUG_CALLBACK, STREAM_RENDERER_PARAM_FENCE_CALLBACK,
    STREAM_RENDERER_PARAM_RENDERER_FEATURES, STREAM_RENDERER_PARAM_RENDERER_FLAGS,
    STREAM_RENDERER_PARAM_USER_DATA, STREAM_RENDERER_PARAM_WIN0_HEIGHT,
    STREAM_RENDERER_PARAM_WIN0_WIDTH,
};
use rutabaga_gfx::memory_mapping::{map_protection, MapProtection};
use rutabaga_gfx::registry::ResourceRegistry;
use rutabaga_gfx::resource::HandleExport;
use rutabaga_gfx::rutabaga_utils::{
    capset_component, capset_id_of, context_component, Resource3DInfo, ResourceCreate3D, ResourceCreateBlob, RutabagaComponentType,
    RutabagaFence, RutabagaHandle, RutabagaImportData, RutabagaIovec, Transfer3D,
    RUTABAGA_BLOB_FLAG_USE_MAPPABLE, RUTABAGA_BLOB_FLAG_USE_SHAREABLE,
    RUTABAGA_BLOB_MEM_HOST3D_GUEST, RUTABAGA_FLAG_FENCE, RUTABAGA_FLAG_FENCE_HOST_SHAREABLE, RUTABAGA_FLAG_INFO_RING_IDX,
    RUTABAGA_IMPORT_FLAG_3D_INFO, RUTABAGA_IMPORT_FLAG_RESOURCE_EXISTS,
    RUTABAGA_IMPORT_FLAG_VULKAN_INFO, RUTABAGA_MAP_ACCESS_RW, RUTABAGA_MAP_CACHE_CACHED,
};

fn kind<T>(r: Result<T, RutabagaError>) -> RutabagaErrorKind {
    match r {
        Ok(_) => panic!("expected an error"),
        Err(e) => e.kind().clone(),
    }
}

fn gfxstream() -> Gfxstream {
    Gfxstream::init(GfxstreamFlags::new(), 0).unwrap()
}

fn fence(ring_idx: u8, flags: u32) -> RutabagaFence {
    RutabagaFence { flags, fence_id: 11, ctx_id: 3, ring_idx }
}

fn blob_params() -> ResourceCreateBlob {
    ResourceCreateBlob {
        blob_mem: RUTABAGA_BLOB_MEM_HOST3D_GUEST,
        blob_flags: RUTABAGA_BLOB_FLAG_USE_MAPPABLE,
        blob_id: 0,
        size: 64 * 64 * 4,
    }
}

fn params_3d() -> ResourceCreate3D {
    ResourceCreate3D {
        target: 2,
        format: 1,
        bind: 2,
        width: 64,
        height: 32,
        depth: 1,
        array_size: 1,
        last_level: 0,
        nr_samples: 0,
        flags: 0,
    }
}

#[test]
fn virgl_flags_default_bits() {
    let flags = VirglRendererFlags::default();
    assert_eq!(u32::from(flags), 1 | 8 | 16);
    assert_eq!(VirglRendererFlags::new().bits(), 0);
}

#[test]
fn virgl_flags_set_and_clear() {
    let f = VirglRendererFlags::new().use_venus(true).use_drm(true);
    assert_eq!(f.bits(), 64 | 1024);
    assert_eq!(f.use_venus(false).bits(), 1024);
    assert_eq!(VirglRendererFlags::new().use_virgl(false).bits(), 128);
    assert_eq!(VirglRendererFlags::new().use_virgl(false).use_virgl(true).bits(), 0);
    let all = VirglRendererFlags::new()
        .use_egl(true)
        .use_thread_sync(true)
        .use_glx(true)
        .use_surfaceless(true)
        .use_gles(true)
        .use_external_blob(true)
        .use_async_fence_cb(true)
        .use_render_server(true);
    assert_eq!(all.bits(), 1 | 2 | 4 | 8 | 16 | 32 | 256 | 512);
}

#[test]
fn gfxstream_flags_bits() {
    let f = GfxstreamFlags::new()
        .use_egl(true)
        .use_glx(true)
        .use_surfaceless(true)
        .use_gles(true)
        .use_vulkan(true)
        .use_external_blob(true)
        .use_system_blob(true);
    assert_eq!(u32::from(f), 1 | 4 | 8 | 16 | 32 | 64 | 128);
    assert_eq!(u64::from(f.use_gles(false)), (1 | 4 | 8 | 32 | 64 | 128) as u64);
    assert_eq!(u32::from(GfxstreamFlags::default()), 0);
}

#[test]
fn gfxstream_flags_wsi() {
    let f = GfxstreamFlags::new().set_wsi(RutabagaWsi::VulkanSwapchain);
    assert_eq!(f.bits(), 256);
    assert_eq!(f.set_wsi(RutabagaWsi::Surfaceless).bits(), 0);
}

#[test]
fn transfer_new_2d_and_empty() {
    let t = Transfer3D::new_2d(1, 2, 3, 4, 5);
    assert_eq!((t.x, t.y, t.z, t.w, t.h, t.d), (1, 2, 0, 3, 4, 1));
    assert_eq!((t.level, t.stride, t.layer_stride, t.offset), (0, 0, 0, 5));
    assert!(!t.is_empty());
    assert!(Transfer3D::new_2d(1, 2, 0, 4, 5).is_empty());
    assert!(Transfer3D::new_2d(1, 2, 3, 0, 5).is_empty());
    let mut deep = t;
    deep.d = 0;
    assert!(deep.is_empty());
}

#[test]
fn component_names() {
    assert_eq!(RutabagaComponentType::CrossDomain.as_str(), "crossdomain");
    assert_eq!(RutabagaComponentType::Gfxstream.as_str(), "gfxstream");
    assert_eq!(RutabagaComponentType::Rutabaga2D.as_str(), "rutabaga2d");
    assert_eq!(RutabagaComponentType::VirglRenderer.as_str(), "virglrenderer");
    assert_eq!(RutabagaComponentType::Gfxstream.mask_bit(), 4);
}

#[test]
fn return_codes() {
    assert!(ret_to_res(0).is_ok());
    assert!(matches!(kind(ret_to_res(-22)), RutabagaErrorKind::ComponentError(-22)));
    assert!(matches!(kind(Gfxstream::init(GfxstreamFlags::new(), 5)), RutabagaErrorKind::ComponentError(5)));
    let e: RutabagaError = RutabagaErrorKind::AlreadyInUse.into();
    assert!(matches!(e.kind(), RutabagaErrorKind::AlreadyInUse));
}

#[test]
fn init_params_order() {
    let flags = GfxstreamFlags::new().use_vulkan(true);
    let p = Gfxstream::init_params(640, 480, flags, 100, 200, None, None);
    let keys: Vec<u64> = p.iter().map(|x| x.key).collect();
    assert_eq!(
        keys,
        vec![
            STREAM_RENDERER_PARAM_USER_DATA,
            STREAM_RENDERER_PARAM_RENDERER_FLAGS,
            STREAM_RENDERER_PARAM_FENCE_CALLBACK,
            STREAM_RENDERER_PARAM_WIN0_WIDTH,
            STREAM_RENDERER_PARAM_WIN0_HEIGHT
        ]
    );
    let values: Vec<u64> = p.iter().map(|x| x.value).collect();
    assert_eq!(values, vec![100, 32, 200, 640, 480]);
    let q = Gfxstream::init_params(640, 480, flags, 100, 200, Some(300), Some(400));
    assert_eq!(q.len(), 7);
    assert_eq!((q[5].key, q[5].value), (STREAM_RENDERER_PARAM_DEBUG_CALLBACK, 300));
    assert_eq!((q[6].key, q[6].value), (STREAM_RENDERER_PARAM_RENDERER_FEATURES, 400));
}

#[test]
fn capset_scenario() {
    assert_eq!(capset_id_of(0x05), 5);
    assert_eq!(capset_id_of(0x1205), 5);
    let g = gfxstream();
    let buf = g.get_capset(48);
    assert_eq!(buf.len(), 48);
    assert!(buf.iter().all(|b| *b == 0));
    assert_eq!(g.get_capset(0).len(), 0);
}

#[test]
fn map_info_keeps_reported_rights() {
    let g = gfxstream();
    assert_eq!(g.map_info(0, RUTABAGA_MAP_CACHE_CACHED | 0x10).unwrap(), RUTABAGA_MAP_CACHE_CACHED | 0x10);
    assert_eq!(g.map_info(0, RUTABAGA_MAP_ACCESS_RW).unwrap(), RUTABAGA_MAP_ACCESS_RW);
    assert!(matches!(kind(g.map_info(-1, 0)), RutabagaErrorKind::ComponentError(-1)));
}

#[test]
fn vulkan_info_and_export() {
    let g = gfxstream();
    let info = stream_renderer_vulkan_info { memory_index: 3, device_uuid: [1; 16], driver_uuid: [2; 16] };
    let v = g.vulkan_info(0, info).unwrap();
    assert_eq!(v.memory_idx, 3);
    assert_eq!(v.device_id.device_uuid, [1; 16]);
    assert_eq!(v.device_id.driver_uuid, [2; 16]);
    assert!(matches!(kind(g.vulkan_info(-5, info)), RutabagaErrorKind::ComponentError(-5)));
    let h = g.exported_blob(0, stream_renderer_handle { os_handle: 9, handle_type: 2 }).unwrap();
    assert_eq!((h.os_handle, h.handle_type), (9, 2));
    assert!(matches!(kind(g.exported_blob(-1, stream_renderer_handle::default())), RutabagaErrorKind::ComponentError(-1)));
}

#[test]
fn export_from_non_blob_is_refused() {
    let g = gfxstream();
    let plain = g.create_3d(5, 0).unwrap();
    assert!(matches!(kind(g.export_blob(&plain)), RutabagaErrorKind::InvalidRutabagaHandle));
    let blob = g.create_blob(6, blob_params(), None, Err(RutabagaErrorKind::Unsupported.into()), Ok(0), Err(RutabagaErrorKind::Unsupported.into()));
    assert_eq!(g.export_blob(&blob).unwrap(), 6);
}

#[test]
fn create_3d_record() {
    let g = gfxstream();
    let args = g.create_3d_args(5, params_3d());
    assert_eq!((args.handle, args.width, args.height, args.target), (5, 64, 32, 2));
    let r = g.create_3d(5, 0).unwrap();
    assert_eq!(r.resource_id, 5);
    assert!(!r.blob);
    assert!(r.handle.is_none());
    assert_eq!(r.component_mask, 4);
    assert!(matches!(kind(g.create_3d(5, -12)), RutabagaErrorKind::ComponentError(-12)));
}

#[test]
fn import_checks_metadata() {
    let g = gfxstream();
    let mut data = RutabagaImportData { flags: RUTABAGA_IMPORT_FLAG_3D_INFO, info_3d: Resource3DInfo::default() };
    data.info_3d.width = 8;
    data.info_3d.strides = [32, 0, 0, 0];
    let d = g.import_data(data).unwrap();
    assert_eq!(d.flags, RUTABAGA_IMPORT_FLAG_3D_INFO);
    assert_eq!(d.info_3d.width, 8);
    assert_eq!(d.info_3d.strides, [32, 0, 0, 0]);
    data.flags = RUTABAGA_IMPORT_FLAG_3D_INFO | RUTABAGA_IMPORT_FLAG_VULKAN_INFO;
    assert!(matches!(kind(g.import_data(data)), RutabagaErrorKind::SpecViolation(_)));
    data.flags = RUTABAGA_IMPORT_FLAG_VULKAN_INFO;
    assert!(matches!(kind(g.import_data(data)), RutabagaErrorKind::Unsupported));
}

#[test]
fn import_outcome() {
    let g = gfxstream();
    assert!(g.import(4, RUTABAGA_IMPORT_FLAG_RESOURCE_EXISTS, 0).unwrap().is_none());
    let r = g.import(4, RUTABAGA_IMPORT_FLAG_3D_INFO, 0).unwrap().unwrap();
    assert_eq!(r.resource_id, 4);
    assert!(matches!(kind(g.import(4, 0, 7)), RutabagaErrorKind::ComponentError(7)));
}

#[test]
fn empty_transfers_make_no_call() {
    let g = gfxstream();
    let empty = Transfer3D::new_2d(0, 0, 0, 16, 0);
    assert!(g.transfer_write(1, 2, empty).is_none());
    assert!(g.transfer_read(1, 2, empty).is_none());
    assert!(g.transfer_outcome(None, -1).is_ok());
    let t = Transfer3D::new_2d(1, 2, 16, 8, 64);
    let args = g.transfer_write(1, 2, t).unwrap();
    assert_eq!((args.ctx_id, args.resource_id, args.offset), (1, 2, 64));
    assert_eq!((args.transfer_box.w, args.transfer_box.h, args.transfer_box.d), (16, 8, 1));
    assert!(matches!(kind(g.transfer_outcome(Some(args), -3)), RutabagaErrorKind::ComponentError(-3)));
}

#[test]
fn blob_map_unmap_scenario() {
    let g = gfxstream();
    let handle = Ok(RutabagaHandle { os_handle: 12, handle_type: 2 });
    assert!(ret_to_res(0).is_ok());
    let res = g.create_blob(7, blob_params(), None, handle, g.map_info(0, RUTABAGA_MAP_CACHE_CACHED), Err(RutabagaErrorKind::Unsupported.into()));
    assert_eq!(res.resource_id, 7);
    assert!(res.blob);
    assert_eq!(res.blob_mem, RUTABAGA_BLOB_MEM_HOST3D_GUEST);
    assert_eq!(res.blob_flags, RUTABAGA_BLOB_FLAG_USE_MAPPABLE);
    assert_eq!(res.size, 64 * 64 * 4);
    assert_eq!(res.map_info, Some(RUTABAGA_MAP_CACHE_CACHED));
    assert!(res.vulkan_info.is_none());
    let m = g.map(0, 0x7000_0000, 64 * 64 * 4).unwrap();
    assert!(m.ptr != 0);
    assert_eq!(m.size, 64 * 64 * 4);
    assert!(g.unmap(0).is_ok());
    assert!(matches!(kind(g.unmap(-1)), RutabagaErrorKind::ComponentError(-1)));
    assert!(matches!(kind(g.map(-2, 0, 0)), RutabagaErrorKind::MappingFailed(-2)));
    assert!(matches!(kind(ret_to_res(-4)), RutabagaErrorKind::ComponentError(-4)));
}

#[test]
fn context_names_and_creation() {
    let g = gfxstream();
    assert_eq!(g.context_name(None), "gpu_renderer");
    assert_eq!(g.context_name(Some("")), "gpu_renderer");
    assert_eq!(g.context_name(Some("test")), "test");
    assert_eq!(g.create_context(3, 0).unwrap().ctx_id, 3);
    assert!(matches!(kind(g.create_context(3, 1)), RutabagaErrorKind::ComponentError(1)));
}

#[test]
fn fence_on_ring_one_signals_at_once() {
    let g = gfxstream();
    let c = g.create_context(3, 0).unwrap();
    assert!(matches!(c.context_create_fence(fence(1, RUTABAGA_FLAG_FENCE)), FenceStep::SignalNow(f) if f.fence_id == 11));
    assert!(matches!(c.context_create_fence(fence(0, RUTABAGA_FLAG_FENCE)), FenceStep::Submit(_)));
    assert!(matches!(c.context_create_fence(fence(2, RUTABAGA_FLAG_FENCE)), FenceStep::Submit(_)));
}

#[test]
fn fence_creation_outcomes() {
    let c = GfxstreamContext { ctx_id: 3 };
    let plain = fence(0, RUTABAGA_FLAG_FENCE);
    let shared = fence(0, RUTABAGA_FLAG_FENCE | RUTABAGA_FLAG_FENCE_HOST_SHAREABLE);
    assert!(!c.needs_export(plain));
    assert!(c.needs_export(shared));
    assert!(!c.fence_created(plain, 0).unwrap());
    assert!(c.fence_created(shared, 0).unwrap());
    assert!(matches!(kind(c.fence_created(shared, -9)), RutabagaErrorKind::ComponentError(-9)));
    assert!(matches!(kind(c.fence_created(plain, 3)), RutabagaErrorKind::ComponentError(3)));
}

#[test]
fn command_sizes() {
    let c = GfxstreamContext { ctx_id: 3 };
    assert_eq!(c.submit_cmd(16).unwrap(), 16);
    assert_eq!(c.submit_cmd(0).unwrap(), 0);
    assert!(matches!(kind(c.submit_cmd(6)), RutabagaErrorKind::InvalidCommandSize(6)));
}

#[test]
fn snapshot_then_restore() {
    let g = gfxstream();
    let c = GfxstreamContext { ctx_id: 42 };
    let bytes = c.snapshot().unwrap();
    assert_eq!(bytes, b"{\"ctx_id\":42}".to_vec());
    let restored = g.restore_context(&bytes).unwrap();
    assert_eq!(restored.ctx_id, 42);
    assert_eq!(restored.submit_cmd(8).unwrap(), 8);
}

#[test]
fn restore_rejects_bad_records() {
    let g = gfxstream();
    assert!(matches!(kind(g.restore_context(b"not json")), RutabagaErrorKind::SnapshotError(_)));
    assert!(matches!(kind(g.restore_context(b"")), RutabagaErrorKind::SnapshotError(_)));
    assert!(matches!(kind(g.restore_context(b"{\"ctx_id\":4")), RutabagaErrorKind::SnapshotError(_)));
    assert_eq!(g.context_from_record(Some(8)).unwrap().ctx_id, 8);
    assert!(matches!(kind(g.context_from_record(None)), RutabagaErrorKind::SnapshotError(_)));
    assert!(matches!(kind(g.restore_context(b"{\"ctx\":1}")), RutabagaErrorKind::SnapshotError(_)));
    assert!(matches!(kind(g.restore_context(b"{\"ctx_id\":4294967296}")), RutabagaErrorKind::SnapshotError(_)));
    assert_eq!(g.restore_context(b"{\"ctx_id\":4294967295}").unwrap().ctx_id, u32::MAX);
}

#[test]
fn mapping_protection() {
    assert_eq!(map_protection(0x10, 4096).unwrap(), MapProtection::Read);
    assert_eq!(map_protection(0x21, 4096).unwrap(), MapProtection::Write);
    assert_eq!(map_protection(0x33, 4096).unwrap(), MapProtection::ReadWrite);
    assert!(matches!(kind(map_protection(0x40, 4096)), RutabagaErrorKind::SpecViolation("incorrect access flags")));
    assert!(matches!(kind(map_protection(0x30, 0)), RutabagaErrorKind::SpecViolation("zero size mapping")));
}

#[test]
fn registry_attach_detach() {
    let g = gfxstream();
    let mut reg = ResourceRegistry::new();
    reg.add_resource(g.create_3d(1, 0).unwrap()).unwrap();
    assert!(matches!(kind(reg.add_resource(g.create_3d(1, 0).unwrap())), RutabagaErrorKind::InvalidResourceId));
    reg.attach_backing(1, vec![RutabagaIovec { base: 0x1000, len: 4096 }]).unwrap();
    assert_eq!(reg.resource(1).unwrap().backing_iovecs.as_ref().unwrap().len(), 1);
    reg.detach_backing(1).unwrap();
    reg.detach_backing(1).unwrap();
    assert!(reg.resource(1).unwrap().backing_iovecs.is_none());
    assert!(matches!(kind(reg.attach_backing(2, vec![])), RutabagaErrorKind::InvalidResourceId));
    assert!(matches!(kind(reg.detach_backing(2)), RutabagaErrorKind::InvalidResourceId));
}

#[test]
fn registry_export() {
    let g = gfxstream();
    let mut reg = ResourceRegistry::new();
    reg.add_resource(g.create_3d(1, 0).unwrap()).unwrap();
    assert!(matches!(kind(reg.export_blob(1)), RutabagaErrorKind::InvalidRutabagaHandle));
    assert!(matches!(kind(reg.export_blob(9)), RutabagaErrorKind::InvalidResourceId));
    let unshared = g.create_blob(2, blob_params(), None, Ok(RutabagaHandle { os_handle: 5, handle_type: 2 }), Ok(0x31), Ok(Default::default()));
    reg.add_resource(unshared).unwrap();
    assert!(matches!(reg.export_blob(2).unwrap(), HandleExport::Transfer(h) if h.os_handle == 5));
    assert!(matches!(kind(reg.export_blob(2)), RutabagaErrorKind::InvalidRutabagaHandle));
    let mut shared_params = blob_params();
    shared_params.blob_flags |= RUTABAGA_BLOB_FLAG_USE_SHAREABLE;
    let shared = g.create_blob(3, shared_params, None, Ok(RutabagaHandle { os_handle: 6, handle_type: 2 }), Ok(0x31), Ok(Default::default()));
    reg.add_resource(shared).unwrap();
    assert!(matches!(reg.export_blob(3).unwrap(), HandleExport::Duplicate { os_handle: 6, handle_type: 2 }));
    assert!(matches!(reg.export_blob(3).unwrap(), HandleExport::Duplicate { os_handle: 6, .. }));
    let mut plain_with_handle = g.create_3d(4, 0).unwrap();
    plain_with_handle.handle = Some(RutabagaHandle { os_handle: 7, handle_type: 2 });
    reg.add_resource(plain_with_handle).unwrap();
    assert!(matches!(kind(reg.export_blob(4)), RutabagaErrorKind::InvalidRutabagaHandle));
    assert_eq!(reg.resource(4).unwrap().handle.as_ref().unwrap().os_handle, 7);
}

#[test]
fn registry_contexts_and_unref() {
    let g = gfxstream();
    let mut reg = ResourceRegistry::new();
    reg.add_resource(g.create_3d(1, 0).unwrap()).unwrap();
    reg.add_context(g.create_context(3, 0).unwrap()).unwrap();
    assert!(matches!(kind(reg.add_context(GfxstreamContext { ctx_id: 3 })), RutabagaErrorKind::InvalidContextId));
    assert_eq!(reg.context(3).unwrap().ctx_id, 3);
    assert_eq!(reg.destroy_context(3).unwrap().ctx_id, 3);
    assert!(reg.context(3).is_none());
    assert!(reg.resource(1).is_some());
    assert!(matches!(kind(reg.destroy_context(3)), RutabagaErrorKind::InvalidContextId));
    assert_eq!(reg.unref_resource(1).unwrap().resource_id, 1);
    assert!(reg.resource(1).is_none());
    assert!(matches!(kind(reg.unref_resource(1)), RutabagaErrorKind::InvalidResourceId));
}

#[test]
fn restore_each_record_alone() {
    let g = gfxstream();
    let good = GfxstreamContext { ctx_id: 9 }.snapshot().unwrap();
    let records = vec![good.clone(), b"{".to_vec(), GfxstreamContext { ctx_id: 10 }.snapshot().unwrap()];
    let out = g.restore_contexts(&records);
    assert_eq!(out.len(), 3);
    assert_eq!(out[0].as_ref().unwrap().ctx_id, 9);
    assert!(out[1].is_err());
    assert_eq!(out[2].as_ref().unwrap().ctx_id, 10);
}

#[test]
fn capset_components() {
    assert!(capset_component(1).unwrap() == RutabagaComponentType::VirglRenderer);
    assert!(capset_component(3).unwrap() == RutabagaComponentType::Gfxstream);
    assert!(capset_component(5).unwrap() == RutabagaComponentType::CrossDomain);
    assert!(capset_component(8).unwrap() == RutabagaComponentType::Gfxstream);
    assert!(matches!(kind(capset_component(0x42)), RutabagaErrorKind::InvalidCapset));
}

#[test]
fn context_capset_selection() {
    let all = 0x0f;
    assert!(context_component(0x05, RutabagaComponentType::Gfxstream, all).unwrap() == RutabagaComponentType::CrossDomain);
    assert!(context_component(0x103, RutabagaComponentType::VirglRenderer, all).unwrap() == RutabagaComponentType::Gfxstream);
    assert!(context_component(0, RutabagaComponentType::Gfxstream, 4).unwrap() == RutabagaComponentType::Gfxstream);
    assert!(matches!(kind(context_component(0x05, RutabagaComponentType::Gfxstream, 4)), RutabagaErrorKind::InvalidComponent));
    assert!(matches!(kind(context_component(0x0c, RutabagaComponentType::Gfxstream, all)), RutabagaErrorKind::InvalidCapset));
}

#[test]
fn registry_context_attachments() {
    let g = gfxstream();
    let mut reg = ResourceRegistry::new();
    reg.add_resource(g.create_3d(1, 0).unwrap()).unwrap();
    reg.add_resource(g.create_3d(2, 0).unwrap()).unwrap();
    reg.add_context(GfxstreamContext { ctx_id: 3 }).unwrap();
    reg.add_context(GfxstreamContext { ctx_id: 4 }).unwrap();
    assert!(matches!(kind(reg.context_attach_resource(9, 1)), RutabagaErrorKind::InvalidContextId));
    assert!(matches!(kind(reg.context_attach_resource(3, 9)), RutabagaErrorKind::InvalidResourceId));
    reg.context_attach_resource(3, 1).unwrap();
    reg.context_attach_resource(3, 1).unwrap();
    reg.context_attach_resource(3, 2).unwrap();
    reg.context_attach_resource(4, 1).unwrap();
    assert!(reg.is_attached(3, 1) && reg.is_attached(3, 2) && reg.is_attached(4, 1));
    assert!(!reg.is_attached(4, 2));
    reg.context_detach_resource(3, 1).unwrap();
    reg.context_detach_resource(3, 1).unwrap();
    assert!(!reg.is_attached(3, 1));
    assert!(reg.is_attached(4, 1));
    reg.destroy_context(3).unwrap();
    assert!(!reg.is_attached(3, 2));
    assert!(reg.resource(2).is_some());
    reg.unref_resource(1).unwrap();
    assert!(!reg.is_attached(4, 1));
    assert!(matches!(kind(reg.context_detach_resource(4, 1)), RutabagaErrorKind::InvalidResourceId));
}

fn ring_fence(fence_id: u64, ctx_id: u32, ring_idx: u8) -> RutabagaFence {
    RutabagaFence { flags: RUTABAGA_FLAG_FENCE | RUTABAGA_FLAG_INFO_RING_IDX, fence_id, ctx_id, ring_idx }
}

fn global_fence(fence_id: u64) -> RutabagaFence {
    RutabagaFence { flags: RUTABAGA_FLAG_FENCE, fence_id, ctx_id: 0, ring_idx: 0 }
}

#[test]
fn fence_timelines_of() {
    assert!(timeline_of(&global_fence(1)) == FenceTimeline::Global);
    assert!(timeline_of(&ring_fence(1, 2, 3)) == FenceTimeline::Context { ctx_id: 2, ring_idx: 3 });
}

#[test]
fn fences_retire_per_timeline_in_order() {
    let mut t = FenceTimelines::new();
    t.request(global_fence(1));
    t.request(ring_fence(2, 5, 1));
    t.request(global_fence(3));
    t.request(ring_fence(4, 5, 2));
    t.request(global_fence(6));
    let done = t.complete(global_fence(3));
    let ids: Vec<u64> = done.iter().map(|f| f.fence_id).collect();
    assert_eq!(ids, vec![1, 3]);
    assert_eq!(t.pending_count(), 3);
    assert!(t.complete(global_fence(3)).is_empty());
    let done = t.complete(ring_fence(9, 5, 2));
    assert_eq!(done.iter().map(|f| f.fence_id).collect::<Vec<u64>>(), vec![4]);
    let done = t.complete(ring_fence(9, 6, 1));
    assert!(done.is_empty());
    assert_eq!(t.pending_count(), 2);
}

#[test]
fn flags_as_signed_words() {
    assert_eq!(i32::from(VirglRendererFlags::new().use_egl(true).use_gles(true)), 17);
    assert_eq!(i32::from(GfxstreamFlags::new().use_vulkan(true)), 32);
}

#[test]
fn error_from_kind_should_keep_kind() {
    let from_res = Err::<(), _>(RutabagaErrorKind::InvalidComponent);
    let to_res: std::result::Result<_, RutabagaError> = from_res.map_err(|e| e.into());
    let to_kind = to_res.err().map(|e| e.kind().clone());
    assert!(
        matches!(to_kind, Some(RutabagaErrorKind::InvalidComponent)),
        "Expect the error kind to be RutabagaErrorKind::InvalidComponent, but is {:?}",
        to_kind
    );
}
