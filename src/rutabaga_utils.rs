//! The data model shared by every component: creation parameters, fences, transfers,
//! handles and the protocol's constants.
use vstd::prelude::*;
use crate::error::{RutabagaError, RutabagaErrorKind, RutabagaResult, error_of};

verus! {

/// A guest or host memory range: `base` is the address of a buffer, `len` its length.
#[derive(Copy, Clone, Debug)]
pub struct RutabagaIovec {
    pub base: usize,
    pub len: usize,
}

/// 3D resource creation parameters, also used for 2D resources. Constants based on the
/// Gallium interface.
pub const RUTABAGA_PIPE_TEXTURE_2D: u32 = 2;
pub const RUTABAGA_PIPE_BIND_RENDER_TARGET: u32 = 2;

#[derive(Copy, Clone, Debug)]
pub struct ResourceCreate3D {
    pub target: u32,
    pub format: u32,
    pub bind: u32,
    pub width: u32,
    pub height: u32,
    pub depth: u32,
    pub array_size: u32,
    pub last_level: u32,
    pub nr_samples: u32,
    pub flags: u32,
}

/// Blob resource creation parameters.
pub const RUTABAGA_BLOB_MEM_GUEST: u32 = 0x0001;
pub const RUTABAGA_BLOB_MEM_HOST3D: u32 = 0x0002;
pub const RUTABAGA_BLOB_MEM_HOST3D_GUEST: u32 = 0x0003;

pub const RUTABAGA_BLOB_FLAG_USE_MAPPABLE: u32 = 0x0001;
pub const RUTABAGA_BLOB_FLAG_USE_SHAREABLE: u32 = 0x0002;
pub const RUTABAGA_BLOB_FLAG_USE_CROSS_DEVICE: u32 = 0x0004;

#[derive(Copy, Clone, Debug)]
pub struct ResourceCreateBlob {
    pub blob_mem: u32,
    pub blob_flags: u32,
    pub blob_id: u64,
    pub size: u64,
}

/// A process-local view of blob storage: its address and length.
#[derive(Copy, Clone, Debug)]
pub struct RutabagaMapping {
    pub ptr: u64,
    pub size: u64,
}

/// Metadata associated with a swapchain, video or camera image.
#[derive(Default, Copy, Clone, Debug)]
pub struct Resource3DInfo {
    pub width: u32,
    pub height: u32,
    pub drm_fourcc: u32,
    pub strides: [u32; 4],
    pub offsets: [u32; 4],
    pub modifier: u64,
    /// Whether the buffer can be accessed by the guest CPU.
    pub guest_cpu_mappable: bool,
}

/// A unique identifier for a device.
#[derive(Copy, Clone, Debug, Default, PartialEq, Eq, PartialOrd, Ord, Hash)]
pub struct DeviceId {
    pub device_uuid: [u8; 16],
    pub driver_uuid: [u8; 16],
}

/// Memory index and physical device id of the associated device memory.
#[derive(Copy, Clone, Debug, Default, PartialEq, Eq, PartialOrd, Ord, Hash)]
pub struct VulkanInfo {
    pub memory_idx: u32,
    pub device_id: DeviceId,
}

/// Context init capset id mask.
pub const RUTABAGA_CONTEXT_INIT_CAPSET_ID_MASK: u32 = 0x00ff;

/// Flags for creating fences.
pub const RUTABAGA_FLAG_FENCE: u32 = 1;
pub const RUTABAGA_FLAG_INFO_RING_IDX: u32 = 2;
pub const RUTABAGA_FLAG_FENCE_HOST_SHAREABLE: u32 = 4;

/// A one-shot completion-notification request on an ordering ring.
#[derive(Copy, Clone, Debug)]
pub struct RutabagaFence {
    pub flags: u32,
    pub fence_id: u64,
    pub ctx_id: u32,
    pub ring_idx: u8,
}

/// Debug message types.
pub const RUTABAGA_DEBUG_ERROR: u32 = 0x01;
pub const RUTABAGA_DEBUG_WARNING: u32 = 0x02;
pub const RUTABAGA_DEBUG_INFO: u32 = 0x03;

/// Import flags.
pub const RUTABAGA_IMPORT_FLAG_3D_INFO: u32 = 1;
pub const RUTABAGA_IMPORT_FLAG_VULKAN_INFO: u32 = 2;
pub const RUTABAGA_IMPORT_FLAG_RESOURCE_EXISTS: u32 = 0x4000_0000;
pub const RUTABAGA_IMPORT_FLAG_PRESERVE_CONTENT: u32 = 0x8000_0000;

/// Import data for a resource import.
#[derive(Copy, Clone, Debug)]
pub struct RutabagaImportData {
    pub flags: u32,
    pub info_3d: Resource3DInfo,
}

/// Mapped memory caching flags.
pub const RUTABAGA_MAP_CACHE_MASK: u32 = 0x0f;
pub const RUTABAGA_MAP_CACHE_CACHED: u32 = 0x01;
pub const RUTABAGA_MAP_CACHE_UNCACHED: u32 = 0x02;
pub const RUTABAGA_MAP_CACHE_WC: u32 = 0x03;
/// Access flags.
pub const RUTABAGA_MAP_ACCESS_MASK: u32 = 0xf0;
pub const RUTABAGA_MAP_ACCESS_READ: u32 = 0x10;
pub const RUTABAGA_MAP_ACCESS_WRITE: u32 = 0x20;
pub const RUTABAGA_MAP_ACCESS_RW: u32 = 0x30;

/// Capsets.
pub const RUTABAGA_CAPSET_VIRGL: u32 = 1;
pub const RUTABAGA_CAPSET_VIRGL2: u32 = 2;
pub const RUTABAGA_CAPSET_GFXSTREAM_VULKAN: u32 = 3;
pub const RUTABAGA_CAPSET_VENUS: u32 = 4;
pub const RUTABAGA_CAPSET_CROSS_DOMAIN: u32 = 5;
pub const RUTABAGA_CAPSET_DRM: u32 = 6;
pub const RUTABAGA_CAPSET_GFXSTREAM_MAGMA: u32 = 7;
pub const RUTABAGA_CAPSET_GFXSTREAM_GLES: u32 = 8;
pub const RUTABAGA_CAPSET_GFXSTREAM_COMPOSER: u32 = 9;

/// The capset id that a context's init flags select: their low byte.
pub open spec fn spec_capset_id(context_init: u32) -> u32 {
    (context_init % 256) as u32
}

/// The capset id that a context's init flags select, under the capset id mask.
pub fn capset_id_of(context_init: u32) -> (r: u32)
    ensures
        r == spec_capset_id(context_init),
        r == context_init & RUTABAGA_CONTEXT_INIT_CAPSET_ID_MASK,
{
    let r = context_init & RUTABAGA_CONTEXT_INIT_CAPSET_ID_MASK;
    assert(context_init & 0xffu32 == context_init % 256) by (bit_vector);
    r
}

/// Transfers to and from 1D buffers, 2D textures, 3D textures and cubemaps.
#[derive(Copy, Clone, Debug)]
pub struct Transfer3D {
    pub x: u32,
    pub y: u32,
    pub z: u32,
    pub w: u32,
    pub h: u32,
    pub d: u32,
    pub level: u32,
    pub stride: u32,
    pub layer_stride: u32,
    pub offset: u64,
}

impl Transfer3D {
    /// Whether the box has no volume: one of its extents is zero.
    pub open spec fn spec_is_empty(&self) -> bool {
        self.w == 0 || self.h == 0 || self.d == 0
    }

    /// Constructs a 2 dimensional XY box in 3 dimensional space with unit depth and zero
    /// displacement on the Z axis.
    pub fn new_2d(x: u32, y: u32, w: u32, h: u32, offset: u64) -> (r: Transfer3D)
        ensures
            r == (Transfer3D {
                x,
                y,
                z: 0,
                w,
                h,
                d: 1,
                level: 0,
                stride: 0,
                layer_stride: 0,
                offset,
            }),
    {
        Transfer3D { x, y, z: 0, w, h, d: 1, level: 0, stride: 0, layer_stride: 0, offset }
    }

    /// Returns true if this box represents a volume of zero.
    pub fn is_empty(&self) -> (r: bool)
        ensures
            r == self.spec_is_empty(),
    {
        self.w == 0 || self.h == 0 || self.d == 0
    }
}

/// Channel types.
pub const RUTABAGA_CHANNEL_TYPE_WAYLAND: u32 = 0x0001;
pub const RUTABAGA_CHANNEL_TYPE_CAMERA: u32 = 0x0002;

/// Information needed to open an OS-specific connection: a socket path and its type.
#[derive(Clone, Debug)]
pub struct RutabagaChannel {
    pub base_channel: String,
    pub channel_type: u32,
}

/// The possible rendering components.
#[derive(Copy, Clone, Debug, Eq, PartialEq, Structural, PartialOrd, Ord)]
pub enum RutabagaComponentType {
    Rutabaga2D,
    VirglRenderer,
    Gfxstream,
    CrossDomain,
}

/// The bit of a component in a component mask.
pub open spec fn component_bit(c: RutabagaComponentType) -> u8 {
    match c {
        RutabagaComponentType::Rutabaga2D => 1,
        RutabagaComponentType::VirglRenderer => 2,
        RutabagaComponentType::Gfxstream => 4,
        RutabagaComponentType::CrossDomain => 8,
    }
}

/// Whether a component's bit is set in a component mask.
pub open spec fn spec_component_enabled(mask: u8, c: RutabagaComponentType) -> bool {
    match c {
        RutabagaComponentType::Rutabaga2D => mask % 2 == 1,
        RutabagaComponentType::VirglRenderer => (mask / 2) % 2 == 1,
        RutabagaComponentType::Gfxstream => (mask / 4) % 2 == 1,
        RutabagaComponentType::CrossDomain => (mask / 8) % 2 == 1,
    }
}

/// The name of a component.
pub open spec fn component_name(c: RutabagaComponentType) -> Seq<char> {
    match c {
        RutabagaComponentType::CrossDomain => "crossdomain"@,
        RutabagaComponentType::Gfxstream => "gfxstream"@,
        RutabagaComponentType::Rutabaga2D => "rutabaga2d"@,
        RutabagaComponentType::VirglRenderer => "virglrenderer"@,
    }
}

impl RutabagaComponentType {
    /// The name of this component.
    pub fn as_str(&self) -> (r: &'static str)
        ensures
            r@ == component_name(*self),
    {
        match self {
            RutabagaComponentType::CrossDomain => "crossdomain",
            RutabagaComponentType::Gfxstream => "gfxstream",
            RutabagaComponentType::Rutabaga2D => "rutabaga2d",
            RutabagaComponentType::VirglRenderer => "virglrenderer",
        }
    }

    /// Whether this component's bit is set in `mask`.
    pub fn enabled_in(&self, mask: u8) -> (r: bool)
        ensures
            r == spec_component_enabled(mask, *self),
    {
        let bit = self.mask_bit();
        assert(mask & 1u8 != 0 <==> mask % 2 == 1) by (bit_vector);
        assert(mask & 2u8 != 0 <==> (mask / 2) % 2 == 1) by (bit_vector);
        assert(mask & 4u8 != 0 <==> (mask / 4) % 2 == 1) by (bit_vector);
        assert(mask & 8u8 != 0 <==> (mask / 8) % 2 == 1) by (bit_vector);
        mask & bit != 0
    }

    /// The bit of this component in a component mask.
    pub fn mask_bit(&self) -> (r: u8)
        ensures
            r == component_bit(*self),
    {
        match self {
            RutabagaComponentType::Rutabaga2D => 1,
            RutabagaComponentType::VirglRenderer => 2,
            RutabagaComponentType::Gfxstream => 4,
            RutabagaComponentType::CrossDomain => 8,
        }
    }
}

/// The component that serves a capset, if the capset is known.
pub open spec fn spec_capset_component(capset_id: u32) -> Option<RutabagaComponentType> {
    if capset_id == RUTABAGA_CAPSET_VIRGL || capset_id == RUTABAGA_CAPSET_VIRGL2 || capset_id
        == RUTABAGA_CAPSET_VENUS || capset_id == RUTABAGA_CAPSET_DRM {
        Some(RutabagaComponentType::VirglRenderer)
    } else if capset_id == RUTABAGA_CAPSET_GFXSTREAM_VULKAN || capset_id
        == RUTABAGA_CAPSET_GFXSTREAM_MAGMA || capset_id == RUTABAGA_CAPSET_GFXSTREAM_GLES
        || capset_id == RUTABAGA_CAPSET_GFXSTREAM_COMPOSER {
        Some(RutabagaComponentType::Gfxstream)
    } else if capset_id == RUTABAGA_CAPSET_CROSS_DOMAIN {
        Some(RutabagaComponentType::CrossDomain)
    } else {
        None
    }
}

/// The component that serves a capset. An unknown capset fails with an invalid-capset
/// error.
pub fn capset_component(capset_id: u32) -> (r: RutabagaResult<RutabagaComponentType>)
    ensures
        spec_capset_component(capset_id) is None <==> r is Err,
        r matches Err(e) ==> e.kind == RutabagaErrorKind::InvalidCapset,
        r matches Ok(c) ==> spec_capset_component(capset_id) == Some(c),
{
    if capset_id == RUTABAGA_CAPSET_VIRGL || capset_id == RUTABAGA_CAPSET_VIRGL2 || capset_id
        == RUTABAGA_CAPSET_VENUS || capset_id == RUTABAGA_CAPSET_DRM {
        Ok(RutabagaComponentType::VirglRenderer)
    } else if capset_id == RUTABAGA_CAPSET_GFXSTREAM_VULKAN || capset_id
        == RUTABAGA_CAPSET_GFXSTREAM_MAGMA || capset_id == RUTABAGA_CAPSET_GFXSTREAM_GLES
        || capset_id == RUTABAGA_CAPSET_GFXSTREAM_COMPOSER {
        Ok(RutabagaComponentType::Gfxstream)
    } else if capset_id == RUTABAGA_CAPSET_CROSS_DOMAIN {
        Ok(RutabagaComponentType::CrossDomain)
    } else {
        Err(error_of(RutabagaErrorKind::InvalidCapset))
    }
}

/// The component a new context is bound to: the one serving the capset that its init flags
/// select, or `default_component` when they select none. An unknown capset fails with an
/// invalid-capset error; a component whose bit is not set in `enabled_mask` fails with an
/// invalid-component error.
pub fn context_component(
    context_init: u32,
    default_component: RutabagaComponentType,
    enabled_mask: u8,
) -> (r: RutabagaResult<RutabagaComponentType>)
    ensures
        spec_capset_id(context_init) != 0 && spec_capset_component(spec_capset_id(context_init))
            is None ==> (r matches Err(e) && e.kind == RutabagaErrorKind::InvalidCapset),
        ({
            let chosen = if spec_capset_id(context_init) == 0 {
                Some(default_component)
            } else {
                spec_capset_component(spec_capset_id(context_init))
            };
            chosen matches Some(c) ==> if spec_component_enabled(enabled_mask, c) {
                r == Ok::<RutabagaComponentType, RutabagaError>(c)
            } else {
                r matches Err(e) && e.kind == RutabagaErrorKind::InvalidComponent
            }
        }),
{
    let capset_id = capset_id_of(context_init);
    let component = if capset_id == 0 {
        default_component
    } else {
        match capset_component(capset_id) {
            Ok(c) => c,
            Err(e) => return Err(e),
        }
    };
    if !component.enabled_in(enabled_mask) {
        return Err(error_of(RutabagaErrorKind::InvalidComponent));
    }
    Ok(component)
}

/// Handle types, memory and sync in the same namespace.
pub const RUTABAGA_HANDLE_TYPE_MEM_OPAQUE_FD: u32 = 0x0001;
pub const RUTABAGA_HANDLE_TYPE_MEM_DMABUF: u32 = 0x0002;
pub const RUTABAGA_HANDLE_TYPE_MEM_OPAQUE_WIN32: u32 = 0x0003;
pub const RUTABAGA_HANDLE_TYPE_MEM_SHM: u32 = 0x0004;
pub const RUTABAGA_HANDLE_TYPE_MEM_ZIRCON: u32 = 0x0005;

pub const RUTABAGA_HANDLE_TYPE_SIGNAL_OPAQUE_FD: u32 = 0x0010;
pub const RUTABAGA_HANDLE_TYPE_SIGNAL_SYNC_FD: u32 = 0x0020;
pub const RUTABAGA_HANDLE_TYPE_SIGNAL_OPAQUE_WIN32: u32 = 0x0030;
pub const RUTABAGA_HANDLE_TYPE_SIGNAL_ZIRCON: u32 = 0x0040;
pub const RUTABAGA_HANDLE_TYPE_SIGNAL_EVENT_FD: u32 = 0x0050;

pub const RUTABAGA_HANDLE_TYPE_PLATFORM_SCREEN_BUFFER_QNX: u32 = 0x01000000;
pub const RUTABAGA_HANDLE_TYPE_PLATFORM_EGL_NATIVE_PIXMAP: u32 = 0x02000000;

/// An OS-specific memory or synchronization object: its raw descriptor and its type tag.
/// The holder owns the descriptor; a copy for another owner is made by duplicating it.
#[derive(Debug)]
pub struct RutabagaHandle {
    pub os_handle: i64,
    pub handle_type: u32,
}

} // verus!
