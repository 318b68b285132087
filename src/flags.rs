//! Renderer start-up flag words for virglrenderer and gfxstream.
use vstd::prelude::*;

verus! {

/// Flags for virglrenderer, as its bindings define them.
pub const VIRGLRENDERER_USE_EGL: u32 = 1;
pub const VIRGLRENDERER_THREAD_SYNC: u32 = 2;
pub const VIRGLRENDERER_USE_GLX: u32 = 4;
pub const VIRGLRENDERER_USE_SURFACELESS: u32 = 8;
pub const VIRGLRENDERER_USE_GLES: u32 = 16;
pub const VIRGLRENDERER_USE_EXTERNAL_BLOB: u32 = 32;
pub const VIRGLRENDERER_VENUS: u32 = 64;
pub const VIRGLRENDERER_NO_VIRGL: u32 = 128;
pub const VIRGLRENDERER_USE_ASYNC_FENCE_CB: u32 = 256;
pub const VIRGLRENDERER_RENDER_SERVER: u32 = 512;
pub const VIRGLRENDERER_DRM: u32 = 1024;

/// Flags for the gfxstream renderer.
pub const STREAM_RENDERER_FLAGS_USE_EGL: u32 = 1;
pub const STREAM_RENDERER_FLAGS_THREAD_SYNC: u32 = 2;
pub const STREAM_RENDERER_FLAGS_USE_GLX: u32 = 4;
pub const STREAM_RENDERER_FLAGS_USE_SURFACELESS: u32 = 8;
pub const STREAM_RENDERER_FLAGS_USE_GLES: u32 = 16;
pub const STREAM_RENDERER_FLAGS_USE_VK_BIT: u32 = 32;
pub const STREAM_RENDERER_FLAGS_USE_EXTERNAL_BLOB: u32 = 64;
pub const STREAM_RENDERER_FLAGS_USE_SYSTEM_BLOB: u32 = 128;
pub const STREAM_RENDERER_FLAGS_VULKAN_NATIVE_SWAPCHAIN_BIT: u32 = 256;

/// The word `bits` with the bits of `mask` set (`on`) or cleared.
pub open spec fn with_bits(bits: u32, mask: u32, on: bool) -> u32 {
    if on {
        bits | mask
    } else {
        bits & !mask
    }
}

/// Whether every bit of `mask` is set in `bits`.
pub open spec fn has_bits(bits: u32, mask: u32) -> bool {
    bits & mask == mask
}

/// Setting or clearing a mask decides those bits and leaves every other bit as it was.
pub proof fn lemma_with_bits(bits: u32, mask: u32, other: u32, on: bool)
    requires
        other & mask == 0,
    ensures
        has_bits(with_bits(bits, mask, on), mask) == on || mask == 0,
        with_bits(bits, mask, on) & other == bits & other,
{
    if on {
        assert((bits | mask) & mask == mask) by (bit_vector);
        assert(other & mask == 0 ==> (bits | mask) & other == bits & other) by (bit_vector);
    } else {
        assert(mask != 0 ==> (bits & !mask) & mask != mask) by (bit_vector);
        assert(other & mask == 0 ==> (bits & !mask) & other == bits & other) by (bit_vector);
    }
}

/// virglrenderer flag word.
#[derive(Copy, Clone, Debug)]
pub struct VirglRendererFlags(pub u32);

impl VirglRendererFlags {
    /// Create new virglrenderer flags, with no bit set.
    pub fn new() -> (r: VirglRendererFlags)
        ensures
            r.0 == 0,
    {
        VirglRendererFlags(0)
    }

    fn set_flag(self, bitmask: u32, set: bool) -> (r: VirglRendererFlags)
        ensures
            r.0 == with_bits(self.0, bitmask, set),
    {
        if set {
            VirglRendererFlags(self.0 | bitmask)
        } else {
            VirglRendererFlags(self.0 & (!bitmask))
        }
    }

    /// Enable virgl support: clears the no-virgl bit when `v` holds, sets it otherwise.
    pub fn use_virgl(self, v: bool) -> (r: VirglRendererFlags)
        ensures
            r.0 == with_bits(self.0, VIRGLRENDERER_NO_VIRGL, !v),
    {
        self.set_flag(VIRGLRENDERER_NO_VIRGL, !v)
    }

    /// Enable venus support.
    pub fn use_venus(self, v: bool) -> (r: VirglRendererFlags)
        ensures
            r.0 == with_bits(self.0, VIRGLRENDERER_VENUS, v),
    {
        self.set_flag(VIRGLRENDERER_VENUS, v)
    }

    /// Enable drm native context support.
    pub fn use_drm(self, v: bool) -> (r: VirglRendererFlags)
        ensures
            r.0 == with_bits(self.0, VIRGLRENDERER_DRM, v),
    {
        self.set_flag(VIRGLRENDERER_DRM, v)
    }

    /// Use EGL for context creation.
    pub fn use_egl(self, v: bool) -> (r: VirglRendererFlags)
        ensures
            r.0 == with_bits(self.0, VIRGLRENDERER_USE_EGL, v),
    {
        self.set_flag(VIRGLRENDERER_USE_EGL, v)
    }

    /// Use a dedicated thread for fence synchronization.
    pub fn use_thread_sync(self, v: bool) -> (r: VirglRendererFlags)
        ensures
            r.0 == with_bits(self.0, VIRGLRENDERER_THREAD_SYNC, v),
    {
        self.set_flag(VIRGLRENDERER_THREAD_SYNC, v)
    }

    /// Use GLX for context creation.
    pub fn use_glx(self, v: bool) -> (r: VirglRendererFlags)
        ensures
            r.0 == with_bits(self.0, VIRGLRENDERER_USE_GLX, v),
    {
        self.set_flag(VIRGLRENDERER_USE_GLX, v)
    }

    /// No surfaces required when creating context.
    pub fn use_surfaceless(self, v: bool) -> (r: VirglRendererFlags)
        ensures
            r.0 == with_bits(self.0, VIRGLRENDERER_USE_SURFACELESS, v),
    {
        self.set_flag(VIRGLRENDERER_USE_SURFACELESS, v)
    }

    /// Use GLES drivers.
    pub fn use_gles(self, v: bool) -> (r: VirglRendererFlags)
        ensures
            r.0 == with_bits(self.0, VIRGLRENDERER_USE_GLES, v),
    {
        self.set_flag(VIRGLRENDERER_USE_GLES, v)
    }

    /// Use external memory when creating blob resources.
    pub fn use_external_blob(self, v: bool) -> (r: VirglRendererFlags)
        ensures
            r.0 == with_bits(self.0, VIRGLRENDERER_USE_EXTERNAL_BLOB, v),
    {
        self.set_flag(VIRGLRENDERER_USE_EXTERNAL_BLOB, v)
    }

    /// Retire fence directly from sync thread.
    pub fn use_async_fence_cb(self, v: bool) -> (r: VirglRendererFlags)
        ensures
            r.0 == with_bits(self.0, VIRGLRENDERER_USE_ASYNC_FENCE_CB, v),
    {
        self.set_flag(VIRGLRENDERER_USE_ASYNC_FENCE_CB, v)
    }

    /// Use the render server.
    pub fn use_render_server(self, v: bool) -> (r: VirglRendererFlags)
        ensures
            r.0 == with_bits(self.0, VIRGLRENDERER_RENDER_SERVER, v),
    {
        self.set_flag(VIRGLRENDERER_RENDER_SERVER, v)
    }

    /// The flag word handed to virglrenderer.
    pub fn bits(self) -> (r: u32)
        ensures
            r == self.0,
    {
        self.0
    }
}

/// The default virglrenderer flags: virgl, EGL, surfaceless and GLES on; venus and the
/// render server off.
pub open spec fn default_virgl_bits() -> u32 {
    VIRGLRENDERER_USE_EGL | VIRGLRENDERER_USE_SURFACELESS | VIRGLRENDERER_USE_GLES
}

impl Default for VirglRendererFlags {
    fn default() -> (r: VirglRendererFlags)
        ensures
            r.0 == default_virgl_bits(),
    {
        let r = VirglRendererFlags::new()
            .use_virgl(true)
            .use_venus(false)
            .use_egl(true)
            .use_surfaceless(true)
            .use_gles(true)
            .use_render_server(false);
        assert(((((((0u32 & !128u32) & !64u32) | 1u32) | 8u32) | 16u32) & !512u32) == (1u32 | 8u32)
            | 16u32) by (bit_vector);
        r
    }
}

/// Which window system integration gfxstream draws through.
#[derive(Clone, Copy, Debug, PartialEq, Eq, Structural)]
pub enum RutabagaWsi {
    Surfaceless,
    VulkanSwapchain,
}

/// gfxstream flag word.
#[derive(Copy, Clone, Debug)]
pub struct GfxstreamFlags(pub u32);

impl GfxstreamFlags {
    /// Create new gfxstream flags, with no bit set.
    pub fn new() -> (r: GfxstreamFlags)
        ensures
            r.0 == 0,
    {
        GfxstreamFlags(0)
    }

    fn set_flag(self, bitmask: u32, set: bool) -> (r: GfxstreamFlags)
        ensures
            r.0 == with_bits(self.0, bitmask, set),
    {
        if set {
            GfxstreamFlags(self.0 | bitmask)
        } else {
            GfxstreamFlags(self.0 & (!bitmask))
        }
    }

    /// Use EGL for context creation.
    pub fn use_egl(self, v: bool) -> (r: GfxstreamFlags)
        ensures
            r.0 == with_bits(self.0, STREAM_RENDERER_FLAGS_USE_EGL, v),
    {
        self.set_flag(STREAM_RENDERER_FLAGS_USE_EGL, v)
    }

    /// Use GLX for context creation.
    pub fn use_glx(self, v: bool) -> (r: GfxstreamFlags)
        ensures
            r.0 == with_bits(self.0, STREAM_RENDERER_FLAGS_USE_GLX, v),
    {
        self.set_flag(STREAM_RENDERER_FLAGS_USE_GLX, v)
    }

    /// No surfaces required when creating context.
    pub fn use_surfaceless(self, v: bool) -> (r: GfxstreamFlags)
        ensures
            r.0 == with_bits(self.0, STREAM_RENDERER_FLAGS_USE_SURFACELESS, v),
    {
        self.set_flag(STREAM_RENDERER_FLAGS_USE_SURFACELESS, v)
    }

    /// Use GLES drivers.
    pub fn use_gles(self, v: bool) -> (r: GfxstreamFlags)
        ensures
            r.0 == with_bits(self.0, STREAM_RENDERER_FLAGS_USE_GLES, v),
    {
        self.set_flag(STREAM_RENDERER_FLAGS_USE_GLES, v)
    }

    /// Support using Vulkan.
    pub fn use_vulkan(self, v: bool) -> (r: GfxstreamFlags)
        ensures
            r.0 == with_bits(self.0, STREAM_RENDERER_FLAGS_USE_VK_BIT, v),
    {
        self.set_flag(STREAM_RENDERER_FLAGS_USE_VK_BIT, v)
    }

    /// Use the Vulkan swapchain to draw on the host window: the native swapchain bit is set
    /// exactly for `VulkanSwapchain`.
    pub fn set_wsi(self, v: RutabagaWsi) -> (r: GfxstreamFlags)
        ensures
            r.0 == with_bits(
                self.0,
                STREAM_RENDERER_FLAGS_VULKAN_NATIVE_SWAPCHAIN_BIT,
                v == RutabagaWsi::VulkanSwapchain,
            ),
    {
        let use_vulkan_swapchain = match v {
            RutabagaWsi::VulkanSwapchain => true,
            RutabagaWsi::Surfaceless => false,
        };
        self.set_flag(STREAM_RENDERER_FLAGS_VULKAN_NATIVE_SWAPCHAIN_BIT, use_vulkan_swapchain)
    }

    /// Use external blob when creating resources.
    pub fn use_external_blob(self, v: bool) -> (r: GfxstreamFlags)
        ensures
            r.0 == with_bits(self.0, STREAM_RENDERER_FLAGS_USE_EXTERNAL_BLOB, v),
    {
        self.set_flag(STREAM_RENDERER_FLAGS_USE_EXTERNAL_BLOB, v)
    }

    /// Use system blob when creating resources.
    pub fn use_system_blob(self, v: bool) -> (r: GfxstreamFlags)
        ensures
            r.0 == with_bits(self.0, STREAM_RENDERER_FLAGS_USE_SYSTEM_BLOB, v),
    {
        self.set_flag(STREAM_RENDERER_FLAGS_USE_SYSTEM_BLOB, v)
    }

    /// The flag word handed to gfxstream.
    pub fn bits(self) -> (r: u32)
        ensures
            r == self.0,
    {
        self.0
    }
}

impl Default for GfxstreamFlags {
    fn default() -> (r: GfxstreamFlags)
        ensures
            r.0 == 0,
    {
        GfxstreamFlags(0)
    }
}

impl From<VirglRendererFlags> for u32 {
    fn from(flags: VirglRendererFlags) -> (r: u32) {
        flags.0
    }
}

impl vstd::std_specs::convert::FromSpecImpl<VirglRendererFlags> for u32 {
    open spec fn obeys_from_spec() -> bool {
        true
    }

    open spec fn from_spec(flags: VirglRendererFlags) -> u32 {
        flags.0
    }
}

impl From<VirglRendererFlags> for i32 {
    fn from(flags: VirglRendererFlags) -> (r: i32) {
        flags.0 as i32
    }
}

impl vstd::std_specs::convert::FromSpecImpl<VirglRendererFlags> for i32 {
    open spec fn obeys_from_spec() -> bool {
        true
    }

    open spec fn from_spec(flags: VirglRendererFlags) -> i32 {
        flags.0 as i32
    }
}

impl From<GfxstreamFlags> for i32 {
    fn from(flags: GfxstreamFlags) -> (r: i32) {
        flags.0 as i32
    }
}

impl vstd::std_specs::convert::FromSpecImpl<GfxstreamFlags> for i32 {
    open spec fn obeys_from_spec() -> bool {
        true
    }

    open spec fn from_spec(flags: GfxstreamFlags) -> i32 {
        flags.0 as i32
    }
}

impl From<GfxstreamFlags> for u32 {
    fn from(flags: GfxstreamFlags) -> (r: u32) {
        flags.0
    }
}

impl vstd::std_specs::convert::FromSpecImpl<GfxstreamFlags> for u32 {
    open spec fn obeys_from_spec() -> bool {
        true
    }

    open spec fn from_spec(flags: GfxstreamFlags) -> u32 {
        flags.0
    }
}

impl From<GfxstreamFlags> for u64 {
    fn from(flags: GfxstreamFlags) -> (r: u64) {
        flags.0 as u64
    }
}

impl vstd::std_specs::convert::FromSpecImpl<GfxstreamFlags> for u64 {
    open spec fn obeys_from_spec() -> bool {
        true
    }

    open spec fn from_spec(flags: GfxstreamFlags) -> u64 {
        flags.0 as u64
    }
}

} // verus!
