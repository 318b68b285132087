//! The closed taxonomy of errors that every fallible operation returns.
use vstd::prelude::*;

verus! {

/// General categories of error. Callers branch on the kind alone.
#[derive(Debug, Clone)]
pub enum RutabagaErrorKind {
    /// Only one instance of a rutabaga asset per process is allowed.
    AlreadyInUse,
    /// A checked arithmetic operation overflowed.
    CheckedArithmetic,
    /// A checked range test failed.
    CheckedRange,
    /// A rendering component failed with the given native status code.
    ComponentError(i32),
    /// Internal error. The caller is not supposed to handle this error.
    Internal,
    /// Invalid 2D info.
    Invalid2DInfo,
    /// Invalid capset.
    InvalidCapset,
    /// A command buffer with insufficient space was submitted.
    InvalidCommandBuffer,
    /// A command buffer was submitted whose size in bytes is invalid.
    InvalidCommandSize(usize),
    /// Invalid or disabled component.
    InvalidComponent,
    /// Invalid context id.
    InvalidContextId,
    /// Invalid cross domain channel.
    InvalidCrossDomainChannel,
    /// Invalid cross domain item id.
    InvalidCrossDomainItemId,
    /// Invalid cross domain item type.
    InvalidCrossDomainItemType,
    /// Invalid cross domain state.
    InvalidCrossDomainState,
    /// Invalid gralloc backend.
    InvalidGrallocBackend,
    /// Invalid gralloc dimensions.
    InvalidGrallocDimensions,
    /// Invalid gralloc DRM format.
    InvalidGrallocDrmFormat,
    /// Invalid GPU type for gralloc.
    InvalidGrallocGpuType,
    /// Invalid number of YUV planes.
    InvalidGrallocNumberOfPlanes,
    /// An iovec is outside of guest memory's range.
    InvalidIovec,
    /// Invalid resource id.
    InvalidResourceId,
    /// Invalid build parameters.
    InvalidRutabagaBuild(&'static str),
    /// An error with an OS handle.
    InvalidRutabagaHandle,
    /// Invalid Vulkan info.
    InvalidVulkanInfo,
    /// An input/output error occurred.
    IoError,
    /// The mapping failed with the given native status code.
    MappingFailed(i32),
    /// An OS call failed with the given errno.
    NixError(i32),
    /// A string held an interior nul byte.
    NulError,
    /// An error with a snapshot.
    SnapshotError(&'static str),
    /// Violation of the rutabaga protocol.
    SpecViolation(&'static str),
    /// An integer conversion failed.
    TryFromIntError,
    /// The requested function is not implemented.
    Unsupported,
    /// A byte string was not UTF-8.
    Utf8Error,
}

/// An error generated while using this crate: its kind.
#[derive(Debug, Clone)]
pub struct RutabagaError {
    pub kind: RutabagaErrorKind,
}

/// The result of an operation in this crate.
pub type RutabagaResult<T> = Result<T, RutabagaError>;

impl RutabagaError {
    /// The kind of this error.
    pub fn kind(&self) -> (r: &RutabagaErrorKind)
        ensures
            *r == self.kind,
    {
        &self.kind
    }
}

impl From<RutabagaErrorKind> for RutabagaError {
    fn from(kind: RutabagaErrorKind) -> (r: RutabagaError) {
        RutabagaError { kind }
    }
}

impl vstd::std_specs::convert::FromSpecImpl<RutabagaErrorKind> for RutabagaError {
    open spec fn obeys_from_spec() -> bool {
        true
    }

    open spec fn from_spec(kind: RutabagaErrorKind) -> RutabagaError {
        RutabagaError { kind }
    }
}

/// An error of the given kind.
pub fn error_of(kind: RutabagaErrorKind) -> (r: RutabagaError)
    ensures
        r.kind == kind,
{
    RutabagaError { kind }
}

/// Whether `r` failed with a native status code `code`.
pub open spec fn is_component_error<T>(r: RutabagaResult<T>, code: i32) -> bool {
    r matches Err(e) && e.kind == RutabagaErrorKind::ComponentError(code)
}

/// Maps a native return code to a result: zero is success, any other value is a
/// component error carrying that code verbatim.
pub fn ret_to_res(ret: i32) -> (r: RutabagaResult<()>)
    ensures
        ret == 0 <==> r is Ok,
        ret != 0 ==> is_component_error(r, ret),
{
    if ret == 0 {
        Ok(())
    } else {
        Err(error_of(RutabagaErrorKind::ComponentError(ret)))
    }
}

} // verus!
