//! Status codes of the host contract and the internal error taxonomy.

use vstd::prelude::*;

verus! {

/// The host's status code for success.
pub const VA_STATUS_SUCCESS: i32 = 0;

pub const VA_STATUS_ERROR_OPERATION_FAILED: i32 = 0x01;
pub const VA_STATUS_ERROR_ALLOCATION_FAILED: i32 = 0x02;
pub const VA_STATUS_ERROR_INVALID_DISPLAY: i32 = 0x03;
pub const VA_STATUS_ERROR_INVALID_CONFIG: i32 = 0x04;
pub const VA_STATUS_ERROR_INVALID_CONTEXT: i32 = 0x05;
pub const VA_STATUS_ERROR_INVALID_SURFACE: i32 = 0x06;
pub const VA_STATUS_ERROR_INVALID_BUFFER: i32 = 0x07;
pub const VA_STATUS_ERROR_INVALID_IMAGE: i32 = 0x08;
pub const VA_STATUS_ERROR_INVALID_SUBPICTURE: i32 = 0x09;
pub const VA_STATUS_ERROR_ATTR_NOT_SUPPORTED: i32 = 0x0a;
pub const VA_STATUS_ERROR_MAX_NUM_EXCEEDED: i32 = 0x0b;
pub const VA_STATUS_ERROR_UNSUPPORTED_PROFILE: i32 = 0x0c;
pub const VA_STATUS_ERROR_UNSUPPORTED_ENTRYPOINT: i32 = 0x0d;
pub const VA_STATUS_ERROR_UNSUPPORTED_RT_FORMAT: i32 = 0x0e;
pub const VA_STATUS_ERROR_UNSUPPORTED_BUFFERTYPE: i32 = 0x0f;
pub const VA_STATUS_ERROR_SURFACE_BUSY: i32 = 0x10;
pub const VA_STATUS_ERROR_FLAG_NOT_SUPPORTED: i32 = 0x11;
pub const VA_STATUS_ERROR_INVALID_PARAMETER: i32 = 0x12;
pub const VA_STATUS_ERROR_RESOLUTION_NOT_SUPPORTED: i32 = 0x13;
pub const VA_STATUS_ERROR_UNIMPLEMENTED: i32 = 0x14;
pub const VA_STATUS_ERROR_SURFACE_IN_DISPLAYING: i32 = 0x15;
pub const VA_STATUS_ERROR_INVALID_IMAGE_FORMAT: i32 = 0x16;
pub const VA_STATUS_ERROR_DECODING_ERROR: i32 = 0x17;
pub const VA_STATUS_ERROR_ENCODING_ERROR: i32 = 0x18;

/// Every way an operation of the driver can fail, one variant per host error code.
#[derive(Debug, Clone, Copy, PartialEq, Eq, Structural)]
pub enum VaError {
    OperationFailed,
    AllocationFailed,
    InvalidDisplay,
    InvalidConfig,
    InvalidContext,
    InvalidSurface,
    InvalidBuffer,
    InvalidImage,
    InvalidSubpicture,
    AttrNotSupported,
    MaxNumExceeded,
    UnsupportedProfile,
    UnsupportedEntrypoint,
    UnsupportedRtformat,
    UnsupportedBuffertype,
    SurfaceBusy,
    FlagNotSupported,
    InvalidParameter,
    ResolutionNotSupported,
    Unimplemented,
    SurfaceInDisplaying,
    InvalidImageFormat,
    DecodingError,
    EncodingError,
}

impl VaError {
    /// The host status code that stands for this error.
    pub open spec fn spec_status(self) -> i32 {
        match self {
            VaError::OperationFailed => VA_STATUS_ERROR_OPERATION_FAILED,
            VaError::AllocationFailed => VA_STATUS_ERROR_ALLOCATION_FAILED,
            VaError::InvalidDisplay => VA_STATUS_ERROR_INVALID_DISPLAY,
            VaError::InvalidConfig => VA_STATUS_ERROR_INVALID_CONFIG,
            VaError::InvalidContext => VA_STATUS_ERROR_INVALID_CONTEXT,
            VaError::InvalidSurface => VA_STATUS_ERROR_INVALID_SURFACE,
            VaError::InvalidBuffer => VA_STATUS_ERROR_INVALID_BUFFER,
            VaError::InvalidImage => VA_STATUS_ERROR_INVALID_IMAGE,
            VaError::InvalidSubpicture => VA_STATUS_ERROR_INVALID_SUBPICTURE,
            VaError::AttrNotSupported => VA_STATUS_ERROR_ATTR_NOT_SUPPORTED,
            VaError::MaxNumExceeded => VA_STATUS_ERROR_MAX_NUM_EXCEEDED,
            VaError::UnsupportedProfile => VA_STATUS_ERROR_UNSUPPORTED_PROFILE,
            VaError::UnsupportedEntrypoint => VA_STATUS_ERROR_UNSUPPORTED_ENTRYPOINT,
            VaError::UnsupportedRtformat => VA_STATUS_ERROR_UNSUPPORTED_RT_FORMAT,
            VaError::UnsupportedBuffertype => VA_STATUS_ERROR_UNSUPPORTED_BUFFERTYPE,
            VaError::SurfaceBusy => VA_STATUS_ERROR_SURFACE_BUSY,
            VaError::FlagNotSupported => VA_STATUS_ERROR_FLAG_NOT_SUPPORTED,
            VaError::InvalidParameter => VA_STATUS_ERROR_INVALID_PARAMETER,
            VaError::ResolutionNotSupported => VA_STATUS_ERROR_RESOLUTION_NOT_SUPPORTED,
            VaError::Unimplemented => VA_STATUS_ERROR_UNIMPLEMENTED,
            VaError::SurfaceInDisplaying => VA_STATUS_ERROR_SURFACE_IN_DISPLAYING,
            VaError::InvalidImageFormat => VA_STATUS_ERROR_INVALID_IMAGE_FORMAT,
            VaError::DecodingError => VA_STATUS_ERROR_DECODING_ERROR,
            VaError::EncodingError => VA_STATUS_ERROR_ENCODING_ERROR,
        }
    }

    /// The host status code that stands for this error.
    pub fn status(self) -> (r: i32)
        ensures
            r == self.spec_status(),
            r != VA_STATUS_SUCCESS,
    {
        match self {
            VaError::OperationFailed => VA_STATUS_ERROR_OPERATION_FAILED,
            VaError::AllocationFailed => VA_STATUS_ERROR_ALLOCATION_FAILED,
            VaError::InvalidDisplay => VA_STATUS_ERROR_INVALID_DISPLAY,
            VaError::InvalidConfig => VA_STATUS_ERROR_INVALID_CONFIG,
            VaError::InvalidContext => VA_STATUS_ERROR_INVALID_CONTEXT,
            VaError::InvalidSurface => VA_STATUS_ERROR_INVALID_SURFACE,
            VaError::InvalidBuffer => VA_STATUS_ERROR_INVALID_BUFFER,
            VaError::InvalidImage => VA_STATUS_ERROR_INVALID_IMAGE,
            VaError::InvalidSubpicture => VA_STATUS_ERROR_INVALID_SUBPICTURE,
            VaError::AttrNotSupported => VA_STATUS_ERROR_ATTR_NOT_SUPPORTED,
            VaError::MaxNumExceeded => VA_STATUS_ERROR_MAX_NUM_EXCEEDED,
            VaError::UnsupportedProfile => VA_STATUS_ERROR_UNSUPPORTED_PROFILE,
            VaError::UnsupportedEntrypoint => VA_STATUS_ERROR_UNSUPPORTED_ENTRYPOINT,
            VaError::UnsupportedRtformat => VA_STATUS_ERROR_UNSUPPORTED_RT_FORMAT,
            VaError::UnsupportedBuffertype => VA_STATUS_ERROR_UNSUPPORTED_BUFFERTYPE,
            VaError::SurfaceBusy => VA_STATUS_ERROR_SURFACE_BUSY,
            VaError::FlagNotSupported => VA_STATUS_ERROR_FLAG_NOT_SUPPORTED,
            VaError::InvalidParameter => VA_STATUS_ERROR_INVALID_PARAMETER,
            VaError::ResolutionNotSupported => VA_STATUS_ERROR_RESOLUTION_NOT_SUPPORTED,
            VaError::Unimplemented => VA_STATUS_ERROR_UNIMPLEMENTED,
            VaError::SurfaceInDisplaying => VA_STATUS_ERROR_SURFACE_IN_DISPLAYING,
            VaError::InvalidImageFormat => VA_STATUS_ERROR_INVALID_IMAGE_FORMAT,
            VaError::DecodingError => VA_STATUS_ERROR_DECODING_ERROR,
            VaError::EncodingError => VA_STATUS_ERROR_ENCODING_ERROR,
        }
    }
}

/// The host status code for the outcome of an operation.
pub open spec fn spec_status_of(r: Result<(), VaError>) -> i32 {
    match r {
        Ok(()) => VA_STATUS_SUCCESS,
        Err(e) => e.spec_status(),
    }
}

/// Translates the outcome of an operation into the host status code.
pub fn status_of(r: Result<(), VaError>) -> (s: i32)
    ensures
        s == spec_status_of(r),
        (s == VA_STATUS_SUCCESS) == (r is Ok),
{
    match r {
        Ok(()) => VA_STATUS_SUCCESS,
        Err(e) => e.status(),
    }
}

/// Distinct errors map to distinct status codes, so no failure is hidden behind another.
pub proof fn lemma_status_injective(a: VaError, b: VaError)
    ensures
        a.spec_status() == b.spec_status() ==> a == b,
{
}

} // verus!
