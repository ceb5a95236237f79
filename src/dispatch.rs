//! The layout of the host's operation table: which operations the driver implements,
//! which it wires to a handler that always reports "unimplemented", and which slots it
//! leaves empty.

use vstd::prelude::*;

verus! {

/// A slot of the host's operation table.
#[derive(Debug, Clone, Copy, PartialEq, Eq, Structural)]
pub enum VaOperation {
    Terminate,
    QueryConfigProfiles,
    QueryConfigEntrypoints,
    GetConfigAttributes,
    CreateConfig,
    DestroyConfig,
    QueryConfigAttributes,
    CreateSurfaces,
    DestroySurfaces,
    CreateContext,
    DestroyContext,
    CreateBuffer,
    BufferSetNumElements,
    MapBuffer,
    UnmapBuffer,
    DestroyBuffer,
    BeginPicture,
    RenderPicture,
    EndPicture,
    SyncSurface,
    QuerySurfaceStatus,
    QuerySurfaceError,
    PutSurface,
    QueryImageFormats,
    CreateImage,
    DeriveImage,
    DestroyImage,
    SetImagePalette,
    GetImage,
    PutImage,
    QuerySubpictureFormats,
    CreateSubpicture,
    DestroySubpicture,
    SetSubpictureImage,
    SetSubpictureChromakey,
    SetSubpictureGlobalAlpha,
    AssociateSubpicture,
    DeassociateSubpicture,
    QueryDisplayAttributes,
    GetDisplayAttributes,
    SetDisplayAttributes,
    BufferInfo,
    LockSurface,
    UnlockSurface,
    GetSurfaceAttributes,
    CreateSurfaces2,
    QuerySurfaceAttributes,
    AcquireBufferHandle,
    ReleaseBufferHandle,
    CreateMfContext,
    MfAddContext,
    MfReleaseContext,
    MfSubmit,
    CreateBuffer2,
    QueryProcessingRate,
    ExportSurfaceHandle,
    SyncSurface2,
    SyncBuffer,
    Copy,
    MapBuffer2,
}

/// What fills a slot of the operation table.
#[derive(Debug, Clone, Copy, PartialEq, Eq, Structural)]
pub enum Handler {
    /// A handler that does the operation's work.
    Implemented,
    /// A handler that validates the context and reports "unimplemented".
    Unimplemented,
    /// No handler: the host takes the operation as not supported.
    Absent,
}

/// The slots that the driver leaves empty.
pub open spec fn spec_is_absent(op: VaOperation) -> bool {
    match op {
        VaOperation::QuerySurfaceError | VaOperation::PutSurface | VaOperation::BufferInfo
        | VaOperation::LockSurface | VaOperation::UnlockSurface | VaOperation::GetSurfaceAttributes
        | VaOperation::CreateSurfaces2 | VaOperation::QuerySurfaceAttributes
        | VaOperation::AcquireBufferHandle | VaOperation::ReleaseBufferHandle
        | VaOperation::CreateMfContext | VaOperation::MfAddContext | VaOperation::MfReleaseContext
        | VaOperation::MfSubmit | VaOperation::CreateBuffer2 | VaOperation::QueryProcessingRate
        | VaOperation::ExportSurfaceHandle | VaOperation::SyncSurface2 | VaOperation::SyncBuffer
        | VaOperation::Copy | VaOperation::MapBuffer2 => true,
        _ => false,
    }
}

/// What fills each slot: terminate and the two capability queries are implemented, the
/// listed slots are empty, and every other operation reports "unimplemented".
pub open spec fn spec_handler_for(op: VaOperation) -> Handler {
    match op {
        VaOperation::Terminate | VaOperation::QueryConfigProfiles
        | VaOperation::QueryConfigEntrypoints => Handler::Implemented,
        _ => if spec_is_absent(op) {
            Handler::Absent
        } else {
            Handler::Unimplemented
        },
    }
}

/// What fills the slot of an operation.
pub fn handler_for(op: VaOperation) -> (r: Handler)
    ensures
        r == spec_handler_for(op),
{
    match op {
        VaOperation::Terminate | VaOperation::QueryConfigProfiles
        | VaOperation::QueryConfigEntrypoints => Handler::Implemented,
        VaOperation::QuerySurfaceError | VaOperation::PutSurface | VaOperation::BufferInfo
        | VaOperation::LockSurface | VaOperation::UnlockSurface | VaOperation::GetSurfaceAttributes
        | VaOperation::CreateSurfaces2 | VaOperation::QuerySurfaceAttributes
        | VaOperation::AcquireBufferHandle | VaOperation::ReleaseBufferHandle
        | VaOperation::CreateMfContext | VaOperation::MfAddContext | VaOperation::MfReleaseContext
        | VaOperation::MfSubmit | VaOperation::CreateBuffer2 | VaOperation::QueryProcessingRate
        | VaOperation::ExportSurfaceHandle | VaOperation::SyncSurface2 | VaOperation::SyncBuffer
        | VaOperation::Copy | VaOperation::MapBuffer2 => Handler::Absent,
        _ => Handler::Unimplemented,
    }
}

/// The entry of a slot: the handler when the table fills the slot, else nothing.
pub fn slot<F>(op: VaOperation, handler: F) -> (r: Option<F>)
    ensures
        spec_handler_for(op) == Handler::Absent ==> r is None,
        spec_handler_for(op) != Handler::Absent ==> r == Some(handler),
{
    match handler_for(op) {
        Handler::Absent => None,
        _ => Some(handler),
    }
}

} // verus!
