use va_vulkanvideo::dispatch::{handler_for, slot, Handler, VaOperation};

#[test]
fn implemented_operations() {
    assert_eq!(handler_for(VaOperation::Terminate), Handler::Implemented);
    assert_eq!(handler_for(VaOperation::QueryConfigProfiles), Handler::Implemented);
    assert_eq!(handler_for(VaOperation::QueryConfigEntrypoints), Handler::Implemented);
}

#[test]
fn stub_and_absent_operations() {
    assert_eq!(handler_for(VaOperation::CreateConfig), Handler::Unimplemented);
    assert_eq!(handler_for(VaOperation::QuerySurfaceStatus), Handler::Unimplemented);
    assert_eq!(handler_for(VaOperation::SetDisplayAttributes), Handler::Unimplemented);
    assert_eq!(handler_for(VaOperation::QuerySurfaceError), Handler::Absent);
    assert_eq!(handler_for(VaOperation::PutSurface), Handler::Absent);
    assert_eq!(handler_for(VaOperation::MapBuffer2), Handler::Absent);
    assert_eq!(handler_for(VaOperation::Copy), Handler::Absent);
}

#[test]
fn slots_follow_the_table() {
    assert_eq!(slot(VaOperation::Terminate, 7), Some(7));
    assert_eq!(slot(VaOperation::DeriveImage, 7), Some(7));
    assert_eq!(slot(VaOperation::SyncBuffer, 7), None);
}
