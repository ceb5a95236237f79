use va_vulkanvideo::status::{status_of, VaError, VA_STATUS_SUCCESS};

#[test]
fn status_codes_are_bit_exact() {
    assert_eq!(VA_STATUS_SUCCESS, 0);
    assert_eq!(VaError::OperationFailed.status(), 0x01);
    assert_eq!(VaError::AllocationFailed.status(), 0x02);
    assert_eq!(VaError::MaxNumExceeded.status(), 0x0b);
    assert_eq!(VaError::UnsupportedProfile.status(), 0x0c);
    assert_eq!(VaError::UnsupportedEntrypoint.status(), 0x0d);
    assert_eq!(VaError::InvalidParameter.status(), 0x12);
    assert_eq!(VaError::Unimplemented.status(), 0x14);
    assert_eq!(VaError::EncodingError.status(), 0x18);
}

#[test]
fn outcome_to_status() {
    assert_eq!(status_of(Ok(())), VA_STATUS_SUCCESS);
    assert_eq!(status_of(Err(VaError::UnsupportedProfile)), 0x0c);
}
