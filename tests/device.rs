use va_vulkanvideo::device::{
    device_id_from_stat, extract_drm_device_id, select_physical_device, vulkan_device_is_same_as_drm,
    DeviceId, DrmIdentity, FileStat,
};
use va_vulkanvideo::status::VaError;

fn identity(has_primary: bool, primary: (i64, i64), has_render: bool, render: (i64, i64)) -> DrmIdentity {
    DrmIdentity {
        has_primary,
        has_render,
        primary_major: primary.0,
        primary_minor: primary.1,
        render_major: render.0,
        render_minor: render.1,
    }
}

#[test]
fn primary_node_matches_whatever_the_render_node() {
    let target = DeviceId(226, 0);
    assert!(vulkan_device_is_same_as_drm(&identity(true, (226, 0), false, (0, 0)), target));
    assert!(vulkan_device_is_same_as_drm(&identity(true, (226, 0), true, (226, 128)), target));
    assert!(vulkan_device_is_same_as_drm(&identity(true, (226, 0), true, (1, 1)), target));
}

#[test]
fn render_node_matches_without_primary() {
    let target = DeviceId(226, 1);
    assert!(vulkan_device_is_same_as_drm(&identity(false, (0, 0), true, (226, 1)), target));
}

#[test]
fn absent_nodes_do_not_match() {
    assert!(!vulkan_device_is_same_as_drm(&identity(false, (226, 0), false, (226, 128)), DeviceId(226, 0)));
    assert!(!vulkan_device_is_same_as_drm(&identity(false, (226, 0), false, (226, 128)), DeviceId(226, 128)));
    assert!(!vulkan_device_is_same_as_drm(&identity(true, (226, 0), true, (226, 128)), DeviceId(226, 1)));
}

#[test]
fn first_matching_device_wins() {
    let devices = vec![
        identity(true, (226, 1), true, (226, 129)),
        identity(true, (226, 0), true, (226, 128)),
        identity(false, (0, 0), true, (226, 128)),
    ];
    assert_eq!(select_physical_device(&devices, DeviceId(226, 128)), Some(1));
    assert_eq!(select_physical_device(&devices, DeviceId(226, 1)), Some(0));
    assert_eq!(select_physical_device(&devices, DeviceId(226, 2)), None);
    assert_eq!(select_physical_device(&vec![], DeviceId(226, 0)), None);
}

#[test]
fn device_numbers_split_like_libc() {
    let rdev = libc::makedev(226, 128);
    assert_eq!(
        device_id_from_stat(Some(FileStat { is_char_device: true, rdev })),
        Ok(DeviceId(226, 128))
    );
    let rdev = libc::makedev(0x12345, 0xabcdef);
    assert_eq!(
        device_id_from_stat(Some(FileStat { is_char_device: true, rdev })),
        Ok(DeviceId(0x12345, 0xabcdef))
    );
    // 226:0 packed by hand: major in bits 8..20, minor in bits 0..8.
    assert_eq!(
        device_id_from_stat(Some(FileStat { is_char_device: true, rdev: 0xe200 })),
        Ok(DeviceId(226, 0))
    );
}

#[test]
fn failed_metadata_query_is_an_operation_failure() {
    assert_eq!(device_id_from_stat(None), Err(VaError::OperationFailed));
}

#[test]
fn non_character_device_is_rejected() {
    assert_eq!(
        device_id_from_stat(Some(FileStat { is_char_device: false, rdev: 0xe200 })),
        Err(VaError::InvalidParameter)
    );
}

#[test]
fn negative_descriptor_is_rejected_before_any_query() {
    let mut queried = false;
    let r = extract_drm_device_id(-1, |_| {
        queried = true;
        None
    });
    assert_eq!(r, Err(VaError::InvalidParameter));
    assert!(!queried);
}

#[test]
fn descriptor_is_queried_once() {
    let mut seen = Vec::new();
    let r = extract_drm_device_id(7, |fd| {
        seen.push(fd);
        Some(FileStat { is_char_device: true, rdev: libc::makedev(226, 0) })
    });
    assert_eq!(r, Ok(DeviceId(226, 0)));
    assert_eq!(seen, vec![7]);
    assert_eq!(extract_drm_device_id(0, |_| None), Err(VaError::OperationFailed));
}
