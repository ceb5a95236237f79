//! Kernel device identity: resolving the host's device file to a (major, minor) pair and
//! matching it against the identities that the GPU API reports for its physical devices.

use vstd::prelude::*;
use crate::status::VaError;

verus! {

/// A kernel device identifier: major and minor number.
/// The numbers are held as `i64`, the type in which the GPU API reports them.
#[derive(Debug, Clone, Copy, PartialEq, Eq, Structural)]
pub struct DeviceId(pub i64, pub i64);

/// What the GPU API reports of a physical device's kernel identity.
#[derive(Debug, Clone, Copy, PartialEq, Eq, Structural)]
pub struct DrmIdentity {
    pub has_primary: bool,
    pub has_render: bool,
    pub primary_major: i64,
    pub primary_minor: i64,
    pub render_major: i64,
    pub render_minor: i64,
}

/// Whether a physical device with identity `props` is the kernel device `id`: through its
/// primary node or through its render node, each counted only where the device has it.
pub open spec fn spec_same_device(props: DrmIdentity, id: DeviceId) -> bool {
    (props.has_primary && props.primary_major == id.0 && props.primary_minor == id.1)
        || (props.has_render && props.render_major == id.0 && props.render_minor == id.1)
}

/// Whether a physical device with identity `props` is the kernel device `id`.
pub fn vulkan_device_is_same_as_drm(props: &DrmIdentity, id: DeviceId) -> (r: bool)
    ensures
        r == spec_same_device(*props, id),
{
    let primary_id = DeviceId(props.primary_major, props.primary_minor);
    let render_id = DeviceId(props.render_major, props.render_minor);
    (props.has_primary && primary_id == id) || (props.has_render && render_id == id)
}

/// A device whose primary node is `id` is that device, whatever its render node says.
pub proof fn lemma_primary_node_matches(props: DrmIdentity, id: DeviceId)
    requires
        props.has_primary,
        props.primary_major == id.0,
        props.primary_minor == id.1,
    ensures
        spec_same_device(props, id),
{
}

/// A device without a primary node whose render node is `id` is that device.
pub proof fn lemma_render_node_matches(props: DrmIdentity, id: DeviceId)
    requires
        props.has_render,
        props.render_major == id.0,
        props.render_minor == id.1,
    ensures
        spec_same_device(props, id),
{
}

/// The index of the first device that is the kernel device `id`, in enumeration order.
pub fn select_physical_device(devices: &Vec<DrmIdentity>, id: DeviceId) -> (r: Option<usize>)
    ensures
        match r {
            Some(i) => i < devices@.len() && spec_same_device(devices@[i as int], id)
                && forall|j: int| 0 <= j < i ==> !spec_same_device(#[trigger] devices@[j], id),
            None => forall|j: int| 0 <= j < devices@.len() ==> !spec_same_device(#[trigger] devices@[j], id),
        },
{
    let mut i: usize = 0;
    while i < devices.len()
        invariant
            i <= devices@.len(),
            forall|j: int| 0 <= j < i ==> !spec_same_device(#[trigger] devices@[j], id),
        decreases devices@.len() - i,
    {
        if vulkan_device_is_same_as_drm(&devices[i], id) {
            return Some(i);
        }
        i = i + 1;
    }
    None
}

/// What the file metadata of the host's device descriptor says.
#[derive(Debug, Clone, Copy, PartialEq, Eq, Structural)]
pub struct FileStat {
    pub is_char_device: bool,
    pub rdev: u64,
}

/// The major number in a Linux packed device number.
pub open spec fn spec_device_major(dev: u64) -> u32 {
    (((dev & 0x0000_0000_000f_ff00u64) >> 8u64) | ((dev & 0xffff_f000_0000_0000u64) >> 32u64)) as u32
}

/// The minor number in a Linux packed device number.
pub open spec fn spec_device_minor(dev: u64) -> u32 {
    ((dev & 0x0000_0000_0000_00ffu64) | ((dev & 0x0000_0fff_fff0_0000u64) >> 12u64)) as u32
}

/// Relies on libc::major: splits the major number out of a packed device number.
#[verifier::external_body]
fn device_major(dev: u64) -> (r: u32)
    ensures
        r == spec_device_major(dev),
{
    libc::major(dev)
}

/// Relies on libc::minor: splits the minor number out of a packed device number.
#[verifier::external_body]
fn device_minor(dev: u64) -> (r: u32)
    ensures
        r == spec_device_minor(dev),
{
    libc::minor(dev)
}

/// The device identifier that a metadata query gives; `None` stands for a failed query.
pub open spec fn spec_device_id_from_stat(stat: Option<FileStat>) -> Result<DeviceId, VaError> {
    match stat {
        None => Err(VaError::OperationFailed),
        Some(s) => if s.is_char_device {
            Ok(DeviceId(spec_device_major(s.rdev) as i64, spec_device_minor(s.rdev) as i64))
        } else {
            Err(VaError::InvalidParameter)
        },
    }
}

/// The device identifier that a metadata query gives: a failed query is an operation
/// failure, a file that is not a character device an invalid parameter.
pub fn device_id_from_stat(stat: Option<FileStat>) -> (r: Result<DeviceId, VaError>)
    ensures
        r == spec_device_id_from_stat(stat),
{
    match stat {
        None => Err(VaError::OperationFailed),
        Some(s) => {
            if !s.is_char_device {
                return Err(VaError::InvalidParameter);
            }
            let major = device_major(s.rdev);
            let minor = device_minor(s.rdev);
            Ok(DeviceId(major as i64, minor as i64))
        },
    }
}

/// Resolves the host's device descriptor to a kernel device identifier.
/// A negative descriptor is rejected before any query; otherwise `stat` queries the
/// descriptor's metadata once, and its answer decides the result.
pub fn extract_drm_device_id<F: FnOnce(i32) -> Option<FileStat>>(fd: i32, stat: F) -> (r: Result<
    DeviceId,
    VaError,
>)
    requires
        fd >= 0 ==> stat.requires((fd,)),
    ensures
        fd < 0 ==> r == Err::<DeviceId, VaError>(VaError::InvalidParameter),
        fd >= 0 ==> exists|s: Option<FileStat>| stat.ensures((fd,), s) && r == spec_device_id_from_stat(s),
{
    if fd < 0 {
        return Err(VaError::InvalidParameter);
    }
    let s = stat(fd);
    device_id_from_stat(s)
}

} // verus!
