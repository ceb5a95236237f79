//! Decisions of the GPU backend initialiser: which physical device, which codecs, which
//! queue family, and how the API's debug messages are logged.

use vstd::prelude::*;
use crate::codecs::{Codec, Operation, SupportedCodecs};
use crate::device::{spec_same_device, select_physical_device, DeviceId, DrmIdentity};
use crate::extensions::{codecs_from_extensions, spec_announces};
use crate::status::VaError;

verus! {

/// The GPU API's result code for a failed initialisation.
pub const VK_ERROR_INITIALIZATION_FAILED: i32 = -3;

/// Queue capability bit: the queues can run transfer commands.
pub const QUEUE_TRANSFER_BIT: u32 = 0x4;

/// Queue capability bit: the queues can run video decode commands.
pub const QUEUE_VIDEO_DECODE_BIT: u32 = 0x20;

/// What the GPU API reports of one queue family.
#[derive(Debug, Clone, Copy, PartialEq, Eq, Structural)]
pub struct QueueFamily {
    pub queue_flags: u32,
    pub queue_count: u32,
    pub video_codec_operations: u32,
    pub query_result_status_support: bool,
}

/// The queue family selected for video decoding.
#[derive(Debug, Clone, Copy, PartialEq, Eq, Structural)]
pub struct CodecQueueFamilyInfo {
    pub index: usize,
    pub count: u32,
    pub operations: u32,
    pub query_result_status_support: bool,
}

/// Whether every bit of `mask` is set in `flags`.
pub open spec fn spec_has_flags(flags: u32, mask: u32) -> bool {
    flags & mask == mask
}

/// Whether a queue family can take video decode work: it has queues, and it can run
/// both video decode and transfer commands.
pub open spec fn spec_decode_capable(f: QueueFamily) -> bool {
    f.queue_count > 0 && spec_has_flags(f.queue_flags, QUEUE_VIDEO_DECODE_BIT | QUEUE_TRANSFER_BIT)
}

/// The record of queue family `index`.
pub open spec fn spec_family_info(f: QueueFamily, index: usize) -> CodecQueueFamilyInfo {
    CodecQueueFamilyInfo {
        index,
        count: f.queue_count,
        operations: f.video_codec_operations,
        query_result_status_support: f.query_result_status_support,
    }
}

/// Selects the first queue family that can take video decode work.
pub fn select_decode_queue_family(families: &Vec<QueueFamily>) -> (r: Option<CodecQueueFamilyInfo>)
    ensures
        match r {
            Some(info) => info.index < families@.len()
                && spec_decode_capable(families@[info.index as int])
                && info == spec_family_info(families@[info.index as int], info.index)
                && forall|j: int| 0 <= j < info.index ==> !spec_decode_capable(#[trigger] families@[j]),
            None => forall|j: int| 0 <= j < families@.len() ==> !spec_decode_capable(#[trigger] families@[j]),
        },
{
    let mask: u32 = QUEUE_VIDEO_DECODE_BIT | QUEUE_TRANSFER_BIT;
    let mut i: usize = 0;
    while i < families.len()
        invariant
            i <= families@.len(),
            mask == QUEUE_VIDEO_DECODE_BIT | QUEUE_TRANSFER_BIT,
            forall|j: int| 0 <= j < i ==> !spec_decode_capable(#[trigger] families@[j]),
        decreases families@.len() - i,
    {
        let f = families[i];
        if f.queue_count > 0 && f.queue_flags & mask == mask {
            return Some(
                CodecQueueFamilyInfo {
                    index: i,
                    count: f.queue_count,
                    operations: f.video_codec_operations,
                    query_result_status_support: f.query_result_status_support,
                },
            );
        }
        i = i + 1;
    }
    None
}

/// What the driver learns of the GPU when it starts.
#[derive(Debug, Clone, Copy, PartialEq, Eq, Structural)]
pub struct Capabilities {
    /// Index of the selected physical device in enumeration order.
    pub device_index: usize,
    pub supported_codecs: SupportedCodecs,
    pub decode_queue_family: CodecQueueFamilyInfo,
}

/// Chooses the physical device that is the kernel device `target`, reads its codec support
/// from its extension names, and selects its video decode queue family.
///
/// `devices` holds the identity of each physical device in enumeration order.
/// `extensions` lists the extension names of a device, or fails with a GPU API result code;
/// `queue_families` lists the queue families of a device. Each is called at most once, on the
/// selected device only, the first that matches.
///
/// An error means exactly one of: no device matches (`VK_ERROR_INITIALIZATION_FAILED`); listing
/// the extensions of the selected device failed (its code is passed on unchanged); or that
/// listing succeeded but none of the device's queue families can decode
/// (`VK_ERROR_INITIALIZATION_FAILED`).
pub fn negotiate_capabilities<E, Q>(
    devices: &Vec<DrmIdentity>,
    target: DeviceId,
    extensions: E,
    queue_families: Q,
) -> (r: Result<Capabilities, i32>) where
    E: FnOnce(usize) -> Result<Vec<Vec<u8>>, i32>,
    Q: FnOnce(usize) -> Vec<QueueFamily>,

    requires
        forall|i: usize| i < devices@.len() ==> extensions.requires((i,)),
        forall|i: usize| i < devices@.len() ==> queue_families.requires((i,)),
    ensures
        (forall|j: int| 0 <= j < devices@.len() ==> !spec_same_device(#[trigger] devices@[j], target))
            ==> r == Err::<Capabilities, i32>(VK_ERROR_INITIALIZATION_FAILED),
        r matches Ok(caps) ==> {
            &&& caps.device_index < devices@.len()
            &&& spec_same_device(devices@[caps.device_index as int], target)
            &&& forall|j: int| 0 <= j < caps.device_index ==> !spec_same_device(#[trigger] devices@[j], target)
            &&& exists|names: Vec<Vec<u8>>| #[trigger] extensions.ensures((caps.device_index,), Ok::<Vec<Vec<u8>>, i32>(names))
                && forall|c: Codec, o: Operation| #[trigger] caps.supported_codecs.supports(c, o) == spec_announces(names@, c, o)
            &&& exists|families: Vec<QueueFamily>| #[trigger] queue_families.ensures((caps.device_index,), families)
                && caps.decode_queue_family.index < families@.len()
                && spec_decode_capable(families@[caps.decode_queue_family.index as int])
                && caps.decode_queue_family == spec_family_info(families@[caps.decode_queue_family.index as int], caps.decode_queue_family.index)
                && forall|j: int| 0 <= j < caps.decode_queue_family.index ==> !spec_decode_capable(#[trigger] families@[j])
        },
        r matches Err(code) ==> {
            ||| (forall|j: int| 0 <= j < devices@.len() ==> !spec_same_device(#[trigger] devices@[j], target))
                && code == VK_ERROR_INITIALIZATION_FAILED
            ||| exists|i: usize| #![trigger devices@[i as int]]
                i < devices@.len() && spec_same_device(devices@[i as int], target)
                && (forall|j: int| 0 <= j < i ==> !spec_same_device(#[trigger] devices@[j], target))
                && (extensions.ensures((i,), Err::<Vec<Vec<u8>>, i32>(code))
                    || (code == VK_ERROR_INITIALIZATION_FAILED
                        && (exists|names: Vec<Vec<u8>>| #[trigger] extensions.ensures((i,), Ok::<Vec<Vec<u8>>, i32>(names)))
                        && exists|families: Vec<QueueFamily>| #[trigger] queue_families.ensures((i,), families)
                            && forall|j: int| 0 <= j < families@.len() ==> !spec_decode_capable(#[trigger] families@[j])))
        },
{
    let index = match select_physical_device(devices, target) {
        Some(i) => i,
        None => return Err(VK_ERROR_INITIALIZATION_FAILED),
    };
    let listed = extensions(index);
    let names = match listed {
        Ok(names) => names,
        Err(code) => {
            assert(devices@[index as int] == devices@[index as int]);
            return Err(code);
        },
    };
    let supported_codecs = codecs_from_extensions(&names);
    let families = queue_families(index);
    let decode_queue_family = match select_decode_queue_family(&families) {
        Some(info) => info,
        None => {
            assert(extensions.ensures((index,), Ok::<Vec<Vec<u8>>, i32>(names)));
            assert(queue_families.ensures((index,), families));
            assert(devices@[index as int] == devices@[index as int]);
            return Err(VK_ERROR_INITIALIZATION_FAILED);
        },
    };
    assert(exists|names: Vec<Vec<u8>>| #[trigger] extensions.ensures((index,), Ok::<Vec<Vec<u8>>, i32>(names))
                && forall|c: Codec, o: Operation| #[trigger] supported_codecs.supports(c, o) == spec_announces(names@, c, o));
    Ok(Capabilities { device_index: index, supported_codecs, decode_queue_family })
}

/// Any failure of the GPU backend initialiser, whatever the API's result code, fails
/// driver initialisation as an operation failure.
pub fn init_failure_error(code: i32) -> (r: VaError)
    ensures
        r == VaError::OperationFailed,
{
    VaError::OperationFailed
}

/// Severity bits of the GPU API's debug messages.
pub const SEVERITY_VERBOSE: u32 = 0x1;
pub const SEVERITY_INFO: u32 = 0x10;
pub const SEVERITY_WARNING: u32 = 0x100;
pub const SEVERITY_ERROR: u32 = 0x1000;

/// Level of a log record.
#[derive(Debug, Clone, Copy, PartialEq, Eq, Structural)]
pub enum LogLevel {
    Error,
    Warn,
    Info,
    Debug,
    Trace,
}

/// The log level of a debug message of the given severity: verbose to trace, info to info,
/// warning to warn, error to error, and anything else to info.
pub open spec fn spec_log_level_for_severity(severity: u32) -> LogLevel {
    if severity == SEVERITY_VERBOSE {
        LogLevel::Trace
    } else if severity == SEVERITY_INFO {
        LogLevel::Info
    } else if severity == SEVERITY_WARNING {
        LogLevel::Warn
    } else if severity == SEVERITY_ERROR {
        LogLevel::Error
    } else {
        LogLevel::Info
    }
}

/// The log level of a debug message of the given severity.
pub fn log_level_for_severity(severity: u32) -> (r: LogLevel)
    ensures
        r == spec_log_level_for_severity(severity),
{
    if severity == SEVERITY_VERBOSE {
        LogLevel::Trace
    } else if severity == SEVERITY_INFO {
        LogLevel::Info
    } else if severity == SEVERITY_WARNING {
        LogLevel::Warn
    } else if severity == SEVERITY_ERROR {
        LogLevel::Error
    } else {
        LogLevel::Info
    }
}

} // verus!
