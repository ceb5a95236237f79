//! Validation of the opaque handles that the host passes in, the driver's private record,
//! and the outcome of the entry points that only validate their context.
//!
//! A handle is seen here as its address and the alignment its target type needs. Nothing
//! behind a handle is read until the address has passed its checks.

use vstd::prelude::*;
use crate::status::{spec_status_of, status_of, VaError, VA_STATUS_ERROR_INVALID_PARAMETER,
    VA_STATUS_ERROR_UNIMPLEMENTED, VA_STATUS_SUCCESS};

verus! {

/// Why a handle was refused.
#[derive(Debug, Clone, Copy, PartialEq, Eq, Structural)]
pub enum Rejection {
    /// The address is zero.
    Null,
    /// The address is not a multiple of the target type's alignment.
    Misaligned,
    /// The record behind the address does not carry the driver's tag.
    TagMismatch,
}

impl Rejection {
    /// Every rejection is an invalid parameter to the host: no finer check is possible
    /// through an opaque handle.
    pub fn error(self) -> (r: VaError)
        ensures
            r == VaError::InvalidParameter,
    {
        VaError::InvalidParameter
    }
}

/// Whether an address may be read as a value of a type with alignment `align`.
pub open spec fn spec_pointer_ok(addr: usize, align: usize) -> bool {
    addr != 0 && addr % align == 0
}

/// The check of an address against null and alignment.
pub open spec fn spec_check_pointer(addr: usize, align: usize) -> Result<(), Rejection> {
    if addr == 0 {
        Err(Rejection::Null)
    } else if addr % align != 0 {
        Err(Rejection::Misaligned)
    } else {
        Ok(())
    }
}

/// Checks an address against null and against the alignment of its target type.
pub fn check_pointer(addr: usize, align: usize) -> (r: Result<(), Rejection>)
    requires
        align > 0,
    ensures
        r == spec_check_pointer(addr, align),
        r is Ok <==> spec_pointer_ok(addr, align),
{
    if addr == 0 {
        Err(Rejection::Null)
    } else if addr % align != 0 {
        Err(Rejection::Misaligned)
    } else {
        Ok(())
    }
}

/// The tag that marks the driver's private record ("VAVK").
pub const DRIVER_DATA_MAGIC: u32 = 0x5641564b;

/// The check of the tag read from a private record.
pub open spec fn spec_check_tag(tag: u32) -> Result<(), Rejection> {
    if tag == DRIVER_DATA_MAGIC {
        Ok(())
    } else {
        Err(Rejection::TagMismatch)
    }
}

/// The whole check of a private-data handle whose record, if read, carries `tag`.
pub open spec fn spec_validate_driver_data(addr: usize, align: usize, tag: u32) -> Result<(), Rejection> {
    match spec_check_pointer(addr, align) {
        Err(e) => Err(e),
        Ok(()) => spec_check_tag(tag),
    }
}

/// Checks a private-data handle: its address first, and only then the tag, which
/// `read_tag` reads from the record.
pub fn validate_driver_data<F: FnOnce() -> u32>(addr: usize, align: usize, read_tag: F) -> (r: Result<
    (),
    Rejection,
>)
    requires
        align > 0,
        spec_pointer_ok(addr, align) ==> read_tag.requires(()),
    ensures
        !spec_pointer_ok(addr, align) ==> r == spec_check_pointer(addr, align),
        spec_pointer_ok(addr, align) ==> exists|tag: u32|
            read_tag.ensures((), tag) && r == spec_validate_driver_data(addr, align, tag),
{
    match check_pointer(addr, align) {
        Err(e) => Err(e),
        Ok(()) => {
            let tag = read_tag();
            let r = if tag == DRIVER_DATA_MAGIC {
                Ok(())
            } else {
                Err(Rejection::TagMismatch)
            };
            assert(read_tag.ensures((), tag) && r == spec_validate_driver_data(addr, align, tag));
            r
        },
    }
}

/// The driver's private record: a tag, then what the driver keeps between calls.
pub struct DriverData<P> {
    magic: u32,
    payload: P,
}

impl<P> DriverData<P> {
    /// The tag that the record carries.
    pub closed spec fn spec_tag(&self) -> u32 {
        self.magic
    }

    /// What the record keeps.
    pub closed spec fn spec_payload(&self) -> P {
        self.payload
    }

    /// A record is well formed when it carries the driver's tag.
    pub open spec fn wf(&self) -> bool {
        self.spec_tag() == DRIVER_DATA_MAGIC
    }

    /// A tagged record holding `payload`.
    pub fn new(payload: P) -> (r: DriverData<P>)
        ensures
            r.wf(),
            r.spec_payload() == payload,
    {
        DriverData { magic: DRIVER_DATA_MAGIC, payload }
    }

    /// What the record keeps.
    pub fn payload(&self) -> (r: &P)
        ensures
            *r == self.spec_payload(),
    {
        &self.payload
    }

    /// The tag that the record carries.
    pub fn tag(&self) -> (r: u32)
        ensures
            r == self.spec_tag(),
    {
        self.magic
    }
}

/// A record made by the driver passes validation behind any non-null, aligned address.
pub proof fn lemma_driver_data_round_trip<P>(d: DriverData<P>, addr: usize, align: usize)
    requires
        d.wf(),
        spec_pointer_ok(addr, align),
    ensures
        spec_validate_driver_data(addr, align, d.spec_tag()) == Ok::<(), Rejection>(()),
{
}

/// Runs an operation on a validated context: a context handle that fails its check gives
/// an invalid parameter and `body` is not run; otherwise the outcome of `body` is translated
/// into a host status code.
pub fn with_driver_context<F: FnOnce() -> Result<(), VaError>>(addr: usize, align: usize, body: F) -> (r:
    i32)
    requires
        align > 0,
        spec_pointer_ok(addr, align) ==> body.requires(()),
    ensures
        !spec_pointer_ok(addr, align) ==> r == VA_STATUS_ERROR_INVALID_PARAMETER,
        spec_pointer_ok(addr, align) ==> exists|out: Result<(), VaError>|
            body.ensures((), out) && r == spec_status_of(out),
{
    match check_pointer(addr, align) {
        Err(e) => e.error().status(),
        Ok(()) => {
            let out = body();
            status_of(out)
        },
    }
}

/// The status of an operation the driver does not implement: an invalid parameter for a
/// context handle that fails its check, else "unimplemented", every time.
pub fn unimplemented_entry(addr: usize, align: usize) -> (r: i32)
    requires
        align > 0,
    ensures
        r == if spec_pointer_ok(addr, align) {
            VA_STATUS_ERROR_UNIMPLEMENTED
        } else {
            VA_STATUS_ERROR_INVALID_PARAMETER
        },
{
    match check_pointer(addr, align) {
        Err(e) => e.error().status(),
        Ok(()) => VaError::Unimplemented.status(),
    }
}

/// A context handle that is null or misaligned is refused as an invalid parameter.
pub proof fn lemma_bad_context_rejected(addr: usize, align: usize)
    requires
        align > 0,
        addr == 0 || addr % align != 0,
    ensures
        spec_check_pointer(addr, align) is Err,
        !spec_pointer_ok(addr, align),
        VaError::InvalidParameter.spec_status() == VA_STATUS_ERROR_INVALID_PARAMETER,
{
}

/// What terminating did with the private-data slot.
#[derive(Debug, Clone, Copy, PartialEq, Eq, Structural)]
pub enum TerminateOutcome {
    /// The slot held a record, which was released.
    Released,
    /// The slot was already empty; nothing was released. This deserves a warning, not an error.
    AlreadyEmpty,
}

/// The slot after terminating, and what was done.
pub open spec fn spec_terminate<P>(slot: Option<P>) -> (Option<P>, TerminateOutcome) {
    match slot {
        Some(_) => (None, TerminateOutcome::Released),
        None => (None, TerminateOutcome::AlreadyEmpty),
    }
}

/// Empties the private-data slot and releases the record it held, if any.
/// Terminating succeeds in both cases.
pub fn terminate<P>(slot: &mut Option<P>) -> (r: TerminateOutcome)
    ensures
        (*final(slot), r) == spec_terminate(*old(slot)),
{
    match slot.take() {
        // The record taken out of the slot is dropped at the end of this arm.
        Some(_data) => TerminateOutcome::Released,
        None => TerminateOutcome::AlreadyEmpty,
    }
}

/// Terminating twice releases the record once: the second call finds the slot empty, so a
/// record is never released twice.
pub proof fn lemma_terminate_releases_once<P>(slot: Option<P>)
    ensures
        spec_terminate(slot).0 is None,
        spec_terminate(spec_terminate(slot).0).1 == TerminateOutcome::AlreadyEmpty,
        slot is Some ==> spec_terminate(slot).1 == TerminateOutcome::Released,
{
}

/// Terminating with an empty slot is no error: the slot stays empty, the outcome is
/// `AlreadyEmpty` (a warning), and the operation run under `with_driver_context` reports
/// success.
pub proof fn lemma_terminate_empty_succeeds<P>()
    ensures
        spec_terminate(None::<P>) == (None::<P>, TerminateOutcome::AlreadyEmpty),
        spec_status_of(Ok(())) == VA_STATUS_SUCCESS,
{
}

} // verus!
