use vstd::prelude::*;

verus! {

/// Errors of the orchestration layer.
///
/// Every fault a caller can observe is one of these; none of them aborts the
/// process. Hardware-level faults reported by the driver and frame-alignment
/// violations both surface as `DeviceFault`.
#[derive(Clone, Copy, Debug, PartialEq, Eq, Structural)]
pub enum MBError {
    /// The requested operation is illegal in the current device state.
    WrongState,
    /// A supplied parameter lies outside its valid range.
    InvalidInput,
    /// Another owner currently holds the device for a mutating operation.
    DeviceBusy,
    /// A written configuration did not verify on read-back.
    ConfigMismatch,
    /// The driver reported a hardware fault, or a read violated frame
    /// alignment.
    DeviceFault,
    /// Writing output to a file or network sink failed.
    IOFault,
}

} // verus!
