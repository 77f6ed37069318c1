//! The error taxonomy shared by device acquisition and dispatch.
use vstd::prelude::*;

verus! {

/// Everything that can go wrong between asking for a device and reading a
/// dispatch result back.
///
/// The first two variants are produced while acquiring a device, before any
/// dispatch runs; the remaining three are the terminal outcomes of a single
/// dispatch. No variant is ever retried: a failed dispatch is final for that
/// invocation.
#[derive(Clone, Copy, Debug, PartialEq, Eq, Structural)]
pub enum Error {
    /// No compute-capable adapter was available.
    AdapterAcquisitionError,
    /// The adapter refused to produce a device with the requested limits.
    DeviceCreationError,
    /// The program text was invalid or did not declare the entry point.
    CompileError,
    /// The bindings did not match the layout the program expects.
    BindingError,
    /// The submitted work never completed, or the device reported a fault.
    ExecutionError,
}

} // verus!
