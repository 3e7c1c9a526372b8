//! Structured reporting of a failing OS call: the operation that failed
//! paired with the platform error code captured right after the call.

use vstd::prelude::*;

verus! {

/// The OS operation whose failure is being reported.  Each failure is
/// terminal for the current invocation: there are no retries.
#[derive(Clone, Copy, Debug, PartialEq, Eq, Structural)]
pub enum Operation {
    /// The process-creation call failed (resource acquisition).
    ProcessCreate,
    /// The wait-for-completion call failed (synchronization).
    Wait,
    /// The process completed but its exit status could not be read.
    StatusRead,
}

impl Operation {
    /// The conventional name of each operation.
    pub open spec fn spec_name(self) -> Seq<char> {
        match self {
            Operation::ProcessCreate => "process-create"@,
            Operation::Wait => "wait"@,
            Operation::StatusRead => "status-read"@,
        }
    }

    /// The operation's name, for reporting to callers.
    pub fn name(&self) -> (r: &'static str)
        ensures
            r@ == self.spec_name(),
    {
        match self {
            Operation::ProcessCreate => "process-create",
            Operation::Wait => "wait",
            Operation::StatusRead => "status-read",
        }
    }
}

/// A failing OS call, as surfaced to the caller: which operation failed and
/// the platform-reported error code.  The code must be read from the
/// platform's ambient per-thread error state immediately after the failing
/// call, before any further OS call can overwrite it; the platform driver
/// owns that ordering and hands the captured code in as a plain value.
#[derive(Clone, Copy, Debug, PartialEq, Eq, Structural)]
pub struct OperationError {
    /// The operation that failed.
    pub operation: Operation,
    /// The platform error code captured immediately after the call.
    pub code: u32,
}

impl OperationError {
    /// Packages a failing operation with its captured error code.
    pub fn new(operation: Operation, code: u32) -> (e: OperationError)
        ensures
            e == (OperationError { operation, code }),
    {
        OperationError { operation, code }
    }
}

} // verus!
