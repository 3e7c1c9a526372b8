//! The three-way outcome assigned to a process that completed, and the
//! classification of a raw numeric exit status into it.

use vstd::prelude::*;

verus! {

/// The well-known exit status a process reports when it was terminated by a
/// console control-break signal.
pub const CONTROL_BREAK_STATUS: u32 = 0xC000_013A;

/// How a launched process ended.  This is a successful result describing the
/// child itself, never an error channel: operational failures of the launch
/// machinery are reported separately.
#[derive(Clone, Copy, Debug, PartialEq, Eq, Structural)]
pub enum Termination {
    /// The process exited with status 0.
    Success,
    /// The process exited with the control-break status.
    Interrupted,
    /// The process exited with any other nonzero status.
    Failure,
}

/// The outcome assigned to a raw exit status: 0 is `Success`, the
/// control-break status is `Interrupted`, everything else is `Failure`.
pub open spec fn classification_of(status: u32) -> Termination {
    if status == 0 {
        Termination::Success
    } else if status == CONTROL_BREAK_STATUS {
        Termination::Interrupted
    } else {
        Termination::Failure
    }
}

/// Maps a raw exit status to its three-way outcome.  The raw value is
/// discarded after classification; callers receive only the bucket.
pub fn classify_exit_status(status: u32) -> (t: Termination)
    ensures
        t == classification_of(status),
{
    if status == 0 {
        Termination::Success
    } else if status == CONTROL_BREAK_STATUS {
        Termination::Interrupted
    } else {
        Termination::Failure
    }
}

} // verus!
