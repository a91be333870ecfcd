//! The connection orchestrator's decision logic.
//!
//! Every remote operation is a resumable, I/O-free protocol state machine:
//! re-entered with the previous I/O result, it reports completion, failure,
//! a needed I/O, or a redirect that requires a replaced connection.  The
//! resumption loop has the same shape for every operation; the caller owns
//! the connection and the blocking I/O, and asks [`drive_step`] what each
//! report means for the loop: terminate with the value, terminate with the
//! error, perform the I/O and resume, or hand the redirect target back to
//! the caller, which holds the context a redirect decision needs.

use vstd::prelude::*;

use crate::uri::Uri;

verus! {

/// What a protocol state machine reports when re-entered.  Only
/// discovery-class operations ever report `NeedsReset`.
pub enum MachineReport<T, E, I> {
    Completed(T),
    Failed(E),
    NeedsIo(I),
    NeedsReset(Uri),
}

/// The loop's reaction to one report: stop with the operation's value,
/// stop with its error, perform the requested I/O and resume the machine
/// with the result, or return the redirect target to the caller without
/// resuming.
pub enum DriveStep<T, E, I> {
    Done(T),
    Fail(E),
    PerformIo(I),
    ResetTo(Uri),
}

/// Decide the resumption loop's reaction to one state-machine report.
///
/// Completion and failure are terminal; a needed I/O keeps the loop
/// running; a redirect leaves the loop, to be retried by the caller on a
/// replaced connection, never resumed on the stale one.
pub fn drive_step<T, E, I>(report: MachineReport<T, E, I>) -> (r: DriveStep<T, E, I>)
    ensures
        match report {
            MachineReport::Completed(v) => r matches DriveStep::Done(w) && w == v,
            MachineReport::Failed(e) => r matches DriveStep::Fail(f) && f == e,
            MachineReport::NeedsIo(io) => r matches DriveStep::PerformIo(j) && j == io,
            MachineReport::NeedsReset(u) => r matches DriveStep::ResetTo(t) && t == u,
        },
{
    match report {
        MachineReport::Completed(v) => DriveStep::Done(v),
        MachineReport::Failed(e) => DriveStep::Fail(e),
        MachineReport::NeedsIo(io) => DriveStep::PerformIo(io),
        MachineReport::NeedsReset(u) => DriveStep::ResetTo(u),
    }
}

} // verus!
