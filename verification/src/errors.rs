//! Error taxonomy for both primitives.
//!
//! Every fallible operation surfaces an explicit error carrying the failed
//! step and the OS error code; nothing is retried. Owner death is not an
//! error (it is the `LockResult::OwnerDiedRecovered` outcome).

use vstd::prelude::*;

verus! {

/// The resource step that failed: opening, sizing or mapping a backing
/// file, or the advisory lock that guards one-time initialization.
#[derive(Debug, Clone, Copy, PartialEq, Eq, Structural)]
pub enum ResourceOp {
    /// Opening or creating the backing file.
    Open,
    /// Resizing the backing file to its exact structure size.
    Resize,
    /// Taking the exclusive advisory lock for one-time initialization.
    AdvisoryLock,
    /// Mapping the backing file read-write into this process.
    MapFile,
    /// Releasing the advisory initialization lock.
    AdvisoryUnlock,
}

/// The mutex-protocol step that failed: control-block setup or a
/// lock-family call other than owner-death (which is not an error).
#[derive(Debug, Clone, Copy, PartialEq, Eq, Structural)]
pub enum MutexOp {
    /// Building the process-shared robust attributes and initializing the
    /// control block in place.
    InitControlBlock,
    /// The blocking acquire call.
    Lock,
    /// Marking the lock consistent after the previous owner died.
    Consistent,
    /// The release call.
    Unlock,
}

/// The OS error code for an operation the caller is not permitted to
/// perform, which is what the release call returns to a caller that does
/// not hold the lock.
pub const NOT_OWNER_ERRNO: i32 = 1;

/// An error surfaced by either primitive.
#[derive(Debug, Clone, Copy, PartialEq, Eq, Structural)]
pub enum ShmError {
    /// An open/resize/map/advisory-lock failure, with the OS error code.
    Resource { op: ResourceOp, errno: i32 },
    /// A mutex attribute or lock/unlock/consistent failure, with the OS
    /// error code.
    MutexProtocol { op: MutexOp, errno: i32 },
    /// A zero-sized type was offered as a shared value; rejected eagerly
    /// at open time.
    ZeroSizedValue,
}

} // verus!
