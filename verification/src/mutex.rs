//! Decision logic of the named process-shared mutex.
//!
//! The blocking acquire, the recovery step after an owner's death and the
//! release are each one OS call followed by a decision on the code it
//! returned. The driver makes the call and hands the code to the functions
//! here, which decide the outcome exactly.

use vstd::prelude::*;

use crate::LockResult;
use crate::errors::{MutexOp, ShmError};

verus! {

/// What the driver must do next after the blocking acquire call returned.
#[derive(Debug, Clone, Copy, PartialEq, Eq, Structural)]
pub enum LockStep {
    /// The acquire is complete with this outcome.
    Done { outcome: LockResult },
    /// The previous owner died while holding the lock: the driver must mark
    /// the lock consistent and hand the code of that call to
    /// [`consistent_step`].
    NeedConsistent,
    /// The acquire failed; surfaced, never retried.
    Fail { err: ShmError },
}

/// Relies on `nix::libc::EOWNERDEAD`: the code the blocking acquire call
/// returns when the previous holder died while holding the lock. POSIX
/// defines it as an error number distinct from zero, the success code.
#[verifier::external_body]
pub fn owner_dead_code() -> (r: i32)
    ensures
        r != 0,
{
    nix::libc::EOWNERDEAD
}

/// Decides the acquire outcome from the code `rc` that the blocking acquire
/// call returned, given the platform's owner-death code.
pub fn lock_step(rc: i32, owner_dead: i32) -> (r: LockStep)
    requires
        owner_dead != 0,
    ensures
        rc == owner_dead ==> r == (LockStep::NeedConsistent),
        rc == 0 ==> r == (LockStep::Done { outcome: LockResult::Acquired }),
        rc != 0 && rc != owner_dead ==> r == (LockStep::Fail {
            err: ShmError::MutexProtocol { op: MutexOp::Lock, errno: rc },
        }),
{
    if rc == owner_dead {
        LockStep::NeedConsistent
    } else if rc == 0 {
        LockStep::Done { outcome: LockResult::Acquired }
    } else {
        LockStep::Fail { err: ShmError::MutexProtocol { op: MutexOp::Lock, errno: rc } }
    }
}

/// Decides the acquire outcome from the code `rc` that the blocking acquire
/// call returned. Fetches the platform's owner-death code itself, so the
/// exact boundary between recovery and failure is known only to the
/// platform; what is decided for each answer is stated by [`lock_step`].
pub fn classify_lock(rc: i32) -> (r: LockStep)
    ensures
        r is Done <==> rc == 0,
        rc == 0 ==> r == (LockStep::Done { outcome: LockResult::Acquired }),
        r is NeedConsistent ==> rc != 0,
        r matches LockStep::Fail { err } ==> rc != 0 && err == (ShmError::MutexProtocol {
            op: MutexOp::Lock,
            errno: rc,
        }),
        !(r matches LockStep::Done { outcome } && outcome is OwnerDiedRecovered),
{
    let owner_dead = owner_dead_code();
    lock_step(rc, owner_dead)
}

/// Decides the final acquire outcome from the code `rc` returned by the
/// call that marks the lock consistent after the previous owner died.
pub fn consistent_step(rc: i32) -> (r: Result<LockResult, ShmError>)
    ensures
        rc == 0 <==> r is Ok,
        rc == 0 ==> r == Ok::<LockResult, ShmError>(LockResult::OwnerDiedRecovered),
        rc != 0 ==> r == Err::<LockResult, ShmError>(ShmError::MutexProtocol {
            op: MutexOp::Consistent,
            errno: rc,
        }),
{
    if rc == 0 {
        Ok(LockResult::OwnerDiedRecovered)
    } else {
        Err(ShmError::MutexProtocol { op: MutexOp::Consistent, errno: rc })
    }
}

/// Decides the release outcome from the code `rc` that the release call
/// returned. A failure — for instance because the caller does not hold the
/// lock — is surfaced, never swallowed.
pub fn unlock_step(rc: i32) -> (r: Result<(), ShmError>)
    ensures
        rc == 0 <==> r is Ok,
        rc != 0 ==> r == Err::<(), ShmError>(ShmError::MutexProtocol {
            op: MutexOp::Unlock,
            errno: rc,
        }),
{
    if rc == 0 {
        Ok(())
    } else {
        Err(ShmError::MutexProtocol { op: MutexOp::Unlock, errno: rc })
    }
}

} // verus!
