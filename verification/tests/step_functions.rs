use named_shm::LockResult;
use named_shm::errors::{MutexOp, ShmError};
use named_shm::mutex::{LockStep, classify_lock, consistent_step, lock_step, owner_dead_code, unlock_step};

#[test]
fn owner_dead_code_is_nonzero() {
    assert_ne!(owner_dead_code(), 0);
    assert_eq!(owner_dead_code(), nix::libc::EOWNERDEAD);
}

#[test]
fn lock_step_success_is_acquired() {
    let r = lock_step(0, nix::libc::EOWNERDEAD);
    assert_eq!(r, LockStep::Done { outcome: LockResult::Acquired });
}

#[test]
fn lock_step_owner_death_needs_consistent() {
    let r = lock_step(nix::libc::EOWNERDEAD, nix::libc::EOWNERDEAD);
    assert_eq!(r, LockStep::NeedConsistent);
}

#[test]
fn lock_step_other_code_fails() {
    let r = lock_step(nix::libc::EDEADLK, nix::libc::EOWNERDEAD);
    assert_eq!(
        r,
        LockStep::Fail {
            err: ShmError::MutexProtocol { op: MutexOp::Lock, errno: nix::libc::EDEADLK }
        }
    );
}

#[test]
fn classify_lock_matches_platform_codes() {
    assert_eq!(classify_lock(0), LockStep::Done { outcome: LockResult::Acquired });
    assert_eq!(classify_lock(nix::libc::EOWNERDEAD), LockStep::NeedConsistent);
    assert_eq!(
        classify_lock(nix::libc::EINVAL),
        LockStep::Fail {
            err: ShmError::MutexProtocol { op: MutexOp::Lock, errno: nix::libc::EINVAL }
        }
    );
}

#[test]
fn consistent_step_success_reports_recovery() {
    assert_eq!(consistent_step(0), Ok(LockResult::OwnerDiedRecovered));
}

#[test]
fn consistent_step_failure_surfaces() {
    assert_eq!(
        consistent_step(nix::libc::EINVAL),
        Err(ShmError::MutexProtocol { op: MutexOp::Consistent, errno: nix::libc::EINVAL })
    );
}

#[test]
fn unlock_step_success() {
    assert_eq!(unlock_step(0), Ok(()));
}

#[test]
fn unlock_step_not_holder_surfaces_error() {
    // The release call answers EPERM to a caller that does not hold the
    // lock; the error must be surfaced, never swallowed.
    let r = unlock_step(nix::libc::EPERM);
    assert_eq!(
        r,
        Err(ShmError::MutexProtocol { op: MutexOp::Unlock, errno: nix::libc::EPERM })
    );
}
