use named_shm::errors::{MutexOp, ResourceOp, ShmError};
use named_shm::mutex_open::{MutexOpener, OpenAction, OpenEvent, OpenPhase};
use named_shm::value_open::{ValueAction, ValueEvent, ValueOpener, ValuePhase};

#[test]
fn mutex_open_first_opener_initializes() {
    let (mut op, a) = MutexOpener::start();
    let len = op.cb_len;
    assert!(len > 0);
    assert_eq!(a, OpenAction::OpenFile);
    assert_eq!(op.step(OpenEvent::Done), OpenAction::Resize { len });
    assert_eq!(op.step(OpenEvent::Done), OpenAction::AcquireInitLock);
    assert_eq!(op.step(OpenEvent::Done), OpenAction::MapRegion { len });
    assert_eq!(op.step(OpenEvent::Done), OpenAction::ReadLeadWord);
    // A fresh zero-filled control block: this opener wins the race.
    assert_eq!(op.step(OpenEvent::Word { value: 0 }), OpenAction::InitControlBlock);
    assert_eq!(op.step(OpenEvent::Done), OpenAction::ReleaseInitLock);
    assert_eq!(op.step(OpenEvent::Done), OpenAction::Complete);
    assert_eq!(op.phase, OpenPhase::Ready);
}

#[test]
fn mutex_open_initialized_block_is_left_untouched() {
    let (mut op, _) = MutexOpener::start();
    let len = op.cb_len;
    assert_eq!(op.step(OpenEvent::Done), OpenAction::Resize { len });
    assert_eq!(op.step(OpenEvent::Done), OpenAction::AcquireInitLock);
    assert_eq!(op.step(OpenEvent::Done), OpenAction::MapRegion { len });
    assert_eq!(op.step(OpenEvent::Done), OpenAction::ReadLeadWord);
    // The leading word is nonzero: an earlier opener already initialized
    // the control block, so it is not reinitialized.
    assert_eq!(op.step(OpenEvent::Word { value: 0x6b8b4567 }), OpenAction::ReleaseInitLock);
    assert_eq!(op.step(OpenEvent::Done), OpenAction::Complete);
    assert_eq!(op.phase, OpenPhase::Ready);
}

#[test]
fn mutex_open_failure_while_opening() {
    let (mut op, _) = MutexOpener::start();
    let a = op.step(OpenEvent::Error { errno: nix::libc::EACCES });
    assert_eq!(
        a,
        OpenAction::Abort {
            err: ShmError::Resource { op: ResourceOp::Open, errno: nix::libc::EACCES }
        }
    );
    assert_eq!(op.phase, OpenPhase::Failed);
}

#[test]
fn mutex_open_failure_while_taking_advisory_lock() {
    let (mut op, _) = MutexOpener::start();
    op.step(OpenEvent::Done);
    op.step(OpenEvent::Done);
    let a = op.step(OpenEvent::Error { errno: nix::libc::EINTR });
    assert_eq!(
        a,
        OpenAction::Abort {
            err: ShmError::Resource { op: ResourceOp::AdvisoryLock, errno: nix::libc::EINTR }
        }
    );
}

#[test]
fn mutex_open_failure_while_initializing() {
    let (mut op, _) = MutexOpener::start();
    op.step(OpenEvent::Done);
    op.step(OpenEvent::Done);
    op.step(OpenEvent::Done);
    op.step(OpenEvent::Done);
    op.step(OpenEvent::Word { value: 0 });
    let a = op.step(OpenEvent::Error { errno: nix::libc::ENOMEM });
    assert_eq!(
        a,
        OpenAction::Abort {
            err: ShmError::MutexProtocol {
                op: MutexOp::InitControlBlock,
                errno: nix::libc::ENOMEM
            }
        }
    );
}

#[test]
fn mutex_open_failure_while_mapping() {
    let (mut op, _) = MutexOpener::start();
    op.step(OpenEvent::Done);
    op.step(OpenEvent::Done);
    op.step(OpenEvent::Done);
    let a = op.step(OpenEvent::Error { errno: nix::libc::ENODEV });
    assert_eq!(
        a,
        OpenAction::Abort {
            err: ShmError::Resource { op: ResourceOp::MapFile, errno: nix::libc::ENODEV }
        }
    );
}

#[test]
fn value_open_zero_sized_type_always_fails() {
    let r = ValueOpener::start(0);
    assert!(r.is_err());
    match r {
        Err(e) => assert_eq!(e, ShmError::ZeroSizedValue),
        Ok(_) => unreachable!(),
    }
}

#[test]
fn value_open_happy_path() {
    let (mut op, a) = ValueOpener::start(8).unwrap();
    assert_eq!(a, ValueAction::OpenFile);
    assert_eq!(op.step(ValueEvent::Done), ValueAction::Resize { len: 8 });
    assert_eq!(op.step(ValueEvent::Done), ValueAction::MapRegion { len: 8 });
    assert_eq!(op.step(ValueEvent::Done), ValueAction::Complete);
    assert_eq!(op.phase, ValuePhase::Ready);
}

#[test]
fn value_open_failure_while_resizing() {
    let (mut op, _) = ValueOpener::start(16).unwrap();
    op.step(ValueEvent::Done);
    let a = op.step(ValueEvent::Error { errno: nix::libc::EFBIG });
    assert_eq!(
        a,
        ValueAction::Abort {
            err: ShmError::Resource { op: ResourceOp::Resize, errno: nix::libc::EFBIG }
        }
    );
    assert_eq!(op.phase, ValuePhase::Failed);
}
