//! The open sequence of the named mutex, as an explicit state machine.
//!
//! Opening lazily creates and, exactly once across all racing first
//! openers, initializes the shared control block:
//!
//! 1. open-or-create the backing file and resize it to the control block;
//! 2. take an exclusive advisory lock on a duplicate descriptor — an
//!    independent mechanism that only serializes the one-time
//!    initialization race;
//! 3. map the file read-write, shared;
//! 4. inspect the leading word of the mapped block; only if it is zero
//!    (the fresh zero-filled state), initialize the control block in place
//!    with process-shared, robust attributes;
//! 5. release the advisory lock and return the handle.
//!
//! The machine here decides every step of that sequence; an unverified
//! driver performs each returned [`OpenAction`] and answers with an
//! [`OpenEvent`]. The lemmas at the end state the discipline: the control
//! block is initialized only under the advisory lock, only when the
//! leading word shows the fresh state, and the lock is released before the
//! open completes.

use vstd::prelude::*;

use crate::errors::{MutexOp, ResourceOp, ShmError};

verus! {

/// Relies on `core::mem::size_of` applied to `nix::libc::pthread_mutex_t`:
/// the size of one robust-mutex control block, a real struct of nonzero
/// size on every supported platform.
#[verifier::external_body]
pub fn control_block_len() -> (r: usize)
    ensures
        r > 0,
{
    core::mem::size_of::<nix::libc::pthread_mutex_t>()
}

/// Where the open sequence stands: which answer it is waiting for.
#[derive(Debug, Clone, Copy, PartialEq, Eq, Structural)]
pub enum OpenPhase {
    /// Waiting for the backing file to be opened or created.
    Opening,
    /// Waiting for the backing file to be resized to the control block.
    Sizing,
    /// Waiting for the exclusive advisory lock on a duplicate descriptor.
    LockingInit,
    /// Waiting for the read-write shared mapping.
    Mapping,
    /// Waiting for the leading word of the mapped control block.
    Inspecting,
    /// Waiting for the in-place control-block initialization.
    Initializing,
    /// Waiting for the advisory lock to be released.
    Releasing,
    /// The open completed; the handle is usable.
    Ready,
    /// The open failed; terminal.
    Failed,
}

/// What the driver must do next.
#[derive(Debug, Clone, Copy, PartialEq, Eq, Structural)]
pub enum OpenAction {
    /// Open or create the backing file, read-write, owner-only permissions.
    OpenFile,
    /// Resize the backing file to exactly `len` bytes (idempotent).
    Resize { len: usize },
    /// Duplicate the descriptor and take an exclusive advisory lock on the
    /// duplicate.
    AcquireInitLock,
    /// Map `len` bytes of the backing file read-write, shared.
    MapRegion { len: usize },
    /// Read the leading word of the mapped control block.
    ReadLeadWord,
    /// Initialize the control block in place with process-shared, robust
    /// attributes, then release the attribute object.
    InitControlBlock,
    /// Release the advisory initialization lock.
    ReleaseInitLock,
    /// The open is complete; return the handle.
    Complete,
    /// The open failed with this error; clean up and return it.
    Abort { err: ShmError },
}

/// The driver's answer to the previous action.
#[derive(Debug, Clone, Copy, PartialEq, Eq, Structural)]
pub enum OpenEvent {
    /// The step succeeded.
    Done,
    /// The leading word of the mapped control block (answers
    /// [`OpenAction::ReadLeadWord`] only).
    Word { value: i32 },
    /// The step failed with this OS error code.
    Error { errno: i32 },
}

/// The open sequence of a named mutex, one decision at a time.
pub struct MutexOpener {
    /// Which answer the sequence is waiting for.
    pub phase: OpenPhase,
    /// The control-block size every resize and mapping uses.
    pub cb_len: usize,
}

/// The error that aborts the open when the step awaited in `phase` fails
/// with `errno`.
pub open spec fn spec_fail(phase: OpenPhase, errno: i32) -> ShmError {
    match phase {
        OpenPhase::Opening => ShmError::Resource { op: ResourceOp::Open, errno },
        OpenPhase::Sizing => ShmError::Resource { op: ResourceOp::Resize, errno },
        OpenPhase::LockingInit => ShmError::Resource { op: ResourceOp::AdvisoryLock, errno },
        OpenPhase::Mapping => ShmError::Resource { op: ResourceOp::MapFile, errno },
        OpenPhase::Initializing => ShmError::MutexProtocol {
            op: MutexOp::InitControlBlock,
            errno,
        },
        OpenPhase::Releasing => ShmError::Resource { op: ResourceOp::AdvisoryUnlock, errno },
        _ => ShmError::Resource { op: ResourceOp::Open, errno },
    }
}

/// One transition of the open sequence: from the phase that awaited an
/// answer and the answer itself, the next phase and the next action.
pub open spec fn spec_step(phase: OpenPhase, cb_len: usize, ev: OpenEvent) -> (OpenPhase, OpenAction) {
    match ev {
        OpenEvent::Error { errno } => (OpenPhase::Failed, OpenAction::Abort {
            err: spec_fail(phase, errno),
        }),
        OpenEvent::Word { value } => if !(phase is Inspecting) {
            // The leading word answers the inspection and nothing else.
            (OpenPhase::Failed, OpenAction::Abort { err: spec_fail(phase, 0) })
        } else if value == 0 {
            // Fresh zero-filled control block: this opener won the race and
            // must initialize it, still under the advisory lock.
            (OpenPhase::Initializing, OpenAction::InitControlBlock)
        } else {
            // Already initialized by an earlier opener: leave it untouched.
            (OpenPhase::Releasing, OpenAction::ReleaseInitLock)
        },
        OpenEvent::Done => match phase {
            OpenPhase::Opening => (OpenPhase::Sizing, OpenAction::Resize { len: cb_len }),
            OpenPhase::Sizing => (OpenPhase::LockingInit, OpenAction::AcquireInitLock),
            OpenPhase::LockingInit => (OpenPhase::Mapping, OpenAction::MapRegion { len: cb_len }),
            OpenPhase::Mapping => (OpenPhase::Inspecting, OpenAction::ReadLeadWord),
            OpenPhase::Initializing => (OpenPhase::Releasing, OpenAction::ReleaseInitLock),
            OpenPhase::Releasing => (OpenPhase::Ready, OpenAction::Complete),
            _ => (OpenPhase::Failed, OpenAction::Abort { err: spec_fail(phase, 0) }),
        },
    }
}

/// True in exactly the phases where the opener holds the advisory
/// initialization lock: from its acquisition until its release.
pub open spec fn holds_init_lock(phase: OpenPhase) -> bool {
    match phase {
        OpenPhase::Mapping | OpenPhase::Inspecting | OpenPhase::Initializing
            | OpenPhase::Releasing => true,
        _ => false,
    }
}

impl MutexOpener {
    /// The opener is between start and completion.
    pub open spec fn in_progress(self) -> bool {
        !(self.phase is Ready) && !(self.phase is Failed)
    }

    /// The answer `ev` is the kind the current phase awaits: the leading
    /// word answers the inspection and nothing else.
    pub open spec fn awaits(self, ev: OpenEvent) -> bool {
        if self.phase is Inspecting {
            ev is Word
        } else {
            ev is Done || ev is Error
        }
    }

    /// Begins the open sequence. The first action is to open or create the
    /// backing file; the control-block size is fetched from the platform.
    pub fn start() -> (r: (MutexOpener, OpenAction))
        ensures
            r.0.phase is Opening,
            r.0.cb_len > 0,
            r.0.in_progress(),
            r.1 is OpenFile,
    {
        let cb_len = control_block_len();
        (MutexOpener { phase: OpenPhase::Opening, cb_len }, OpenAction::OpenFile)
    }

    /// Advances the sequence by one answer and returns the next action,
    /// exactly as [`spec_step`] decides it.
    pub fn step(&mut self, ev: OpenEvent) -> (a: OpenAction)
        requires
            old(self).in_progress(),
            old(self).awaits(ev),
        ensures
            (final(self).phase, a) == spec_step(old(self).phase, old(self).cb_len, ev),
            final(self).cb_len == old(self).cb_len,
    {
        let (next, action): (OpenPhase, OpenAction) = match ev {
            OpenEvent::Error { errno } => {
                let err = match self.phase {
                    OpenPhase::Opening => ShmError::Resource { op: ResourceOp::Open, errno },
                    OpenPhase::Sizing => ShmError::Resource { op: ResourceOp::Resize, errno },
                    OpenPhase::LockingInit => ShmError::Resource {
                        op: ResourceOp::AdvisoryLock,
                        errno,
                    },
                    OpenPhase::Mapping => ShmError::Resource { op: ResourceOp::MapFile, errno },
                    OpenPhase::Initializing => ShmError::MutexProtocol {
                        op: MutexOp::InitControlBlock,
                        errno,
                    },
                    OpenPhase::Releasing => ShmError::Resource {
                        op: ResourceOp::AdvisoryUnlock,
                        errno,
                    },
                    _ => ShmError::Resource { op: ResourceOp::Open, errno },
                };
                (OpenPhase::Failed, OpenAction::Abort { err })
            },
            OpenEvent::Word { value } => if value == 0 {
                (OpenPhase::Initializing, OpenAction::InitControlBlock)
            } else {
                (OpenPhase::Releasing, OpenAction::ReleaseInitLock)
            },
            OpenEvent::Done => match self.phase {
                OpenPhase::Opening => (OpenPhase::Sizing, OpenAction::Resize { len: self.cb_len }),
                OpenPhase::Sizing => (OpenPhase::LockingInit, OpenAction::AcquireInitLock),
                OpenPhase::LockingInit => (OpenPhase::Mapping, OpenAction::MapRegion {
                    len: self.cb_len,
                }),
                OpenPhase::Mapping => (OpenPhase::Inspecting, OpenAction::ReadLeadWord),
                OpenPhase::Initializing => (OpenPhase::Releasing, OpenAction::ReleaseInitLock),
                OpenPhase::Releasing => (OpenPhase::Ready, OpenAction::Complete),
                _ => (OpenPhase::Failed, OpenAction::Abort {
                    err: ShmError::Resource { op: ResourceOp::Open, errno: 0 },
                }),
            },
        };
        self.phase = next;
        action
    }
}

/// The control block is initialized only while the advisory lock is held:
/// whenever the machine orders [`OpenAction::InitControlBlock`], the phase
/// it left and the phase it enters both hold the lock.
pub proof fn lemma_init_only_under_advisory_lock(
    phase: OpenPhase,
    cb_len: usize,
    ev: OpenEvent,
)
    ensures
        spec_step(phase, cb_len, ev).1 is InitControlBlock ==> holds_init_lock(phase)
            && holds_init_lock(spec_step(phase, cb_len, ev).0),
{
}

/// A control block that already looks initialized is never reinitialized:
/// [`OpenAction::InitControlBlock`] is ordered only on the answer that the
/// leading word is zero, the fresh zero-filled state.
pub proof fn lemma_no_reinit_when_initialized(phase: OpenPhase, cb_len: usize, ev: OpenEvent)
    ensures
        spec_step(phase, cb_len, ev).1 is InitControlBlock <==> phase is Inspecting && ev == (
        OpenEvent::Word { value: 0i32 }),
{
}

/// The leading word is inspected once per open: the machine orders
/// [`OpenAction::ReadLeadWord`] only on the successful answer to the
/// mapping, a phase no later transition re-enters — so together with
/// [`lemma_no_reinit_when_initialized`] the control block is initialized
/// at most once in any run of the sequence.
pub proof fn lemma_one_inspection(phase: OpenPhase, cb_len: usize, ev: OpenEvent)
    ensures
        spec_step(phase, cb_len, ev).1 is ReadLeadWord ==> phase is Mapping && ev is Done,
        !(spec_step(phase, cb_len, ev).0 is Mapping) || phase is LockingInit,
{
}

/// The open completes only after the advisory lock was released: the
/// machine orders [`OpenAction::Complete`] only on the successful answer to
/// the release.
pub proof fn lemma_release_before_complete(phase: OpenPhase, cb_len: usize, ev: OpenEvent)
    ensures
        spec_step(phase, cb_len, ev).1 is Complete ==> phase is Releasing && ev is Done,
{
}

} // verus!
