//! The open sequence of the named shared value, as an explicit state
//! machine.
//!
//! Opening maps one fixed-size value into shared memory: open-or-create
//! the backing file, resize it to exactly the value's size, map it
//! read-write, shared. A zero-sized value is rejected eagerly, before any
//! OS work. The contents of the mapping are not initialized here: a fresh
//! file reads as OS zero-fill, which is an untrusted bit pattern the
//! caller must validate.
//!
//! As with the mutex, an unverified driver performs each returned
//! [`ValueAction`] and answers with a [`ValueEvent`].

use vstd::prelude::*;

use crate::errors::{ResourceOp, ShmError};

verus! {

/// Where the value-open sequence stands: which answer it is waiting for.
#[derive(Debug, Clone, Copy, PartialEq, Eq, Structural)]
pub enum ValuePhase {
    /// Waiting for the backing file to be opened or created.
    Opening,
    /// Waiting for the backing file to be resized to the value's size.
    Sizing,
    /// Waiting for the read-write shared mapping.
    Mapping,
    /// The open completed; the handle is usable.
    Ready,
    /// The open failed; terminal.
    Failed,
}

/// What the driver must do next.
#[derive(Debug, Clone, Copy, PartialEq, Eq, Structural)]
pub enum ValueAction {
    /// Open or create the backing file, read-write, owner-only permissions.
    OpenFile,
    /// Resize the backing file to exactly `len` bytes (idempotent).
    Resize { len: usize },
    /// Map `len` bytes of the backing file read-write, shared.
    MapRegion { len: usize },
    /// The open is complete; return the handle.
    Complete,
    /// The open failed with this error; clean up and return it.
    Abort { err: ShmError },
}

/// The driver's answer to the previous action.
#[derive(Debug, Clone, Copy, PartialEq, Eq, Structural)]
pub enum ValueEvent {
    /// The step succeeded.
    Done,
    /// The step failed with this OS error code.
    Error { errno: i32 },
}

/// The open sequence of a named shared value, one decision at a time.
pub struct ValueOpener {
    /// Which answer the sequence is waiting for.
    pub phase: ValuePhase,
    /// The value size every resize and mapping uses; never zero.
    pub len: usize,
}

/// The error that aborts the open when the step awaited in `phase` fails
/// with `errno`.
pub open spec fn spec_value_fail(phase: ValuePhase, errno: i32) -> ShmError {
    match phase {
        ValuePhase::Opening => ShmError::Resource { op: ResourceOp::Open, errno },
        ValuePhase::Sizing => ShmError::Resource { op: ResourceOp::Resize, errno },
        _ => ShmError::Resource { op: ResourceOp::MapFile, errno },
    }
}

/// One transition of the value-open sequence.
pub open spec fn spec_value_step(phase: ValuePhase, len: usize, ev: ValueEvent) -> (
    ValuePhase,
    ValueAction,
) {
    match ev {
        ValueEvent::Error { errno } => (ValuePhase::Failed, ValueAction::Abort {
            err: spec_value_fail(phase, errno),
        }),
        ValueEvent::Done => match phase {
            ValuePhase::Opening => (ValuePhase::Sizing, ValueAction::Resize { len }),
            ValuePhase::Sizing => (ValuePhase::Mapping, ValueAction::MapRegion { len }),
            ValuePhase::Mapping => (ValuePhase::Ready, ValueAction::Complete),
            _ => (ValuePhase::Failed, ValueAction::Abort { err: spec_value_fail(phase, 0) }),
        },
    }
}

impl ValueOpener {
    /// The opener is between start and completion.
    pub open spec fn in_progress(self) -> bool {
        !(self.phase is Ready) && !(self.phase is Failed)
    }

    /// Begins the open sequence for a value of `len` bytes, the in-memory
    /// size of the shared type. A zero-sized type is rejected here, always
    /// and before any OS work; a nonzero size always starts the sequence.
    pub fn start(len: usize) -> (r: Result<(ValueOpener, ValueAction), ShmError>)
        ensures
            len == 0 <==> r is Err,
            len == 0 ==> r == Err::<(ValueOpener, ValueAction), ShmError>(
                ShmError::ZeroSizedValue,
            ),
            r matches Ok(p) ==> p.0.phase is Opening && p.0.len == len && p.0.in_progress()
                && p.1 is OpenFile,
    {
        if len == 0 {
            Err(ShmError::ZeroSizedValue)
        } else {
            Ok((ValueOpener { phase: ValuePhase::Opening, len }, ValueAction::OpenFile))
        }
    }

    /// Advances the sequence by one answer and returns the next action,
    /// exactly as [`spec_value_step`] decides it.
    pub fn step(&mut self, ev: ValueEvent) -> (a: ValueAction)
        requires
            old(self).in_progress(),
        ensures
            (final(self).phase, a) == spec_value_step(old(self).phase, old(self).len, ev),
            final(self).len == old(self).len,
    {
        let (next, action): (ValuePhase, ValueAction) = match ev {
            ValueEvent::Error { errno } => {
                let err = match self.phase {
                    ValuePhase::Opening => ShmError::Resource { op: ResourceOp::Open, errno },
                    ValuePhase::Sizing => ShmError::Resource { op: ResourceOp::Resize, errno },
                    _ => ShmError::Resource { op: ResourceOp::MapFile, errno },
                };
                (ValuePhase::Failed, ValueAction::Abort { err })
            },
            ValueEvent::Done => match self.phase {
                ValuePhase::Opening => (ValuePhase::Sizing, ValueAction::Resize { len: self.len }),
                ValuePhase::Sizing => (ValuePhase::Mapping, ValueAction::MapRegion {
                    len: self.len,
                }),
                ValuePhase::Mapping => (ValuePhase::Ready, ValueAction::Complete),
                _ => (ValuePhase::Failed, ValueAction::Abort {
                    err: ShmError::Resource { op: ResourceOp::MapFile, errno: 0 },
                }),
            },
        };
        self.phase = next;
        action
    }
}

} // verus!
