//! Cross-process coordination over named shared memory.
//!
//! Two primitives, composed by callers under related names:
//! a robust, process-shared mutex backed by a control block in a named
//! shared-memory file, and a fixed-size typed value mapped read-write into
//! every process that opens it.
//!
//! The operating-system calls themselves (open, resize, map, the pthread
//! robust-mutex calls) are performed by an unverified driver outside this
//! crate. This crate holds everything that can be decided from plain values:
//! the open sequences as explicit state machines, the classification of the
//! codes those calls return, the backing-path derivation, and an abstract
//! model of the shared state with the laws the primitives obey.

use vstd::prelude::*;

pub mod errors;
pub mod model;
pub mod mutex;
pub mod mutex_open;
pub mod paths;
pub mod value_open;

verus! {

/// The result of acquiring the process-shared mutex.
#[derive(Debug, Clone, Copy, PartialEq, Eq, Structural)]
pub enum LockResult {
    /// Mutex acquired normally without prior owner death.
    Acquired,
    /// Mutex acquired after recovering from a previous owner's death.
    OwnerDiedRecovered,
}

} // verus!
