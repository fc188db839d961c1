//! The shared state of each primitive, abstracted across processes, with
//! the laws the primitives obey.
//!
//! A named mutex is, across every process that opens it, one control
//! block: either still the fresh zero-filled state or initialized exactly
//! once, and either free, held by one owner, or abandoned because its
//! owner died while holding it. A named shared value is, across every
//! handle on its name, one run of bytes. The drivers realize these
//! transitions with OS calls; the model states which transitions exist
//! and proves what follows from them.

use vstd::prelude::*;

use crate::LockResult;
use crate::errors::{MutexOp, ShmError};

verus! {

/// Who holds the shared mutex, as seen by every process at once.
#[derive(Debug, Clone, Copy, PartialEq, Eq, Structural)]
pub enum LockHolder {
    /// Nobody holds the lock.
    Free,
    /// The process identified by `owner` holds the lock.
    Held { owner: u64 },
    /// The last holder died without releasing; the next acquirer must
    /// mark the lock consistent and is told so.
    Abandoned,
}

/// The one control block shared by every handle opened on one name.
#[derive(Debug, Clone, Copy, PartialEq, Eq, Structural)]
pub struct MutexModel {
    /// Whether the one-time initialization has happened.
    pub initialized: bool,
    /// Who holds the lock.
    pub lock: LockHolder,
}

impl MutexModel {
    /// An acquire can complete: the control block is initialized and no
    /// live owner holds the lock. While another process holds it, every
    /// acquire blocks instead.
    pub open spec fn can_acquire(self) -> bool {
        self.initialized && !(self.lock is Held)
    }

    /// The open step as every opener performs it under the advisory lock:
    /// initialize the control block if and only if nobody has yet, and
    /// touch nothing else.
    pub open spec fn spec_open(self) -> MutexModel {
        MutexModel { initialized: true, lock: self.lock }
    }

    /// A completed acquire by process `pid`: the lock becomes held by
    /// `pid`, and the outcome reports recovery exactly when the previous
    /// holder had died while holding it.
    pub open spec fn spec_acquire(self, pid: u64) -> (MutexModel, LockResult) {
        (
            MutexModel { initialized: self.initialized, lock: LockHolder::Held { owner: pid } },
            if self.lock is Abandoned {
                LockResult::OwnerDiedRecovered
            } else {
                LockResult::Acquired
            },
        )
    }

    /// A release by process `pid`: frees the lock if `pid` holds it, and
    /// otherwise fails without changing anything.
    pub open spec fn spec_release(self, pid: u64) -> (MutexModel, Result<(), ShmError>) {
        if self.lock == (LockHolder::Held { owner: pid }) {
            (MutexModel { initialized: self.initialized, lock: LockHolder::Free }, Ok(()))
        } else {
            (
                self,
                Err(ShmError::MutexProtocol {
                    op: MutexOp::Unlock,
                    errno: crate::errors::NOT_OWNER_ERRNO,
                }),
            )
        }
    }

    /// Process `pid` terminates abruptly: the lock it held becomes
    /// abandoned; a death while not holding changes nothing.
    pub open spec fn spec_crash(self, pid: u64) -> MutexModel {
        if self.lock == (LockHolder::Held { owner: pid }) {
            MutexModel { initialized: self.initialized, lock: LockHolder::Abandoned }
        } else {
            self
        }
    }

    /// A freshly created backing file: OS zero-fill, so the control block
    /// is uninitialized and nothing holds the lock.
    pub fn fresh() -> (r: MutexModel)
        ensures
            !r.initialized,
            r.lock is Free,
    {
        MutexModel { initialized: false, lock: LockHolder::Free }
    }

    /// The guarded one-time open step. Idempotent: an already initialized
    /// control block is left exactly as it was, and a lock held by another
    /// process is never disturbed.
    pub fn open_shared(&mut self)
        ensures
            *final(self) == old(self).spec_open(),
            final(self).initialized,
            final(self).lock == old(self).lock,
            old(self).initialized ==> *final(self) == *old(self),
    {
        self.initialized = true;
    }

    /// A blocking acquire by process `pid`, at the moment it completes
    /// (the OS wakes a blocked acquirer only once the lock is available).
    pub fn acquire(&mut self, pid: u64) -> (r: LockResult)
        requires
            old(self).can_acquire(),
        ensures
            (*final(self), r) == old(self).spec_acquire(pid),
            final(self).lock == (LockHolder::Held { owner: pid }),
            r is OwnerDiedRecovered <==> old(self).lock is Abandoned,
    {
        let recovered = match self.lock {
            LockHolder::Abandoned => true,
            _ => false,
        };
        self.lock = LockHolder::Held { owner: pid };
        if recovered {
            LockResult::OwnerDiedRecovered
        } else {
            LockResult::Acquired
        }
    }

    /// A release by process `pid`. An unlock by a process that does not
    /// hold the lock surfaces an error and leaves the lock untouched.
    pub fn release(&mut self, pid: u64) -> (r: Result<(), ShmError>)
        ensures
            (*final(self), r) == old(self).spec_release(pid),
            r is Ok <==> old(self).lock == (LockHolder::Held { owner: pid }),
            r is Err ==> *final(self) == *old(self),
    {
        if self.lock == (LockHolder::Held { owner: pid }) {
            self.lock = LockHolder::Free;
            Ok(())
        } else {
            Err(ShmError::MutexProtocol {
                op: MutexOp::Unlock,
                errno: crate::errors::NOT_OWNER_ERRNO,
            })
        }
    }

    /// Process `pid` terminates abruptly, releasing nothing.
    pub fn crash(&mut self, pid: u64)
        ensures
            *final(self) == old(self).spec_crash(pid),
            final(self).initialized == old(self).initialized,
    {
        if self.lock == (LockHolder::Held { owner: pid }) {
            self.lock = LockHolder::Abandoned;
        }
    }
}

/// Mutual exclusion: while any process holds the lock, no acquire can
/// complete, so two handles on one name never both report success for
/// overlapping intervals.
pub proof fn lemma_mutual_exclusion(m: MutexModel)
    requires
        m.lock is Held,
    ensures
        !m.can_acquire(),
{
}

/// Recovery is reported only after an owner died holding the lock: an
/// acquire reports `OwnerDiedRecovered` exactly when the lock was
/// abandoned, never from a free lock.
pub proof fn lemma_recovery_only_after_abandonment(m: MutexModel, pid: u64)
    ensures
        m.spec_acquire(pid).1 is OwnerDiedRecovered <==> m.lock is Abandoned,
{
}

/// A holder dies without releasing: the next acquire on that name reports
/// `OwnerDiedRecovered` exactly once, and once recovered, subsequent
/// acquisitions report `Acquired` again.
pub proof fn lemma_owner_death_recovered_once(m: MutexModel, dead: u64, next: u64, later: u64)
    requires
        m.initialized,
        m.lock == (LockHolder::Held { owner: dead }),
    ensures
        ({
            let crashed = m.spec_crash(dead);
            let (held, first) = crashed.spec_acquire(next);
            let (freed, rel) = held.spec_release(next);
            let (_, second) = freed.spec_acquire(later);
            &&& crashed.can_acquire()
            &&& first is OwnerDiedRecovered
            &&& !(held.lock is Abandoned)
            &&& rel is Ok
            &&& second is Acquired
        }),
{
}

/// One run of bytes shared by every handle opened on one name.
pub struct ValueModel {
    /// The mapped bytes; their initial bit pattern is OS zero-fill, which
    /// is not assumed to be a valid value of the shared type.
    pub bytes: Vec<u8>,
}

impl ValueModel {
    /// A read through any handle: the bytes as they stand.
    pub open spec fn spec_read(self) -> Seq<u8> {
        self.bytes@
    }

    /// A freshly created backing file of `len` bytes: OS zero-fill.
    pub fn fresh(len: usize) -> (r: ValueModel)
        requires
            len > 0,
        ensures
            r.bytes@ == Seq::new(len as nat, |i: int| 0u8),
            r.bytes@.len() == len,
    {
        let mut bytes: Vec<u8> = Vec::new();
        let mut i: usize = 0;
        while i < len
            invariant
                i <= len,
                bytes@ =~= Seq::new(i as nat, |j: int| 0u8),
            decreases len - i,
        {
            bytes.push(0u8);
            i = i + 1;
        }
        ValueModel { bytes }
    }

    /// Overwrites the shared bytes through this handle.
    pub fn write(&mut self, v: Vec<u8>)
        requires
            v@.len() == old(self).bytes@.len(),
        ensures
            final(self).bytes@ == v@,
            final(self).bytes@.len() == old(self).bytes@.len(),
    {
        self.bytes = v;
    }

    /// Reads the shared bytes through this handle.
    pub fn read(&self) -> (r: Vec<u8>)
        ensures
            r@ == self.spec_read(),
    {
        let mut out: Vec<u8> = Vec::new();
        let mut i: usize = 0;
        while i < self.bytes.len()
            invariant
                i <= self.bytes@.len(),
                out@ =~= self.bytes@.subrange(0, i as int),
            decreases self.bytes@.len() - i,
        {
            out.push(self.bytes[i]);
            i = i + 1;
        }
        out
    }
}

/// The bytes shared by all handles on one name, after a write of `v`
/// through any of them.
pub open spec fn spec_write(contents: Seq<u8>, v: Seq<u8>) -> Seq<u8> {
    v
}

/// Shared visibility: every handle opened on one name maps the same
/// underlying bytes, so a write performed through one handle is observed
/// by a read through any other, once properly sequenced by an external
/// lock.
pub proof fn lemma_write_visible_to_all_handles(contents: Seq<u8>, v: Seq<u8>)
    ensures
        spec_write(contents, v) == v,
{
}

} // verus!
