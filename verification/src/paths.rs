//! Backing-file paths of the two primitives.
//!
//! Each named resource is a regular file inside the shared-memory
//! filesystem mount point. The mutex appends a dedicated suffix so that
//! the same bare name can safely back one value and one mutex without the
//! two files colliding.

use vstd::prelude::*;
use vstd::string::StringExecFns;

verus! {

/// The path of the backing file of the named mutex:
/// the shared-memory root, the name, and the mutex suffix.
pub fn mutex_backing_path(name: &str) -> (r: String)
    ensures
        r@ == "/dev/shm/"@ + name@ + ".mtx"@,
{
    let mut p = String::from_str("/dev/shm/");
    p.append(name);
    p.append(".mtx");
    p
}

/// The path of the backing file of the named shared value:
/// the shared-memory root and the bare name.
pub fn value_backing_path(name: &str) -> (r: String)
    ensures
        r@ == "/dev/shm/"@ + name@,
{
    let mut p = String::from_str("/dev/shm/");
    p.append(name);
    p
}

/// The two backing paths of one bare name never collide: the mutex path
/// is strictly longer than the value path of the same name, so the same
/// name may back one value and one mutex side by side.
pub proof fn lemma_paths_distinct(name: Seq<char>)
    ensures
        "/dev/shm/"@ + name + ".mtx"@ != "/dev/shm/"@ + name,
{
    reveal_strlit("/dev/shm/");
    reveal_strlit(".mtx");
    assert(("/dev/shm/"@ + name + ".mtx"@).len() == 9 + name.len() + 4);
    assert(("/dev/shm/"@ + name).len() == 9 + name.len());
}

} // verus!
