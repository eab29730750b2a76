//! The lock call of Windows, as far as it can be decided without making it:
//! the flags that the call is made with, and what its failure means.

use crate::error::{Error, ErrorKind};
use vstd::prelude::*;

verus! {

/// `LOCKFILE_EXCLUSIVE_LOCK` of `windows_sys`: the flag that asks for an
/// exclusive lock, 2.
#[verifier::external_body]
fn lockfile_exclusive_lock() -> (flag: u32)
    ensures
        flag == 2,
{
    windows_sys::Win32::Storage::FileSystem::LOCKFILE_EXCLUSIVE_LOCK
}

/// `LOCKFILE_FAIL_IMMEDIATELY` of `windows_sys`: the flag that asks not to
/// wait, 1.
#[verifier::external_body]
fn lockfile_fail_immediately() -> (flag: u32)
    ensures
        flag == 1,
{
    windows_sys::Win32::Storage::FileSystem::LOCKFILE_FAIL_IMMEDIATELY
}

/// `ERROR_LOCK_VIOLATION` of `windows_sys`: the code with which the system
/// reports that the lock is held, 33.
#[verifier::external_body]
fn error_lock_violation() -> (code: u32)
    ensures
        code == 33,
{
    windows_sys::Win32::Foundation::ERROR_LOCK_VIOLATION
}

/// The flags of the call that takes the lock: the exclusive flag for a
/// writer, and the flag not to wait unless `block` is set.
pub open spec fn flags_for(write: bool, block: bool) -> u32 {
    match (write, block) {
        (false, true) => 0,
        (false, false) => 1,
        (true, true) => 2,
        (true, false) => 3,
    }
}

/// Computes the flags of the call that takes the lock.
pub fn lock_flags<const WRITE: bool, const BLOCK: bool>() -> (flags: u32)
    ensures
        flags == flags_for(WRITE, BLOCK),
{
    let exclusive: u32 = if WRITE {
        lockfile_exclusive_lock()
    } else {
        0
    };
    let immediate: u32 = if BLOCK {
        0
    } else {
        lockfile_fail_immediately()
    };
    assert(0u32 | 0u32 == 0u32 && 0u32 | 1u32 == 1u32 && 2u32 | 0u32 == 2u32 && 2u32 | 1u32 == 3u32)
        by (bit_vector);
    exclusive | immediate
}

/// The flags for a request ask for what was requested: the exclusive flag, 2,
/// is set exactly for a writer, and the flag not to wait, 1, exactly for a
/// request that is not to wait.
pub proof fn lemma_flags_ask_what_was_requested(write: bool, block: bool)
    ensures
        flags_for(write, block) & 2 == 2 <==> write,
        flags_for(write, block) & 1 == 1 <==> !block,
{
    assert(0u32 & 2 == 0 && 1u32 & 2 == 0 && 2u32 & 2 == 2 && 3u32 & 2 == 2) by (bit_vector);
    assert(0u32 & 1 == 0 && 1u32 & 1 == 1 && 2u32 & 1 == 0 && 3u32 & 1 == 1) by (bit_vector);
}

/// Each choice of reader or writer, waiting or not, has flags of its own.
pub proof fn lemma_flags_are_one_of_four(write: bool, block: bool, other_write: bool, other_block: bool)
    ensures
        flags_for(write, block) == flags_for(other_write, other_block) <==> write == other_write
            && block == other_block,
{
}

/// The failure that the caller gets for the failure `error` of the lock
/// call. A request that does not wait hears of a held lock as `WouldBlock`
/// where the system reports a lock violation; everything else stays as it is.
pub open spec fn reclassified(block: bool, error: Error) -> Error {
    if !block && error.code == Some(33i32) {
        Error { kind: ErrorKind::WouldBlock, code: None }
    } else {
        error
    }
}

/// Brings the failure of the lock call into the form that the caller gets.
pub fn reclassify(block: bool, error: Error) -> (surfaced: Error)
    ensures
        surfaced == reclassified(block, error),
{
    if block {
        error
    } else {
        match error.code {
            Some(code) => {
                if code >= 0 && code as u32 == error_lock_violation() {
                    Error::from_kind(ErrorKind::WouldBlock)
                } else {
                    error
                }
            },
            None => error,
        }
    }
}

/// Turns the outcome of the lock call into the outcome of the attempt.
pub fn settle(block: bool, outcome: Result<(), Error>) -> (settled: Result<(), Error>)
    ensures
        outcome is Ok ==> settled is Ok,
        outcome matches Err(error) ==> (settled matches Err(surfaced) && surfaced == reclassified(
            block,
            error,
        )),
{
    match outcome {
        Ok(()) => Ok(()),
        Err(error) => Err(reclassify(block, error)),
    }
}

/// A request that does not wait hears of a lock violation as `WouldBlock`;
/// any other failure keeps its class.
pub proof fn lemma_contention_is_would_block(error: Error)
    ensures
        reclassified(false, error).kind == ErrorKind::WouldBlock <==> error.kind
            == ErrorKind::WouldBlock || error.code == Some(33i32),
{
}

/// Reclassifying twice changes nothing more.
pub proof fn lemma_reclassified_is_final(block: bool, error: Error)
    ensures
        reclassified(block, reclassified(block, error)) == reclassified(block, error),
{
}

} // verus!
