//! Taking a lock for a caller that must not wait inside the lock call.
//!
//! The waiting is done on a duplicate of the file's handle, by a worker that
//! has the time for it, and the outcome travels back to the caller. An
//! acquisition goes through these stages, and each step here takes it from
//! one to the next:
//!
//! - idle: nothing was done yet;
//! - handle duplicated, by `duplicate_handle`; where that fails the
//!   acquisition ends, and no worker is set to wait;
//! - dispatched: the worker runs `lock_through` on the duplicate;
//! - completed: `lock_through` has come to a token or to a failure;
//! - delivered, by `deliver_read` or one of its kin, where the caller is
//!   still there to take the lock over; or given up, by `abandon`, where the
//!   caller has gone away in the meantime.
//!
//! A lock that was taken thus ends in a guard or is given up; it is never
//! left behind.

use crate::error::{Error, LockError, LockReadResult, LockWriteResult};
use crate::owned_read_guard::OwnedRwLockReadGuard;
use crate::owned_write_guard::OwnedRwLockWriteGuard;
use crate::read_guard::RwLockReadGuard;
use crate::rw_lock::RwLockTrait;
use crate::sys::unix::{duplicate, lock_call_report, surfaces};
use crate::sys::{
    acquire_lock_from_file, acquisition_failure, holds_lock, token_for, AsOpenFile, RwLockGuard,
};
use crate::write_guard::RwLockWriteGuard;
use crate::ErrorKind;
use rustix::fd::OwnedFd;
use vstd::prelude::*;

verus! {

/// Makes the handle that the lock is waited for on. Where this fails nothing
/// was asked of the lock, and nobody needs to be set to wait.
pub fn duplicate_handle<T: AsOpenFile>(file: &T) -> (handle: Result<OwnedFd, Error>)
    ensures
        handle matches Err(error) ==> error.kind == ErrorKind::HandleDuplicationFailed,
{
    duplicate(file.borrow_open_file())
}

/// Takes the lock through `handle` and wraps the handle into the token for
/// the lock. Where the lock cannot be had the handle is closed.
pub fn lock_through<const WRITE: bool, const BLOCK: bool>(handle: OwnedFd) -> (outcome: Result<
    RwLockGuard,
    Error,
>)
    ensures
        outcome matches Ok(token) ==> token@ == Some(handle),
        outcome matches Err(error) ==> surfaces(BLOCK, error),
{
    let outcome = acquire_lock_from_file::<WRITE, BLOCK, OwnedFd>(&handle);
    token_for(handle, outcome)
}

/// Both steps in one go, for a caller that can wait after all.
pub fn lock<const WRITE: bool, const BLOCK: bool, T: AsOpenFile>(file: &T) -> (outcome: Result<
    RwLockGuard,
    Error,
>)
    ensures
        outcome is Ok ==> holds_lock(outcome),
        outcome matches Err(error) ==> acquisition_failure(BLOCK, error),
{
    let handle = duplicate_handle(file)?;
    lock_through::<WRITE, BLOCK>(handle)
}

/// Settles an outcome that nobody is there to receive. If the lock was taken
/// it is given up again, through the token, and the attempt is reported;
/// a failure is dropped.
pub fn abandon(outcome: Result<RwLockGuard, Error>) -> (attempt: Option<Result<(), Error>>)
    ensures
        attempt is Some <==> holds_lock(outcome),
        attempt matches Some(Err(error)) ==> lock_call_report(error),
{
    match outcome {
        Ok(token) => {
            let mut token = token;
            token.dispose()
        },
        Err(_) => None,
    }
}

/// Whatever `lock_through` comes to, the lock is answered for: an outcome
/// with the lock taken holds the lock, so abandoning it gives the lock up,
/// and an outcome without holds none, so abandoning it asks nothing of the
/// system.
pub proof fn lemma_abandoned_lock_is_given_up(
    handle: OwnedFd,
    outcome: Result<RwLockGuard, Error>,
    attempt: Option<Result<(), Error>>,
)
    requires
        outcome matches Ok(token) ==> token@ == Some(handle),
        attempt is Some <==> holds_lock(outcome),
    ensures
        outcome is Ok ==> attempt is Some,
        outcome is Err ==> attempt is None,
{
}

/// Hands the outcome to the caller who lent `file`: the guard of the shared
/// lock with the loan in it, or the failure.
pub fn lend_read<'a, T: AsOpenFile>(file: &'a T, outcome: Result<RwLockGuard, Error>) -> (delivered:
    Result<RwLockReadGuard<&'a T>, Error>)
    requires
        outcome is Ok ==> holds_lock(outcome),
    ensures
        outcome is Ok ==> (delivered matches Ok(guard) && guard@ == Some(file)),
        outcome matches Err(error) ==> (delivered matches Err(failure) && failure == error),
{
    match outcome {
        Ok(token) => Ok(RwLockReadGuard::new(file, token)),
        Err(error) => Err(error),
    }
}

/// Hands the outcome to the caller who lent `file` mutably: the guard of the
/// exclusive lock with the loan in it, or the failure. Where the guard is
/// handed out, the file ends as the guard leaves it; where it is not, the
/// file is as it was.
pub fn lend_write<'a, T: AsOpenFile>(file: &'a mut T, outcome: Result<RwLockGuard, Error>) -> (delivered:
    Result<RwLockWriteGuard<&'a mut T>, Error>)
    requires
        outcome is Ok ==> holds_lock(outcome),
    ensures
        outcome is Ok ==> (delivered matches Ok(guard) && guard@ is Some && *guard@->0 == *old(file)
            && *final(file) == *final(guard@->0)),
        outcome matches Err(error) ==> (delivered matches Err(failure) && failure == error
            && *final(file) == *old(file)),
{
    match outcome {
        Ok(token) => Ok(RwLockWriteGuard::new(file, token)),
        Err(error) => Err(error),
    }
}

/// Hands the outcome to the caller who gave `file` away by value: the guard
/// of the shared lock with the file in it, or the file back with the failure.
pub fn deliver_read<T: AsOpenFile>(file: T, outcome: Result<RwLockGuard, Error>) -> (delivered:
    LockReadResult<T>)
    requires
        outcome is Ok ==> holds_lock(outcome),
    ensures
        outcome is Ok ==> (delivered matches Ok(guard) && guard@ == Some(file)),
        outcome matches Err(error) ==> (delivered matches Err(failed) && failed.file == file
            && failed.error == error),
{
    match outcome {
        Ok(token) => Ok(RwLockReadGuard::new(file, token)),
        Err(error) => Err(LockError::new(file, error)),
    }
}

/// Hands the outcome to the caller who gave `file` away by value: the guard
/// of the exclusive lock with the file in it, or the file back with the
/// failure.
pub fn deliver_write<T: AsOpenFile>(file: T, outcome: Result<RwLockGuard, Error>) -> (delivered:
    LockWriteResult<T>)
    requires
        outcome is Ok ==> holds_lock(outcome),
    ensures
        outcome is Ok ==> (delivered matches Ok(guard) && guard@ == Some(file)),
        outcome matches Err(error) ==> (delivered matches Err(failed) && failed.file == file
            && failed.error == error),
{
    match outcome {
        Ok(token) => Ok(RwLockWriteGuard::new(file, token)),
        Err(error) => Err(LockError::new(file, error)),
    }
}

/// Hands the outcome to the caller who gave the lock object away: the owned
/// guard of the shared lock, or the lock object back with the failure.
pub fn deliver_read_owned<L: RwLockTrait>(lock: L, outcome: Result<RwLockGuard, Error>) -> (delivered:
    Result<OwnedRwLockReadGuard<L>, LockError<L>>)
    requires
        outcome is Ok ==> holds_lock(outcome),
    ensures
        outcome is Ok ==> (delivered matches Ok(guard) && guard@ == Some(lock)),
        outcome matches Err(error) ==> (delivered matches Err(failed) && failed.file == lock
            && failed.error == error),
{
    match outcome {
        Ok(token) => {
            let take_over = |_handle: OwnedFd| -> (guard: OwnedRwLockReadGuard<L>)
                ensures
                    guard@ == Some(lock),
                { OwnedRwLockReadGuard::new(lock) };
            Ok(token.defuse_with(take_over))
        },
        Err(error) => Err(LockError::new(lock, error)),
    }
}

/// Hands the outcome to the caller who gave the lock object away: the owned
/// guard of the exclusive lock, or the lock object back with the failure.
pub fn deliver_write_owned<L: RwLockTrait>(lock: L, outcome: Result<RwLockGuard, Error>) -> (delivered:
    Result<OwnedRwLockWriteGuard<L>, LockError<L>>)
    requires
        outcome is Ok ==> holds_lock(outcome),
    ensures
        outcome is Ok ==> (delivered matches Ok(guard) && guard@ == Some(lock)),
        outcome matches Err(error) ==> (delivered matches Err(failed) && failed.file == lock
            && failed.error == error),
{
    match outcome {
        Ok(token) => {
            let take_over = |_handle: OwnedFd| -> (guard: OwnedRwLockWriteGuard<L>)
                ensures
                    guard@ == Some(lock),
                { OwnedRwLockWriteGuard::new(lock) };
            Ok(token.defuse_with(take_over))
        },
        Err(error) => Err(LockError::new(lock, error)),
    }
}

} // verus!
