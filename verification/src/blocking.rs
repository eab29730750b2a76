//! Locking a file that is handed over by value, for callers that wait in
//! the call.

use crate::error::{LockReadResult, LockWriteResult};
use crate::nonblocking::{deliver_read, deliver_write};
use crate::sys::{acquire_lock_blocking, acquisition_failure, AsOpenFile};
use vstd::prelude::*;

verus! {

/// Taking a shared lock on a file itself. The file goes into the guard; where
/// the lock cannot be had, the file comes back with the failure.
pub trait LockRead: AsOpenFile + Sized {
    /// Takes a shared lock, waiting until no other handle holds the lock
    /// exclusive.
    fn lock_read(self) -> (outcome: LockReadResult<Self>)
        ensures
            outcome matches Ok(guard) ==> guard@ == Some(self),
            outcome matches Err(failed) ==> failed.file == self && acquisition_failure(
                true,
                failed.error,
            ),
    ;

    /// Takes a shared lock if it can be had at once, and fails with
    /// `WouldBlock` if it cannot.
    fn try_lock_read(self) -> (outcome: LockReadResult<Self>)
        ensures
            outcome matches Ok(guard) ==> guard@ == Some(self),
            outcome matches Err(failed) ==> failed.file == self && acquisition_failure(
                false,
                failed.error,
            ),
    ;
}

/// Taking an exclusive lock on a file itself. The file goes into the guard;
/// where the lock cannot be had, the file comes back with the failure.
pub trait LockWrite: AsOpenFile + Sized {
    /// Takes an exclusive lock, waiting until no other handle holds the lock.
    fn lock_write(self) -> (outcome: LockWriteResult<Self>)
        ensures
            outcome matches Ok(guard) ==> guard@ == Some(self),
            outcome matches Err(failed) ==> failed.file == self && acquisition_failure(
                true,
                failed.error,
            ),
    ;

    /// Takes an exclusive lock if it can be had at once, and fails with
    /// `WouldBlock` if it cannot.
    fn try_lock_write(self) -> (outcome: LockWriteResult<Self>)
        ensures
            outcome matches Ok(guard) ==> guard@ == Some(self),
            outcome matches Err(failed) ==> failed.file == self && acquisition_failure(
                false,
                failed.error,
            ),
    ;
}

impl<T: AsOpenFile> LockRead for T {
    fn lock_read(self) -> (outcome: LockReadResult<Self>) {
        let guard = acquire_lock_blocking::<false, true, T>(&self);
        deliver_read(self, guard)
    }

    fn try_lock_read(self) -> (outcome: LockReadResult<Self>) {
        let guard = acquire_lock_blocking::<false, false, T>(&self);
        deliver_read(self, guard)
    }
}

impl<T: AsOpenFile> LockWrite for T {
    fn lock_write(self) -> (outcome: LockWriteResult<Self>) {
        let guard = acquire_lock_blocking::<true, true, T>(&self);
        deliver_write(self, guard)
    }

    fn try_lock_write(self) -> (outcome: LockWriteResult<Self>) {
        let guard = acquire_lock_blocking::<true, false, T>(&self);
        deliver_write(self, guard)
    }
}

} // verus!
