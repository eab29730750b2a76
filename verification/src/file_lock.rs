//! The lock around a file that hands out guards on loan.

use crate::error::Error;
use crate::nonblocking::{lend_read, lend_write};
use crate::read_guard::RwLockReadGuard;
use crate::sys::{acquire_lock_blocking, acquisition_failure, AsOpenFile};
use crate::write_guard::RwLockWriteGuard;
use vstd::prelude::*;

verus! {

/// Advisory reader-writer lock for files.
///
/// This type of lock allows a number of readers or at most one writer at any
/// point in time. The write portion of this lock typically allows
/// modification of the underlying data (exclusive access) and the read
/// portion of this lock typically allows for read-only access (shared
/// access).
#[derive(Debug)]
pub struct FileLock<T: AsOpenFile> {
    inner: T,
}

impl<T: AsOpenFile> View for FileLock<T> {
    type V = T;

    /// The file inside the lock.
    closed spec fn view(&self) -> T {
        self.inner
    }
}

impl<T: AsOpenFile> FileLock<T> {
    /// Create a new instance.
    pub fn new(inner: T) -> (lock: Self)
        ensures
            lock@ == inner,
    {
        Self { inner }
    }

    /// Locks this lock with shared read access, blocking the current thread
    /// until it can be acquired.
    ///
    /// The calling thread will be blocked until there are no more writers
    /// which hold the lock. There may be other readers currently inside the
    /// lock when this method returns. This method does not provide any
    /// guarantees with respect to the ordering of whether contentious readers
    /// or writers will acquire the lock first.
    ///
    /// Returns a guard through which the shared access is given up again.
    pub fn read(&self) -> (outcome: Result<RwLockReadGuard<&T>, Error>)
        ensures
            outcome matches Ok(guard) ==> guard@ == Some(&self@),
            outcome matches Err(error) ==> acquisition_failure(true, error),
    {
        let guard = acquire_lock_blocking::<false, true, T>(&self.inner);
        lend_read(&self.inner, guard)
    }

    /// Attempts to acquire this lock with shared read access.
    ///
    /// If the access could not be granted at this time, then `Err` is
    /// returned. Otherwise, a guard is returned through which the shared
    /// access is given up again.
    ///
    /// This function does not block: where the lock is held exclusive through
    /// another handle, the failure is of the class `WouldBlock`.
    pub fn try_read(&self) -> (outcome: Result<RwLockReadGuard<&T>, Error>)
        ensures
            outcome matches Ok(guard) ==> guard@ == Some(&self@),
            outcome matches Err(error) ==> acquisition_failure(false, error),
    {
        let guard = acquire_lock_blocking::<false, false, T>(&self.inner);
        lend_read(&self.inner, guard)
    }

    /// Locks this lock with exclusive write access, blocking the current
    /// thread until it can be acquired.
    ///
    /// This function will not return while other writers or other readers
    /// currently have access to the lock.
    ///
    /// Returns a guard through which the write access is given up again. The
    /// guard borrows the file mutably: the file ends as the guard leaves it.
    pub fn write(&mut self) -> (outcome: Result<RwLockWriteGuard<&mut T>, Error>)
        ensures
            outcome matches Ok(guard) ==> guard@ is Some && *guard@->0 == old(self)@
                && final(self)@ == *final(guard@->0),
            outcome matches Err(error) ==> final(self)@ == old(self)@ && acquisition_failure(
                true,
                error,
            ),
    {
        let guard = acquire_lock_blocking::<true, true, T>(&self.inner);
        lend_write(&mut self.inner, guard)
    }

    /// Attempts to lock this lock with exclusive write access.
    ///
    /// If the lock could not be acquired at this time, then `Err` is
    /// returned. Otherwise, a guard is returned through which the write
    /// access is given up again.
    ///
    /// This function does not block: where the lock is held through another
    /// handle, shared or exclusive, the failure is of the class `WouldBlock`.
    pub fn try_write(&mut self) -> (outcome: Result<RwLockWriteGuard<&mut T>, Error>)
        ensures
            outcome matches Ok(guard) ==> guard@ is Some && *guard@->0 == old(self)@
                && final(self)@ == *final(guard@->0),
            outcome matches Err(error) ==> final(self)@ == old(self)@ && acquisition_failure(
                false,
                error,
            ),
    {
        let guard = acquire_lock_blocking::<true, false, T>(&self.inner);
        lend_write(&mut self.inner, guard)
    }

    /// Consumes this `FileLock`, returning the underlying data.
    pub fn into_inner(self) -> (file: T)
        ensures
            file == self@,
    {
        self.inner
    }
}

} // verus!
