//! The lock around a file, for callers that wait in the call.

use crate::error::{Error, LockError};
use crate::nonblocking::{deliver_read_owned, deliver_write_owned, lend_read, lend_write, lock};
use crate::owned_read_guard::OwnedRwLockReadGuard;
use crate::owned_write_guard::OwnedRwLockWriteGuard;
use crate::read_guard::RwLockReadGuard;
use crate::rw_lock::RwLockTrait;
use crate::sys::{acquisition_failure, holds_lock, release_lock_blocking, AsOpenFile, RwLockGuard};
use crate::write_guard::RwLockWriteGuard;
use rustix::fd::BorrowedFd;
use vstd::prelude::*;

verus! {

/// Advisory reader-writer lock for files.
///
/// This type of lock allows a number of readers or at most one writer at any
/// point in time. The write portion of this lock typically allows
/// modification of the underlying data (exclusive access) and the read
/// portion of this lock typically allows for read-only access (shared
/// access).
#[derive(Debug)]
pub struct RwLock<T: AsOpenFile> {
    inner: T,
}

impl<T: AsOpenFile> View for RwLock<T> {
    type V = T;

    /// The file inside the lock.
    closed spec fn view(&self) -> T {
        self.inner
    }
}

impl<T: AsOpenFile> AsOpenFile for RwLock<T> {
    /// The lock lends the handle of the file inside it.
    open spec fn open_file(&self) -> BorrowedFd<'_> {
        self@.open_file()
    }

    fn borrow_open_file(&self) -> (fd: BorrowedFd<'_>) {
        self.inner.borrow_open_file()
    }
}

impl<T: AsOpenFile> std::ops::Deref for RwLock<T> {
    type Target = T;

    fn deref(&self) -> (file: &T)
        ensures
            *file == self@,
    {
        &self.inner
    }
}

impl<T: AsOpenFile> RwLockTrait for RwLock<T> {
    type AsOpenFile = T;

    fn into_inner(self) -> (file: T)
        ensures
            file == self@,
    {
        self.inner
    }

    fn release_lock(&self) -> (outcome: Result<(), Error>) {
        release_lock_blocking(&self.inner)
    }
}

impl<T: AsOpenFile> RwLock<T> {
    /// Create a new instance.
    pub fn new(inner: T) -> (lock: Self)
        ensures
            lock@ == inner,
    {
        Self { inner }
    }

    /// Takes the lock on the file through a handle of its own and hands out
    /// the token for it.
    pub fn lock<const WRITE: bool, const BLOCK: bool>(&self) -> (outcome: Result<RwLockGuard, Error>)
        ensures
            outcome is Ok ==> holds_lock(outcome),
            outcome matches Err(error) ==> acquisition_failure(BLOCK, error),
    {
        lock::<WRITE, BLOCK, T>(&self.inner)
    }

    /// Hands the outcome of `lock` to the caller of a shared acquisition:
    /// the guard with the file on loan in it, or the failure.
    pub fn deliver_read(&self, outcome: Result<RwLockGuard, Error>) -> (delivered: Result<
        RwLockReadGuard<&T>,
        Error,
    >)
        requires
            outcome is Ok ==> holds_lock(outcome),
        ensures
            outcome is Ok ==> (delivered matches Ok(guard) && guard@ == Some(&self@)),
            outcome matches Err(error) ==> (delivered matches Err(failure) && failure == error),
    {
        lend_read(&self.inner, outcome)
    }

    /// Hands the outcome of `lock` to the caller of an exclusive acquisition:
    /// the guard with the file on mutable loan in it, or the failure. Where
    /// the guard is handed out, the file ends as the guard leaves it.
    pub fn deliver_write(&mut self, outcome: Result<RwLockGuard, Error>) -> (delivered: Result<
        RwLockWriteGuard<&mut T>,
        Error,
    >)
        requires
            outcome is Ok ==> holds_lock(outcome),
        ensures
            outcome is Ok ==> (delivered matches Ok(guard) && guard@ is Some
                && *guard@->0 == old(self)@ && final(self)@ == *final(guard@->0)),
            outcome matches Err(error) ==> (delivered matches Err(failure) && failure == error
                && final(self)@ == old(self)@),
    {
        lend_write(&mut self.inner, outcome)
    }

    /// Locks this lock with shared read access, blocking the current thread
    /// until it can be acquired.
    ///
    /// The calling thread will be blocked until there are no more writers
    /// which hold the lock. There may be other readers currently inside the
    /// lock when this method returns. This method does not provide any
    /// guarantees with respect to the ordering of whether contentious readers
    /// or writers will acquire the lock first.
    ///
    /// Returns a guard through which the shared access is given up again.
    pub fn read(&self) -> (outcome: Result<RwLockReadGuard<&T>, Error>)
        ensures
            outcome matches Ok(guard) ==> guard@ == Some(&self@),
            outcome matches Err(error) ==> acquisition_failure(true, error),
    {
        self.deliver_read(self.lock::<false, true>())
    }

    /// Attempts to acquire this lock with shared read access.
    ///
    /// If the access could not be granted at this time, then `Err` is
    /// returned. Otherwise, a guard is returned through which the shared
    /// access is given up again.
    ///
    /// This function does not block: where the lock is held exclusive through
    /// another handle, the failure is of the class `WouldBlock`.
    pub fn try_read(&self) -> (outcome: Result<RwLockReadGuard<&T>, Error>)
        ensures
            outcome matches Ok(guard) ==> guard@ == Some(&self@),
            outcome matches Err(error) ==> acquisition_failure(false, error),
    {
        self.deliver_read(self.lock::<false, false>())
    }

    /// As `read`, for a caller that gives the lock object away: the guard
    /// owns it, and a failure hands it back.
    pub fn read_owned(self) -> (outcome: Result<OwnedRwLockReadGuard<Self>, LockError<Self>>)
        ensures
            outcome matches Ok(guard) ==> guard@ == Some(self),
            outcome matches Err(failed) ==> failed.file == self && acquisition_failure(
                true,
                failed.error,
            ),
    {
        let token = self.lock::<false, true>();
        deliver_read_owned(self, token)
    }

    /// As `try_read`, for a caller that gives the lock object away: the guard
    /// owns it, and a failure hands it back.
    pub fn try_read_owned(self) -> (outcome: Result<OwnedRwLockReadGuard<Self>, LockError<Self>>)
        ensures
            outcome matches Ok(guard) ==> guard@ == Some(self),
            outcome matches Err(failed) ==> failed.file == self && acquisition_failure(
                false,
                failed.error,
            ),
    {
        let token = self.lock::<false, false>();
        deliver_read_owned(self, token)
    }

    /// Locks this lock with exclusive write access, blocking the current
    /// thread until it can be acquired.
    ///
    /// This function will not return while other writers or other readers
    /// currently have access to the lock.
    ///
    /// Returns a guard through which the write access is given up again. The
    /// guard borrows the file mutably: the file ends as the guard leaves it.
    pub fn write(&mut self) -> (outcome: Result<RwLockWriteGuard<&mut T>, Error>)
        ensures
            outcome matches Ok(guard) ==> guard@ is Some && *guard@->0 == old(self)@
                && final(self)@ == *final(guard@->0),
            outcome matches Err(error) ==> final(self)@ == old(self)@ && acquisition_failure(
                true,
                error,
            ),
    {
        let outcome = self.lock::<true, true>();
        self.deliver_write(outcome)
    }

    /// Attempts to lock this lock with exclusive write access.
    ///
    /// If the lock could not be acquired at this time, then `Err` is
    /// returned. Otherwise, a guard is returned through which the write
    /// access is given up again.
    ///
    /// This function does not block: where the lock is held through another
    /// handle, shared or exclusive, the failure is of the class `WouldBlock`.
    pub fn try_write(&mut self) -> (outcome: Result<RwLockWriteGuard<&mut T>, Error>)
        ensures
            outcome matches Ok(guard) ==> guard@ is Some && *guard@->0 == old(self)@
                && final(self)@ == *final(guard@->0),
            outcome matches Err(error) ==> final(self)@ == old(self)@ && acquisition_failure(
                false,
                error,
            ),
    {
        let outcome = self.lock::<true, false>();
        self.deliver_write(outcome)
    }

    /// As `write`, for a caller that gives the lock object away: the guard
    /// owns it, and a failure hands it back.
    pub fn write_owned(self) -> (outcome: Result<OwnedRwLockWriteGuard<Self>, LockError<Self>>)
        ensures
            outcome matches Ok(guard) ==> guard@ == Some(self),
            outcome matches Err(failed) ==> failed.file == self && acquisition_failure(
                true,
                failed.error,
            ),
    {
        let token = self.lock::<true, true>();
        deliver_write_owned(self, token)
    }

    /// As `try_write`, for a caller that gives the lock object away: the
    /// guard owns it, and a failure hands it back.
    pub fn try_write_owned(self) -> (outcome: Result<OwnedRwLockWriteGuard<Self>, LockError<Self>>)
        ensures
            outcome matches Ok(guard) ==> guard@ == Some(self),
            outcome matches Err(failed) ==> failed.file == self && acquisition_failure(
                false,
                failed.error,
            ),
    {
        let token = self.lock::<true, false>();
        deliver_write_owned(self, token)
    }

    /// Consumes this `RwLock`, returning the underlying data.
    pub fn into_inner(self) -> (file: T)
        ensures
            file == self@,
    {
        self.inner
    }
}

} // verus!
