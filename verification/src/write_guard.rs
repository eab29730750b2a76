//! The guard of an exclusive lock.

use crate::error::Error;
use crate::sys::unix::lock_call_report;
use crate::sys::{disposes, hand_back, release_lock_blocking, AsOpenFile, RwLockGuard};
use vstd::prelude::*;

verus! {

/// An exclusive lock on a file.
///
/// The guard holds the file for as long as the lock is held through it.
/// `release` gives the lock up and hands the file back. `dispose` gives the
/// lock up in place, for a destructor to call: the guard has none of its own,
/// and a guard that is merely dropped leaves the lock to last until the open
/// file is closed.
#[must_use]
#[derive(Debug)]
pub struct RwLockWriteGuard<T: AsOpenFile> {
    file: Option<T>,
}

impl<T: AsOpenFile> View for RwLockWriteGuard<T> {
    type V = Option<T>;

    /// The file that is held locked; `None` once the lock was given up.
    closed spec fn view(&self) -> Option<T> {
        self.file
    }
}

impl<T: AsOpenFile> RwLockWriteGuard<T> {
    /// Takes over the lock that `guard` stands for. The token is defused and
    /// its handle closed: from here on the lock is given up through `file`.
    pub fn new(file: T, guard: RwLockGuard) -> (held: Self)
        requires
            guard@ is Some,
        ensures
            held@ == Some(file),
    {
        let _handle = guard.defuse();
        Self { file: Some(file) }
    }

    /// Whether the guard still holds its file, and the lock with it.
    pub fn is_locked(&self) -> (locked: bool)
        ensures
            locked <==> self@ is Some,
    {
        self.file.is_some()
    }

    /// The locked file.
    pub fn inner(&self) -> (file: &T)
        requires
            self@ is Some,
        ensures
            self@ == Some(*file),
    {
        self.file.as_ref().unwrap()
    }

    /// The locked file, for the operations that need it mutable.
    pub fn inner_mut(&mut self) -> (file: &mut T)
        requires
            old(self)@ is Some,
        ensures
            old(self)@ == Some(*file),
            final(self)@ == Some(*final(file)),
    {
        self.file.as_mut().unwrap()
    }

    /// Releases the lock, returning the inner file.
    pub fn release(self) -> (outcome: Result<T, Error>)
        requires
            self@ is Some,
        ensures
            outcome matches Ok(file) ==> self@ == Some(file),
            outcome matches Err(error) ==> lock_call_report(error),
    {
        let mut guard = self;
        let file = guard.file.take().unwrap();
        let outcome = release_lock_blocking(&file);
        hand_back(file, outcome)
    }

    /// Gives the lock up if it was not given up already, and reports how
    /// that went; afterwards the guard holds nothing, so a second call does
    /// nothing.
    pub fn dispose(&mut self) -> (attempt: Option<Result<(), Error>>)
        ensures
            disposes(old(self)@, final(self)@, attempt),
    {
        match self.file.take() {
            Some(file) => Some(release_lock_blocking(&file)),
            None => None,
        }
    }
}

} // verus!
