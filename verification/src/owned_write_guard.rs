//! The guard of an exclusive lock that owns the lock object itself.

use crate::error::Error;
use crate::rw_lock::RwLockTrait;
use crate::sys::unix::lock_call_report;
use crate::sys::{disposes, hand_back};
use vstd::prelude::*;

verus! {

/// Owned version of `RwLockWriteGuard`: it holds the lock object by value, so
/// it is bound to no scope and can be moved to wherever the file is written.
///
/// `release` gives the lock up and hands the lock object back. `dispose`
/// gives the lock up in place, for a destructor to call: the guard has none
/// of its own.
#[must_use]
#[derive(Debug)]
pub struct OwnedRwLockWriteGuard<L: RwLockTrait> {
    lock: Option<L>,
}

impl<L: RwLockTrait> View for OwnedRwLockWriteGuard<L> {
    type V = Option<L>;

    /// The lock object whose file is held locked; `None` once the lock was
    /// given up.
    closed spec fn view(&self) -> Option<L> {
        self.lock
    }
}

impl<L: RwLockTrait> OwnedRwLockWriteGuard<L> {
    /// A guard for the lock that is held on the file of `lock`.
    pub fn new(lock: L) -> (held: Self)
        ensures
            held@ == Some(lock),
    {
        Self { lock: Some(lock) }
    }

    /// Whether the guard still holds its lock object, and the lock with it.
    pub fn is_locked(&self) -> (locked: bool)
        ensures
            locked <==> self@ is Some,
    {
        self.lock.is_some()
    }

    /// The lock object whose file is held locked.
    pub fn inner(&self) -> (lock: &L)
        requires
            self@ is Some,
        ensures
            self@ == Some(*lock),
    {
        self.lock.as_ref().unwrap()
    }

    /// Releases the lock, returning the lock object.
    pub fn release(self) -> (outcome: Result<L, Error>)
        requires
            self@ is Some,
        ensures
            outcome matches Ok(lock) ==> self@ == Some(lock),
            outcome matches Err(error) ==> lock_call_report(error),
    {
        let mut guard = self;
        let lock = guard.lock.take().unwrap();
        let outcome = lock.release_lock();
        hand_back(lock, outcome)
    }

    /// Gives the lock up if it was not given up already, and reports how
    /// that went; afterwards the guard holds nothing, so a second call does
    /// nothing.
    pub fn dispose(&mut self) -> (attempt: Option<Result<(), Error>>)
        ensures
            disposes(old(self)@, final(self)@, attempt),
    {
        match self.lock.take() {
            Some(lock) => Some(lock.release_lock()),
            None => None,
        }
    }
}

} // verus!
