//! The lock primitive of the platform, and the token that stands for a lock
//! that was just taken.

pub mod unix;
pub mod windows;

use crate::error::{Error, ErrorKind};
use rustix::fd::{BorrowedFd, OwnedFd};
use unix::{
    duplicate, lock_call_report, lock_operation, lock_until_settled, settle, surfaces, LockOperation,
};
use vstd::prelude::*;

verus! {

/// What a value must offer to have its file locked: the handle of its open
/// file, on loan.
///
/// `open_file` says which handle that is, and `borrow_open_file` lends it. The
/// handle depends on the value alone, so that two loans of one value are
/// loans of one handle. An implementation in unverified code writes the two
/// methods alike.
pub trait AsOpenFile {
    /// The handle of the value's open file.
    spec fn open_file(&self) -> BorrowedFd<'_>;

    /// Lends the handle of the value's open file.
    fn borrow_open_file(&self) -> (fd: BorrowedFd<'_>)
        ensures
            fd == self.open_file(),
    ;
}

impl AsOpenFile for OwnedFd {
    /// An owned descriptor lends itself.
    open spec fn open_file(&self) -> BorrowedFd<'_> {
        unix::lent(*self)
    }

    fn borrow_open_file(&self) -> (fd: BorrowedFd<'_>) {
        unix::borrow_owned(self)
    }
}

impl<'a, T: AsOpenFile> AsOpenFile for &'a T {
    /// A reference lends the handle of what it refers to.
    open spec fn open_file(&self) -> BorrowedFd<'_> {
        (**self).open_file()
    }

    fn borrow_open_file(&self) -> (fd: BorrowedFd<'_>) {
        (**self).borrow_open_file()
    }
}

impl<'a, T: AsOpenFile> AsOpenFile for &'a mut T {
    /// A mutable reference lends the handle of what it refers to.
    open spec fn open_file(&self) -> BorrowedFd<'_> {
        (**self).open_file()
    }

    fn borrow_open_file(&self) -> (fd: BorrowedFd<'_>) {
        (**self).borrow_open_file()
    }
}

/// The failures that taking the lock on a file can end in: the handle could
/// not be duplicated, or the attempt itself failed.
pub open spec fn acquisition_failure(block: bool, error: Error) -> bool {
    error.kind == ErrorKind::HandleDuplicationFailed || surfaces(block, error)
}

/// Takes the lock through `handle`: exclusive if `WRITE`, shared if not.
/// With `BLOCK` the call waits until the lock is free; without it the call
/// fails at once with `WouldBlock` where the lock is held.
pub fn acquire_lock_from_file<const WRITE: bool, const BLOCK: bool, T: AsOpenFile>(
    handle: &T,
) -> (outcome: Result<(), Error>)
    ensures
        outcome matches Err(error) ==> surfaces(BLOCK, error),
{
    let operation = lock_operation::<WRITE, BLOCK>();
    let fd = handle.borrow_open_file();
    let result = lock_until_settled(fd, operation);
    settle(BLOCK, result)
}

/// Gives up the lock that is held through `file`.
pub fn release_lock_blocking<T: AsOpenFile>(file: &T) -> (outcome: Result<(), Error>)
    ensures
        outcome matches Err(error) ==> lock_call_report(error),
{
    let fd = file.borrow_open_file();
    lock_until_settled(fd, LockOperation::Unlock)
}

/// How disposing of a lock holder goes. The holder has what it holds locked
/// in `before`, or has nothing; it has nothing in `after`; and `attempt` is the
/// outcome of the unlock call where one was made. The call is made exactly
/// where the holder had something.
pub open spec fn disposes<X>(before: Option<X>, after: Option<X>, attempt: Option<Result<(), Error>>) -> bool {
    &&& after is None
    &&& attempt is Some <==> before is Some
    &&& attempt matches Some(Err(error)) ==> lock_call_report(error)
}

/// A holder that is disposed of gives its lock up once: the first disposal of
/// a holder that has something makes the unlock call, and a second disposal
/// makes none.
pub proof fn lemma_lock_is_given_up_once<X>(
    held: Option<X>,
    then: Option<X>,
    first: Option<Result<(), Error>>,
    last: Option<X>,
    second: Option<Result<(), Error>>,
)
    requires
        held is Some,
        disposes(held, then, first),
        disposes(then, last, second),
    ensures
        first is Some,
        second is None,
        last is None,
{
}

/// A lock that was just taken, together with a handle of its own for the
/// locked file. The token is armed as long as it holds the handle: an armed
/// token gives the lock up when it is disposed of. Defusing it takes the
/// handle out and leaves the lock in place, for a guard to look after.
///
/// Every acquisition hands its lock out as a token, and a token is spent in
/// one of these two ways only, so each lock that was taken is either passed
/// to a guard or given up, and not both. `dispose` is for a destructor to
/// call: the token has none of its own.
#[derive(Debug)]
pub struct RwLockGuard {
    handle: Option<OwnedFd>,
}

impl View for RwLockGuard {
    type V = Option<OwnedFd>;

    /// The handle of an armed token; `None` once the token is spent.
    closed spec fn view(&self) -> Option<OwnedFd> {
        self.handle
    }
}

impl RwLockGuard {
    /// An armed token for the lock held on the open file of `handle`.
    pub fn new(handle: OwnedFd) -> (token: Self)
        ensures
            token@ == Some(handle),
    {
        Self { handle: Some(handle) }
    }

    /// Whether the token still answers for the lock.
    pub fn is_armed(&self) -> (armed: bool)
        ensures
            armed <==> self@ is Some,
    {
        self.handle.is_some()
    }

    /// Takes the handle out without giving the lock up.
    pub fn defuse(self) -> (handle: OwnedFd)
        requires
            self@ is Some,
        ensures
            self@ == Some(handle),
    {
        let mut token = self;
        token.handle.take().unwrap()
    }

    /// Takes the handle out without giving the lock up, and hands it to `map`.
    pub fn defuse_with<R>(self, map: impl FnOnce(OwnedFd) -> R) -> (mapped: R)
        requires
            self@ is Some,
            call_requires(map, (self@->0,)),
        ensures
            call_ensures(map, (self@->0,), mapped),
    {
        map(self.defuse())
    }

    /// Disposes of the token where nobody took the lock over: an armed token
    /// gives the lock up through its handle and reports how that went; a
    /// spent token does nothing. Either way the token is spent afterwards,
    /// so the lock is given up at most once.
    pub fn dispose(&mut self) -> (attempt: Option<Result<(), Error>>)
        ensures
            disposes(old(self)@, final(self)@, attempt),
    {
        match self.handle.take() {
            Some(handle) => Some(release_lock_blocking(&handle)),
            None => None,
        }
    }
}

/// Whether `outcome` holds a lock that somebody has to answer for: the lock
/// was taken, and the token for it is armed.
pub open spec fn holds_lock(outcome: Result<RwLockGuard, Error>) -> bool {
    outcome matches Ok(token) && token@ is Some
}

/// The token for the outcome of a lock call that was made for the sake of
/// `handle`: an armed token with the handle in it where the lock was taken,
/// and the failure where it was not, in which case the handle is closed.
pub fn token_for(handle: OwnedFd, outcome: Result<(), Error>) -> (token: Result<RwLockGuard, Error>)
    ensures
        outcome is Ok ==> (token matches Ok(armed) && armed@ == Some(handle)),
        outcome matches Err(error) ==> (token matches Err(failure) && failure == error),
{
    match outcome {
        Ok(()) => Ok(RwLockGuard::new(handle)),
        Err(error) => Err(error),
    }
}

/// What a release hands to its caller for the outcome of the unlock call:
/// `held` where the lock was given up, and the failure where it was not.
pub fn hand_back<T>(held: T, outcome: Result<(), Error>) -> (handed: Result<T, Error>)
    ensures
        outcome is Ok ==> (handed matches Ok(same) && same == held),
        outcome matches Err(error) ==> (handed matches Err(failure) && failure == error),
{
    match outcome {
        Ok(()) => Ok(held),
        Err(error) => Err(error),
    }
}

/// Takes the lock on `file` and hands out the token for it. The token gets a
/// duplicate of the file's handle, made before the lock is asked for: where
/// that fails, no lock call is made.
pub fn acquire_lock_blocking<const WRITE: bool, const BLOCK: bool, T: AsOpenFile>(file: &T) -> (outcome:
    Result<RwLockGuard, Error>)
    ensures
        outcome is Ok ==> holds_lock(outcome),
        outcome matches Err(error) ==> acquisition_failure(BLOCK, error),
{
    let handle_clone = duplicate(file.borrow_open_file())?;
    let outcome = acquire_lock_from_file::<WRITE, BLOCK, T>(file);
    token_for(handle_clone, outcome)
}

} // verus!
