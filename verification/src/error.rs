//! Failures of lock operations, classified the same way on every platform.

use crate::read_guard::RwLockReadGuard;
use crate::write_guard::RwLockWriteGuard;
use vstd::prelude::*;

verus! {

/// The class of a failure.
#[derive(Clone, Copy, Debug, PartialEq, Eq, Structural)]
pub enum ErrorKind {
    /// The lock is held through another handle and the request was not to wait.
    WouldBlock,
    /// A signal interrupted the call before it did anything.
    Interrupted,
    /// The system denied the operation.
    PermissionDenied,
    /// The system said that what was asked for is there already: how some
    /// systems report a lock that is held.
    AlreadyExists,
    /// The handle could not be duplicated, so no lock was asked for.
    HandleDuplicationFailed,
    /// Any other failure that the system reported.
    Other,
}

/// A failure: its class, and the system's error code where the system gave one.
#[derive(Clone, Copy, Debug, PartialEq, Eq, Structural)]
pub struct Error {
    pub kind: ErrorKind,
    pub code: Option<i32>,
}

impl Error {
    /// A failure of class `kind` that the system reported as `code`.
    pub fn new(kind: ErrorKind, code: Option<i32>) -> (error: Error)
        ensures
            error == (Error { kind, code }),
    {
        Error { kind, code }
    }

    /// A failure of class `kind` that stands for no error code.
    pub fn from_kind(kind: ErrorKind) -> (error: Error)
        ensures
            error == (Error { kind, code: None }),
    {
        Error { kind, code: None }
    }

    /// The class of this failure.
    pub fn kind(&self) -> (kind: ErrorKind)
        ensures
            kind == self.kind,
    {
        self.kind
    }

    /// The system's error code, where this failure carries one.
    pub fn raw_os_error(&self) -> (code: Option<i32>)
        ensures
            code == self.code,
    {
        self.code
    }

    /// Whether this failure says that the lock is held elsewhere.
    pub fn is_would_block(&self) -> (yes: bool)
        ensures
            yes <==> self.kind == ErrorKind::WouldBlock,
    {
        match self.kind {
            ErrorKind::WouldBlock => true,
            _ => false,
        }
    }
}

/// A failed acquisition that took the file by value: the file comes back
/// together with the failure, so that the caller can go on using it.
#[derive(Debug)]
pub struct LockError<T> {
    pub file: T,
    pub error: Error,
}

impl<T> LockError<T> {
    pub fn new(file: T, error: Error) -> (failed: Self)
        ensures
            failed.file == file,
            failed.error == error,
    {
        Self { file, error }
    }

    /// Gives the file back and keeps the failure apart.
    pub fn into_parts(self) -> (parts: (T, Error))
        ensures
            parts.0 == self.file,
            parts.1 == self.error,
    {
        (self.file, self.error)
    }
}

impl<T> From<LockError<T>> for Error {
    fn from(value: LockError<T>) -> (error: Error) {
        value.error
    }
}

impl<T> vstd::std_specs::convert::FromSpecImpl<LockError<T>> for Error {
    open spec fn obeys_from_spec() -> bool {
        true
    }

    open spec fn from_spec(value: LockError<T>) -> Error {
        value.error
    }
}

impl<T> From<LockError<T>> for (T, Error) {
    fn from(value: LockError<T>) -> (parts: (T, Error)) {
        (value.file, value.error)
    }
}

impl<T> vstd::std_specs::convert::FromSpecImpl<LockError<T>> for (T, Error) {
    open spec fn obeys_from_spec() -> bool {
        true
    }

    open spec fn from_spec(value: LockError<T>) -> (T, Error) {
        (value.file, value.error)
    }
}

/// What taking a shared lock on a file handed over by value ends in.
pub type LockReadResult<T> = Result<RwLockReadGuard<T>, LockError<T>>;

/// What taking an exclusive lock on a file handed over by value ends in.
pub type LockWriteResult<T> = Result<RwLockWriteGuard<T>, LockError<T>>;

} // verus!
