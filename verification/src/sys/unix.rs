//! The lock calls of Unix, made through `rustix`.

use crate::error::{Error, ErrorKind};
use rustix::fd::{AsFd, BorrowedFd, OwnedFd};
use rustix::io::Errno;
use vstd::prelude::*;

verus! {

/// A descriptor that is closed when its owner lets go of it.
#[verifier::external_type_specification]
#[verifier::external_body]
pub struct ExOwnedFd(rustix::fd::OwnedFd);

/// A descriptor on loan from its owner.
#[verifier::external_type_specification]
#[verifier::external_body]
pub struct ExBorrowedFd<'a>(rustix::fd::BorrowedFd<'a>);

/// The error number of a failed system call.
#[verifier::external_type_specification]
#[verifier::external_body]
pub struct ExErrno(rustix::io::Errno);

/// What can be asked of the lock on an open file.
#[derive(Clone, Copy, Debug, PartialEq, Eq, Structural)]
pub enum LockOperation {
    /// Take the lock shared, and wait for it.
    LockShared,
    /// Take the lock exclusive, and wait for it.
    LockExclusive,
    /// Give the lock up.
    Unlock,
    /// Take the lock shared, or fail at once where it is held exclusive.
    NonBlockingLockShared,
    /// Take the lock exclusive, or fail at once where it is held.
    NonBlockingLockExclusive,
}

/// The operation that takes the lock: exclusive for a writer, shared for a
/// reader, and waiting or not as `block` says.
pub open spec fn operation_for(write: bool, block: bool) -> LockOperation {
    match (write, block) {
        (false, false) => LockOperation::NonBlockingLockShared,
        (false, true) => LockOperation::LockShared,
        (true, false) => LockOperation::NonBlockingLockExclusive,
        (true, true) => LockOperation::LockExclusive,
    }
}

/// Picks the operation that takes the lock.
pub fn lock_operation<const WRITE: bool, const BLOCK: bool>() -> (operation: LockOperation)
    ensures
        operation == operation_for(WRITE, BLOCK),
{
    if WRITE {
        if BLOCK {
            LockOperation::LockExclusive
        } else {
            LockOperation::NonBlockingLockExclusive
        }
    } else {
        if BLOCK {
            LockOperation::LockShared
        } else {
            LockOperation::NonBlockingLockShared
        }
    }
}

impl LockOperation {
    /// Whether the operation takes the lock exclusive: for one holder, and
    /// for it alone.
    pub open spec fn exclusive(self) -> bool {
        self == LockOperation::LockExclusive || self == LockOperation::NonBlockingLockExclusive
    }

    /// Whether the operation takes the lock shared: together with any number
    /// of other holders that take it shared.
    pub open spec fn shared(self) -> bool {
        self == LockOperation::LockShared || self == LockOperation::NonBlockingLockShared
    }

    /// Whether the operation waits for a lock that is held, rather than fail.
    pub open spec fn waits(self) -> bool {
        self == LockOperation::LockShared || self == LockOperation::LockExclusive
    }
}

/// The operation for a request asks for what was requested: the exclusive
/// lock for a writer and the shared lock for a reader, waiting exactly if the
/// request is to wait; and it never gives a lock up.
pub proof fn lemma_operation_asks_what_was_requested(write: bool, block: bool)
    ensures
        operation_for(write, block).exclusive() <==> write,
        operation_for(write, block).shared() <==> !write,
        operation_for(write, block).waits() <==> block,
        operation_for(write, block) != LockOperation::Unlock,
{
}

/// Each choice of reader or writer, waiting or not, has an operation of its
/// own: the four requests come to four operations.
pub proof fn lemma_operation_is_one_of_four(write: bool, block: bool, other_write: bool, other_block: bool)
    ensures
        operation_for(write, block) == operation_for(other_write, other_block) <==> write
            == other_write && block == other_block,
{
}

/// What a lock call reports when it fails for good: the system's code, in a
/// class other than that of an interruption, which is answered by calling
/// again, and other than that of a failed duplication, which is no failure of
/// a lock call.
pub open spec fn lock_call_report(error: Error) -> bool {
    &&& error.code is Some
    &&& error.kind != ErrorKind::Interrupted
    &&& error.kind != ErrorKind::HandleDuplicationFailed
}

/// The failure that the caller gets for the failure `error` of a lock call.
/// A request that does not wait hears of a held lock as `WouldBlock`, also
/// where the system calls it `AlreadyExists`; everything else stays as it is.
pub open spec fn reclassified(block: bool, error: Error) -> Error {
    if !block && error.kind == ErrorKind::AlreadyExists {
        Error { kind: ErrorKind::WouldBlock, code: None }
    } else {
        error
    }
}

/// The failures that an attempt to take the lock can end in.
pub open spec fn surfaces(block: bool, error: Error) -> bool {
    &&& error.kind != ErrorKind::Interrupted
    &&& error.kind != ErrorKind::HandleDuplicationFailed
    &&& !block ==> error.kind != ErrorKind::AlreadyExists
    &&& error.code is None ==> !block && error.kind == ErrorKind::WouldBlock
}

/// Brings the failure of a lock call into the form that the caller gets.
pub fn reclassify(block: bool, error: Error) -> (surfaced: Error)
    ensures
        surfaced == reclassified(block, error),
{
    if block {
        error
    } else {
        match error.kind {
            ErrorKind::AlreadyExists => Error::from_kind(ErrorKind::WouldBlock),
            _ => error,
        }
    }
}

/// Turns the outcome of a lock call into the outcome of the attempt.
pub fn settle(block: bool, outcome: Result<(), Error>) -> (settled: Result<(), Error>)
    ensures
        outcome is Ok ==> settled is Ok,
        outcome matches Err(error) ==> (settled matches Err(surfaced) && surfaced == reclassified(
            block,
            error,
        )),
{
    match outcome {
        Ok(()) => Ok(()),
        Err(error) => Err(reclassify(block, error)),
    }
}

/// The failures that an attempt can end in are the reports of a lock call,
/// reclassified: no more and no fewer.
pub proof fn lemma_surfaces_what_is_reclassified(block: bool, error: Error)
    ensures
        surfaces(block, error) <==> exists|report: Error|
            lock_call_report(report) && #[trigger] reclassified(block, report) == error,
{
    if surfaces(block, error) {
        if error.code is None {
            let report = Error { kind: ErrorKind::AlreadyExists, code: Some(0i32) };
            assert(lock_call_report(report) && reclassified(block, report) == error);
        } else {
            assert(lock_call_report(error) && reclassified(block, error) == error);
        }
    }
}

/// Reclassifying twice changes nothing more.
pub proof fn lemma_reclassified_is_final(block: bool, error: Error)
    ensures
        reclassified(block, reclassified(block, error)) == reclassified(block, error),
{
}

/// A request that waits gets the failure as the system reported it.
pub proof fn lemma_blocking_failure_is_verbatim(error: Error)
    ensures
        reclassified(true, error) == error,
{
}

/// A request that does not wait hears of a held lock as `WouldBlock`,
/// whichever of the two ways the system reported it, and of nothing else so.
pub proof fn lemma_contention_is_would_block(error: Error)
    ensures
        reclassified(false, error).kind == ErrorKind::WouldBlock <==> error.kind
            == ErrorKind::WouldBlock || error.kind == ErrorKind::AlreadyExists,
{
}

/// One `flock` call of `rustix::fs`, with the operation written the way
/// `rustix` names it. Whether the call succeeds is the system's to decide,
/// so nothing is said of the outcome.
#[verifier::external_body]
fn flock(fd: BorrowedFd<'_>, operation: LockOperation) -> (outcome: Result<(), Errno>) {
    let native = match operation {
        LockOperation::LockShared => rustix::fs::FlockOperation::LockShared,
        LockOperation::LockExclusive => rustix::fs::FlockOperation::LockExclusive,
        LockOperation::Unlock => rustix::fs::FlockOperation::Unlock,
        LockOperation::NonBlockingLockShared => rustix::fs::FlockOperation::NonBlockingLockShared,
        LockOperation::NonBlockingLockExclusive => rustix::fs::FlockOperation::NonBlockingLockExclusive,
    };
    rustix::fs::flock(fd, native)
}

/// Asks the system once for `operation` on the whole file behind `fd`.
pub(crate) fn compatible_unix_lock(fd: BorrowedFd<'_>, operation: LockOperation) -> (outcome: Result<
    (),
    Errno,
>) {
    flock(fd, operation)
}

/// `rustix::io::retry_on_intr` around the lock call: the call is made again
/// for as long as it fails with the error number of an interruption, so what
/// comes back is success or another error number. That error number is handed
/// on as the code, and in the class that `Errno::kind` gives it where that is
/// `WouldBlock`, `PermissionDenied` or `AlreadyExists`, else as `Other`.
#[verifier::external_body]
pub(crate) fn lock_until_settled(fd: BorrowedFd<'_>, operation: LockOperation) -> (outcome: Result<
    (),
    Error,
>)
    ensures
        outcome matches Err(error) ==> lock_call_report(error),
{
    rustix::io::retry_on_intr(|| compatible_unix_lock(fd, operation)).map_err(|errno| Error {
        kind: match errno.kind() {
            std::io::ErrorKind::WouldBlock => ErrorKind::WouldBlock,
            std::io::ErrorKind::PermissionDenied => ErrorKind::PermissionDenied,
            std::io::ErrorKind::AlreadyExists => ErrorKind::AlreadyExists,
            _ => ErrorKind::Other,
        },
        code: Some(errno.raw_os_error()),
    })
}

/// `BorrowedFd::try_clone_to_owned` of std: a new descriptor for the same
/// open file, or the failure that the system reported, with its code and
/// with the class that `std::io::Error::kind` gives it.
#[verifier::external_body]
fn try_clone_to_owned(fd: BorrowedFd<'_>) -> (duplicate: Result<OwnedFd, Error>) {
    fd.try_clone_to_owned().map_err(|error| Error {
        kind: match error.kind() {
            std::io::ErrorKind::WouldBlock => ErrorKind::WouldBlock,
            std::io::ErrorKind::Interrupted => ErrorKind::Interrupted,
            std::io::ErrorKind::PermissionDenied => ErrorKind::PermissionDenied,
            std::io::ErrorKind::AlreadyExists => ErrorKind::AlreadyExists,
            _ => ErrorKind::Other,
        },
        code: error.raw_os_error(),
    })
}

/// The descriptor that `handle` owns, as it is lent out: what `AsFd::as_fd`
/// gives for an owned descriptor. It is the handle's own descriptor, so it
/// is the same for every loan of one handle.
pub uninterp spec fn lent(handle: OwnedFd) -> BorrowedFd<'static>;

/// `AsFd::as_fd` on an owned descriptor: the same descriptor, on loan.
#[verifier::external_body]
pub(crate) fn borrow_owned(handle: &OwnedFd) -> (fd: BorrowedFd<'_>)
    ensures
        fd == lent(*handle),
{
    handle.as_fd()
}

/// The failure that the caller gets where duplicating the handle failed with
/// `reported`: the system's code, in the class of its own that says that no
/// lock was asked for.
pub open spec fn duplication_failure(reported: Error) -> Error {
    Error { kind: ErrorKind::HandleDuplicationFailed, code: reported.code }
}

/// Turns the outcome of the duplication into the form that the caller gets.
pub fn settle_duplication(outcome: Result<OwnedFd, Error>) -> (settled: Result<OwnedFd, Error>)
    ensures
        outcome matches Ok(handle) ==> (settled matches Ok(same) && same == handle),
        outcome matches Err(reported) ==> (settled matches Err(error) && error
            == duplication_failure(reported)),
{
    match outcome {
        Ok(handle) => Ok(handle),
        Err(reported) => Err(Error::new(ErrorKind::HandleDuplicationFailed, reported.code)),
    }
}

/// Makes a second, independently owned descriptor for the open file behind
/// `fd`. A failure is handed on with the system's code and says that it was
/// the duplication that failed.
pub fn duplicate(fd: BorrowedFd<'_>) -> (duplicate: Result<OwnedFd, Error>)
    ensures
        duplicate matches Err(error) ==> error.kind == ErrorKind::HandleDuplicationFailed,
{
    settle_duplication(try_clone_to_owned(fd))
}

} // verus!
