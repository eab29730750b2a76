//! Advisory reader-writer locks for files.
//!
//! # Notes on Advisory Locks
//!
//! "advisory locks" are locks which programs must opt-in to adhere to. This
//! means that they can be used to coordinate file access, but not prevent
//! access. Use this to coordinate file access between multiple instances of the
//! same program. But do not use this to prevent actors from accessing or
//! modifying files.
//!
//! # What is here
//!
//! - [`sys`] holds the lock primitive: which operation a request comes to,
//!   what its failure means, and the token that stands for a lock that was
//!   just taken.
//! - [`RwLockReadGuard`], [`RwLockWriteGuard`], [`OwnedRwLockReadGuard`] and
//!   [`OwnedRwLockWriteGuard`] hold a lock until it is given up, once.
//! - [`FileLock`], [`RwLock`] and the traits of [`blocking`] take a lock for
//!   a caller that can wait in the call.
//! - [`nonblocking`] holds the steps of taking a lock for a caller that
//!   cannot: they are put together by whoever runs the waiting elsewhere.
//!
//! The lock is always on the whole file, and it is held by the open file, not
//! by the handle: every duplicate of a handle shares it, and giving it up
//! through one of them gives it up for all.
//!
//! # Example
//!
//! ```no_run
//! use fd_lock::{AsOpenFile, Error, FileLock};
//!
//! fn update<T: AsOpenFile>(file: T) -> Result<T, Error> {
//!     let mut lock = FileLock::new(file);
//!     let guard = lock.write()?;
//!     // ... write through `guard.inner()` ...
//!     guard.release()?;
//!     Ok(lock.into_inner())
//! }
//! ```

pub mod blocking;
pub mod error;
pub mod file_lock;
pub mod nonblocking;
pub mod owned_read_guard;
pub mod owned_write_guard;
pub mod read_guard;
pub mod rw_lock;
pub mod sys;
pub mod write_guard;

pub use file_lock::FileLock;
pub use error::{Error, ErrorKind, LockError, LockReadResult, LockWriteResult};
pub use owned_read_guard::OwnedRwLockReadGuard;
pub use owned_write_guard::OwnedRwLockWriteGuard;
pub use read_guard::RwLockReadGuard;
pub use rw_lock::blocking::RwLock;
pub use rw_lock::RwLockTrait;
pub use sys::AsOpenFile;
pub use write_guard::RwLockWriteGuard;
