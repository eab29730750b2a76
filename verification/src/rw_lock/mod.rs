//! The lock around a file, and what every such lock offers to the guards
//! that own it.

pub mod blocking;

use crate::error::Error;
use crate::sys::unix::lock_call_report;
use crate::sys::AsOpenFile;
use vstd::prelude::*;

verus! {

/// A lock that a guard can own: it can give up the lock that is held on its
/// file, and it can be taken apart for the file.
pub trait RwLockTrait {
    /// The type of the file inside the lock.
    type AsOpenFile: AsOpenFile;

    /// Takes the lock apart, returning the file.
    fn into_inner(self) -> Self::AsOpenFile where Self: Sized;

    /// Gives up the lock that is held on the file.
    fn release_lock(&self) -> (outcome: Result<(), Error>)
        ensures
            outcome matches Err(error) ==> lock_call_report(error),
    ;
}

} // verus!
