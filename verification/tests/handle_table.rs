use fd_lock::blocking::LockRead;
use fd_lock::nonblocking::duplicate_handle;
use fd_lock::{ErrorKind, RwLock};
use rustix::fd::OwnedFd;
use rustix::fs::{open, Mode, OFlags};
use tempfile::tempdir;

#[test]
fn full_handle_table_fails_before_any_lock_and_returns_the_file() {
    let dir = tempdir().unwrap();
    let path = dir.path().join("lockfile");
    let file = open(&path, OFlags::RDWR | OFlags::CREATE, Mode::from_raw_mode(0o600)).unwrap();
    let witness = open(&path, OFlags::RDONLY, Mode::empty()).unwrap();

    let mut filler: Vec<OwnedFd> = Vec::new();
    let err = loop {
        match duplicate_handle(&file) {
            Ok(handle) => filler.push(handle),
            Err(err) => break err,
        }
        assert!(filler.len() < 2_000_000);
    };
    assert_eq!(err.kind(), ErrorKind::HandleDuplicationFailed);
    assert!(err.raw_os_error().is_some());

    let failed = file.lock_read().unwrap_err();
    assert_eq!(failed.error.kind(), ErrorKind::HandleDuplicationFailed);
    let lock = RwLock::new(failed.file);
    let failed = lock.try_write_owned().unwrap_err();
    assert_eq!(failed.error.kind(), ErrorKind::HandleDuplicationFailed);
    assert_eq!(lock_is_free(&witness), true);

    drop(filler);
    let guard = failed.file.try_write_owned().unwrap();
    assert_eq!(lock_is_free(&witness), false);
    guard.release().unwrap();
    assert_eq!(lock_is_free(&witness), true);
}

fn lock_is_free(witness: &OwnedFd) -> bool {
    match rustix::fs::flock(witness, rustix::fs::FlockOperation::NonBlockingLockExclusive) {
        Ok(()) => {
            rustix::fs::flock(witness, rustix::fs::FlockOperation::Unlock).unwrap();
            true
        }
        Err(_) => false,
    }
}
