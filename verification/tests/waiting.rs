use fd_lock::blocking::{LockRead, LockWrite};
use fd_lock::RwLock;
use rustix::fd::OwnedFd;
use rustix::fs::{open, Mode, OFlags};
use std::path::Path;
use std::time::Duration;
use tempfile::tempdir;
use tokio::sync::oneshot::error::TryRecvError;

fn create(path: &Path) -> OwnedFd {
    open(path, OFlags::RDWR | OFlags::CREATE | OFlags::TRUNC, Mode::from_raw_mode(0o600)).unwrap()
}

fn reopen(path: &Path) -> OwnedFd {
    open(path, OFlags::RDONLY, Mode::empty()).unwrap()
}

fn runtime() -> tokio::runtime::Runtime {
    tokio::runtime::Builder::new_multi_thread()
        .worker_threads(1)
        .enable_time()
        .build()
        .unwrap()
}

#[test]
fn blocking_write_waits_until_the_reader_releases() {
    let dir = tempdir().unwrap();
    let path = dir.path().join("lockfile");
    let holder = create(&path).lock_read().unwrap();
    let waiter = reopen(&path);

    runtime().block_on(async move {
        let (sender, mut receiver) = tokio::sync::oneshot::channel();
        let task = tokio::task::spawn_blocking(move || {
            let outcome = waiter.lock_write();
            let _ = sender.send(());
            outcome
        });
        tokio::time::sleep(Duration::from_millis(200)).await;
        assert!(matches!(receiver.try_recv(), Err(TryRecvError::Empty)));

        holder.release().unwrap();
        let guard = task.await.unwrap().unwrap();
        assert!(matches!(receiver.try_recv(), Ok(())));
        guard.release().unwrap();
    });
}

#[test]
fn blocking_read_waits_until_the_writer_releases() {
    let dir = tempdir().unwrap();
    let path = dir.path().join("lockfile");
    let holder = RwLock::new(create(&path)).write_owned().unwrap();
    let waiter = RwLock::new(reopen(&path));

    runtime().block_on(async move {
        let (sender, mut receiver) = tokio::sync::oneshot::channel();
        let task = tokio::task::spawn_blocking(move || {
            let outcome = waiter.read_owned();
            let _ = sender.send(());
            outcome
        });
        tokio::time::sleep(Duration::from_millis(200)).await;
        assert!(matches!(receiver.try_recv(), Err(TryRecvError::Empty)));

        holder.release().unwrap();
        let guard = task.await.unwrap().unwrap();
        assert!(matches!(receiver.try_recv(), Ok(())));
        guard.release().unwrap();
    });
}

#[test]
fn blocking_read_does_not_wait_for_other_readers() {
    let dir = tempdir().unwrap();
    let path = dir.path().join("lockfile");
    let holder = create(&path).lock_read().unwrap();
    let second = reopen(&path);

    runtime().block_on(async move {
        let task = tokio::task::spawn_blocking(move || second.lock_read());
        let guard = tokio::time::timeout(Duration::from_secs(5), task)
            .await
            .unwrap()
            .unwrap()
            .unwrap();
        guard.release().unwrap();
        holder.release().unwrap();
    });
}
