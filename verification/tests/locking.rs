use advisory_lock::{FileLockError, FileLockMode, LockableFile};
use nix::fcntl::{open, OFlag};
use nix::sys::stat::Mode;
use nix::unistd::{close, unlink};

fn open_test_file(path: &str) -> i32 {
    open(path, OFlag::O_CREAT | OFlag::O_RDWR, Mode::from_bits_truncate(0o644))
        .expect("opening the test file failed")
}

#[test]
fn simple_shared_lock() {
    let path = "/tmp/shared_lock";
    let f1 = open_test_file(path);
    f1.lock(FileLockMode::Shared).unwrap();
    let f2 = open_test_file(path);
    f2.lock(FileLockMode::Shared).unwrap();
    close(f1).unwrap();
    close(f2).unwrap();
    unlink(path).unwrap();
}

#[test]
fn simple_exclusive_lock() {
    let path = "/tmp/exclusive_lock";
    let f1 = open_test_file(path);
    f1.lock(FileLockMode::Exclusive).unwrap();
    let f2 = open_test_file(path);
    assert!(f2.try_lock(FileLockMode::Exclusive).is_err());
    close(f1).unwrap();
    close(f2).unwrap();
    unlink(path).unwrap();
}

#[test]
fn simple_shared_exclusive_lock() {
    let path = "/tmp/shared_exclusive_lock";
    let f1 = open_test_file(path);
    f1.lock(FileLockMode::Shared).unwrap();
    let f2 = open_test_file(path);
    assert!(matches!(
        f2.try_lock(FileLockMode::Exclusive),
        Err(FileLockError::AlreadyLocked)
    ));
    close(f1).unwrap();
    close(f2).unwrap();
    unlink(path).unwrap();
}

#[test]
fn simple_exclusive_shared_lock() {
    let path = "/tmp/exclusive_shared_lock";
    let f1 = open_test_file(path);
    f1.lock(FileLockMode::Exclusive).unwrap();
    let f2 = open_test_file(path);
    assert!(f2.try_lock(FileLockMode::Shared).is_err());
    close(f1).unwrap();
    close(f2).unwrap();
    unlink(path).unwrap();
}

#[test]
fn shared_try_lock_fails_while_exclusive_held_then_succeeds_after_release() {
    let path = "/tmp/exclusive_then_shared";
    let f1 = open_test_file(path);
    let f2 = open_test_file(path);
    f1.lock(FileLockMode::Exclusive).unwrap();
    assert!(matches!(
        f2.try_lock(FileLockMode::Shared),
        Err(FileLockError::AlreadyLocked)
    ));
    f1.unlock().unwrap();
    f2.try_lock(FileLockMode::Shared).unwrap();
    close(f1).unwrap();
    close(f2).unwrap();
    unlink(path).unwrap();
}

#[test]
fn exclusive_try_lock_fails_while_shared_held_then_succeeds_after_release() {
    let path = "/tmp/shared_then_exclusive";
    let f1 = open_test_file(path);
    let f2 = open_test_file(path);
    f1.lock(FileLockMode::Shared).unwrap();
    assert!(matches!(
        f2.try_lock(FileLockMode::Exclusive),
        Err(FileLockError::AlreadyLocked)
    ));
    f1.unlock().unwrap();
    f2.try_lock(FileLockMode::Exclusive).unwrap();
    close(f1).unwrap();
    close(f2).unwrap();
    unlink(path).unwrap();
}

#[test]
fn unlock_without_holding_a_lock_is_not_an_error() {
    let path = "/tmp/unlock_without_lock";
    let f1 = open_test_file(path);
    f1.unlock().unwrap();
    f1.lock(FileLockMode::Exclusive).unwrap();
    f1.unlock().unwrap();
    f1.unlock().unwrap();
    close(f1).unwrap();
    unlink(path).unwrap();
}

#[test]
fn closing_the_descriptor_releases_the_lock() {
    let path = "/tmp/close_releases";
    let f1 = open_test_file(path);
    f1.lock(FileLockMode::Exclusive).unwrap();
    let f2 = open_test_file(path);
    assert!(matches!(
        f2.try_lock(FileLockMode::Exclusive),
        Err(FileLockError::AlreadyLocked)
    ));
    close(f1).unwrap();
    f2.try_lock(FileLockMode::Exclusive).unwrap();
    close(f2).unwrap();
    unlink(path).unwrap();
}

#[test]
fn lock_on_a_bad_descriptor_is_an_io_error() {
    let bad_fd: i32 = -1;
    let locked = bad_fd.lock(FileLockMode::Shared);
    assert!(matches!(locked, Err(FileLockError::Io(code)) if code == libc::EBADF));
    let tried = bad_fd.try_lock(FileLockMode::Exclusive);
    assert!(matches!(tried, Err(FileLockError::Io(code)) if code == libc::EBADF));
    let unlocked = bad_fd.unlock();
    assert!(matches!(unlocked, Err(FileLockError::Io(code)) if code == libc::EBADF));
}
