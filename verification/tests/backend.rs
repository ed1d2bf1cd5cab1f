use advisory_lock::unix::{
    lock_request, map_lock_outcome, map_unlock_outcome, FlockRequest, OsFailure,
};
use advisory_lock::windows::{
    lock_flags, map_lock_result, map_unlock_result, ERROR_LOCKED, ERROR_NOT_LOCKED,
};
use advisory_lock::{FileLockError, FileLockMode};

#[test]
fn unix_request_table() {
    assert_eq!(
        lock_request(FileLockMode::Shared, false),
        FlockRequest::Shared
    );
    assert_eq!(
        lock_request(FileLockMode::Shared, true),
        FlockRequest::SharedNonblock
    );
    assert_eq!(
        lock_request(FileLockMode::Exclusive, false),
        FlockRequest::Exclusive
    );
    assert_eq!(
        lock_request(FileLockMode::Exclusive, true),
        FlockRequest::ExclusiveNonblock
    );
}

#[test]
fn unix_lock_outcome_table() {
    assert_eq!(map_lock_outcome(Ok(()), false), Ok(()));
    assert_eq!(map_lock_outcome(Ok(()), true), Ok(()));
    let contended = OsFailure { code: libc::EWOULDBLOCK, would_block: true };
    assert_eq!(
        map_lock_outcome(Err(contended), true),
        Err(FileLockError::AlreadyLocked)
    );
    assert_eq!(
        map_lock_outcome(Err(contended), false),
        Err(FileLockError::Io(libc::EWOULDBLOCK))
    );
    let genuine = OsFailure { code: libc::EBADF, would_block: false };
    assert_eq!(
        map_lock_outcome(Err(genuine), true),
        Err(FileLockError::Io(libc::EBADF))
    );
    assert_eq!(
        map_lock_outcome(Err(genuine), false),
        Err(FileLockError::Io(libc::EBADF))
    );
}

#[test]
fn unix_unlock_outcome_table() {
    assert_eq!(map_unlock_outcome(Ok(())), Ok(()));
    let genuine = OsFailure { code: libc::EBADF, would_block: false };
    assert_eq!(
        map_unlock_outcome(Err(genuine)),
        Err(FileLockError::Io(libc::EBADF))
    );
    let contended = OsFailure { code: libc::EWOULDBLOCK, would_block: true };
    assert_eq!(
        map_unlock_outcome(Err(contended)),
        Err(FileLockError::Io(libc::EWOULDBLOCK))
    );
}

#[test]
fn windows_flag_table() {
    assert_eq!(lock_flags(FileLockMode::Shared, false), 0);
    assert_eq!(lock_flags(FileLockMode::Shared, true), 1);
    assert_eq!(lock_flags(FileLockMode::Exclusive, false), 2);
    assert_eq!(lock_flags(FileLockMode::Exclusive, true), 3);
}

#[test]
fn windows_lock_result_table() {
    assert_eq!(map_lock_result(true, 0), Ok(()));
    assert_eq!(
        map_lock_result(false, ERROR_LOCKED),
        Err(FileLockError::AlreadyLocked)
    );
    assert_eq!(
        map_lock_result(false, 5),
        Err(FileLockError::Io(5))
    );
}

#[test]
fn windows_unlock_result_table() {
    assert_eq!(map_unlock_result(true, 0), Ok(()));
    assert_eq!(map_unlock_result(false, ERROR_NOT_LOCKED), Ok(()));
    assert_eq!(
        map_unlock_result(false, 5),
        Err(FileLockError::Io(5))
    );
}
