//! The Windows backend's decision logic.
//!
//! On that platform the native primitive locks byte ranges rather than whole
//! files, so whole-file locking is approximated by a range lock over the
//! maximal addressable range, issued through an overlapped call. The native
//! calls exist only on that platform and stay outside this library; what
//! stands here, verified, is the logic they are built from: the request-flag
//! table and the translation of native error codes into the crate's error
//! vocabulary.

use vstd::prelude::*;

use crate::{FileLockError, FileLockMode};

verus! {

/// The native flag that asks the range lock to fail immediately instead of
/// blocking (the value of `LOCKFILE_FAIL_IMMEDIATELY` in the native headers).
pub const LOCKFILE_FAIL_IMMEDIATELY: u32 = 1;

/// The native flag that asks for an exclusive range lock; its absence means a
/// shared one (the value of `LOCKFILE_EXCLUSIVE_LOCK` in the native headers).
pub const LOCKFILE_EXCLUSIVE_LOCK: u32 = 2;

/// The native error code reporting that a conflicting range lock is already
/// held (the value of `ERROR_LOCKED` in the native headers).
pub const ERROR_LOCKED: u32 = 212;

/// The native error code reporting that the range to unlock was not locked
/// (the value of `ERROR_NOT_LOCKED` in the native headers).
pub const ERROR_NOT_LOCKED: u32 = 158;

/// The backend's request table: the exclusive flag is present exactly for
/// `Exclusive` requests, and the fail-immediately flag exactly when an
/// immediate answer is requested.
pub open spec fn lock_flags_spec(mode: FileLockMode, immediate: bool) -> u32 {
    match mode {
        FileLockMode::Exclusive => if immediate {
            LOCKFILE_EXCLUSIVE_LOCK | LOCKFILE_FAIL_IMMEDIATELY
        } else {
            LOCKFILE_EXCLUSIVE_LOCK
        },
        FileLockMode::Shared => if immediate {
            LOCKFILE_FAIL_IMMEDIATELY
        } else {
            0u32
        },
    }
}

/// Build the native request flags for a mode and a blocking policy.
pub fn lock_flags(mode: FileLockMode, immediate: bool) -> (r: u32)
    ensures
        r == lock_flags_spec(mode, immediate),
{
    match mode {
        FileLockMode::Exclusive => if immediate {
            LOCKFILE_EXCLUSIVE_LOCK | LOCKFILE_FAIL_IMMEDIATELY
        } else {
            LOCKFILE_EXCLUSIVE_LOCK
        },
        FileLockMode::Shared => if immediate {
            LOCKFILE_FAIL_IMMEDIATELY
        } else {
            0u32
        },
    }
}

/// The backend's decision table for acquisition: native success is success; a
/// failure whose code reports an existing conflicting lock is contention; any
/// other failure is an I/O error carrying the native code.
pub open spec fn lock_result_spec(success: bool, last_error: u32) -> Result<(), FileLockError> {
    if success {
        Ok(())
    } else if last_error == ERROR_LOCKED {
        Err(FileLockError::AlreadyLocked)
    } else {
        Err(FileLockError::Io(last_error as i32))
    }
}

/// Translate what the native acquisition call reported — whether it succeeded
/// and, when it did not, the last native error code — into the crate's error
/// vocabulary, exactly as the decision table says.
pub fn map_lock_result(success: bool, last_error: u32) -> (r: Result<(), FileLockError>)
    ensures
        r == lock_result_spec(success, last_error),
{
    if success {
        Ok(())
    } else if last_error == ERROR_LOCKED {
        Err(FileLockError::AlreadyLocked)
    } else {
        Err(FileLockError::Io(last_error as i32))
    }
}

/// The backend's decision table for release: native success is success; the
/// code reporting that nothing was locked is swallowed and reported as
/// success too, so that releasing an already-released lock is harmless; any
/// other failure is an I/O error carrying the native code.
pub open spec fn unlock_result_spec(success: bool, last_error: u32) -> Result<(), FileLockError> {
    if success {
        Ok(())
    } else if last_error == ERROR_NOT_LOCKED {
        Ok(())
    } else {
        Err(FileLockError::Io(last_error as i32))
    }
}

/// Translate what the native release call reported into the crate's error
/// vocabulary, exactly as the decision table says; release is never answered
/// with contention, and an unheld lock is not an error.
pub fn map_unlock_result(success: bool, last_error: u32) -> (r: Result<(), FileLockError>)
    ensures
        r == unlock_result_spec(success, last_error),
        !crate::is_already_locked(r),
{
    if success {
        Ok(())
    } else if last_error == ERROR_NOT_LOCKED {
        Ok(())
    } else {
        Err(FileLockError::Io(last_error as i32))
    }
}

} // verus!
