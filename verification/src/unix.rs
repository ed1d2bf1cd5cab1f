//! The POSIX backend: whole-file advisory locks over the native `flock`
//! facility.
//!
//! The backend translates a (mode, blocking-vs-immediate) request into the
//! exact native lock request, issues one native call against the file's raw
//! descriptor, and translates the native failure back into the crate's error
//! vocabulary. Blocking requests simply omit the non-blocking variant and let
//! the kernel suspend the calling thread until the lock is granted — the one
//! and only suspension point in the whole crate.

use vstd::prelude::*;

use crate::{is_already_locked, FileLockError, FileLockMode};
use nix::errno::Errno;
use nix::fcntl::FlockArg;

verus! {

/// The exact request handed to the native advisory-lock call: which lock to
/// take (or give up), and whether to fail immediately instead of blocking.
#[derive(Copy, Clone, PartialEq, Eq, Debug, Structural)]
pub enum FlockRequest {
    /// Take the shared lock, blocking until granted.
    Shared,
    /// Take the exclusive lock, blocking until granted.
    Exclusive,
    /// Take the shared lock, failing immediately when it is contended.
    SharedNonblock,
    /// Take the exclusive lock, failing immediately when it is contended.
    ExclusiveNonblock,
    /// Remove the lock.
    Unlock,
}

/// The backend's request table: `Shared` maps to the shared lock request and
/// `Exclusive` to the exclusive one; asking for an immediate answer selects
/// the non-blocking variant of the same request.
pub open spec fn lock_request_spec(mode: FileLockMode, immediate: bool) -> FlockRequest {
    match mode {
        FileLockMode::Shared => if immediate {
            FlockRequest::SharedNonblock
        } else {
            FlockRequest::Shared
        },
        FileLockMode::Exclusive => if immediate {
            FlockRequest::ExclusiveNonblock
        } else {
            FlockRequest::Exclusive
        },
    }
}

/// Select the native lock request for a mode and a blocking policy.
pub fn lock_request(mode: FileLockMode, immediate: bool) -> (r: FlockRequest)
    ensures
        r == lock_request_spec(mode, immediate),
{
    match mode {
        FileLockMode::Shared => if immediate {
            FlockRequest::SharedNonblock
        } else {
            FlockRequest::Shared
        },
        FileLockMode::Exclusive => if immediate {
            FlockRequest::ExclusiveNonblock
        } else {
            FlockRequest::Exclusive
        },
    }
}

/// What a failed native call reported: the raw OS error code, and whether
/// that code was the "operation would block" contention signal.
#[derive(Copy, Clone, PartialEq, Eq, Debug, Structural)]
pub struct OsFailure {
    /// The raw OS error code of the failure.
    pub code: i32,
    /// True exactly when the code was the would-block contention signal.
    pub would_block: bool,
}

/// Relies on nix::fcntl::flock: issues the requested advisory-lock operation
/// as one native `flock` call on the descriptor. On failure it hands back the
/// raw OS error code and whether that code was `Errno::EWOULDBLOCK`; what the
/// kernel answers depends on its lock table, so nothing more is assumed here.
#[verifier::external_body]
fn flock_native(fd: i32, request: FlockRequest) -> (r: Result<(), OsFailure>) {
    let arg = match request {
        FlockRequest::Shared => FlockArg::LockShared,
        FlockRequest::Exclusive => FlockArg::LockExclusive,
        FlockRequest::SharedNonblock => FlockArg::LockSharedNonblock,
        FlockRequest::ExclusiveNonblock => FlockArg::LockExclusiveNonblock,
        FlockRequest::Unlock => FlockArg::Unlock,
    };
    match nix::fcntl::flock(fd, arg) {
        Ok(()) => Ok(()),
        Err(e) => Err(OsFailure { code: e as i32, would_block: e == Errno::EWOULDBLOCK }),
    }
}

/// The backend's decision table for acquisition: native success is success; a
/// would-block failure when an immediate answer was requested is contention;
/// any other failure is an I/O error carrying the native code.
pub open spec fn lock_outcome_spec(outcome: Result<(), OsFailure>, immediate: bool) -> Result<
    (),
    FileLockError,
> {
    match outcome {
        Ok(()) => Ok(()),
        Err(failure) => if immediate && failure.would_block {
            Err(FileLockError::AlreadyLocked)
        } else {
            Err(FileLockError::Io(failure.code))
        },
    }
}

/// Translate what the native acquisition call reported into the crate's error
/// vocabulary, exactly as the decision table says, for every possible outcome.
pub fn map_lock_outcome(outcome: Result<(), OsFailure>, immediate: bool) -> (r: Result<
    (),
    FileLockError,
>)
    ensures
        r == lock_outcome_spec(outcome, immediate),
{
    match outcome {
        Ok(()) => Ok(()),
        Err(failure) => if immediate && failure.would_block {
            Err(FileLockError::AlreadyLocked)
        } else {
            Err(FileLockError::Io(failure.code))
        },
    }
}

/// The backend's decision table for release: native success is success and
/// any failure is an I/O error — release is never answered with contention.
pub open spec fn unlock_outcome_spec(outcome: Result<(), OsFailure>) -> Result<
    (),
    FileLockError,
> {
    match outcome {
        Ok(()) => Ok(()),
        Err(failure) => Err(FileLockError::Io(failure.code)),
    }
}

/// Translate what the native release call reported into the crate's error
/// vocabulary, exactly as the decision table says, for every possible outcome.
pub fn map_unlock_outcome(outcome: Result<(), OsFailure>) -> (r: Result<(), FileLockError>)
    ensures
        r == unlock_outcome_spec(outcome),
{
    match outcome {
        Ok(()) => Ok(()),
        Err(failure) => Err(FileLockError::Io(failure.code)),
    }
}

/// Acquire the advisory lock on a raw descriptor: select the native request
/// for the mode and blocking policy, issue it, and translate the answer.
///
/// The kernel decides whether the lock is granted, so success cannot be
/// promised here; but a blocking request is never answered with contention —
/// the caller is suspended instead.
pub fn lock_file(fd: i32, mode: FileLockMode, immediate: bool) -> (r: Result<(), FileLockError>)
    ensures
        !immediate ==> !is_already_locked(r),
{
    let request = lock_request(mode, immediate);
    let outcome = flock_native(fd, request);
    map_lock_outcome(outcome, immediate)
}

/// Release the advisory lock on a raw descriptor: issue the native unlock
/// request and translate the answer, which is never contention.
pub fn unlock_file(fd: i32) -> (r: Result<(), FileLockError>)
    ensures
        !is_already_locked(r),
{
    let outcome = flock_native(fd, FlockRequest::Unlock);
    map_unlock_outcome(outcome)
}

} // verus!
