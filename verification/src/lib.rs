//! Advisory (cooperative) file locking.
//!
//! Independent processes coordinate access to a shared file through voluntary
//! shared/exclusive locks; processes that do not take part can still read and
//! write the file directly. The lock itself is invisible state kept by the
//! operating system's kernel, keyed by the underlying open file; this crate
//! maps the two semantic lock modes onto the native locking facility and
//! normalizes its failure codes into one small error vocabulary.

use vstd::prelude::*;

pub mod semantics;
pub mod unix;
pub mod windows;

verus! {

/// How an advisory lock is requested: shared (many concurrent readers) or
/// exclusive (a single writer).
///
/// An exclusive request conflicts with any other lock held by another handle;
/// a shared request conflicts only with an exclusive lock held elsewhere and
/// is compatible with other shared locks.
#[derive(Copy, Clone, PartialEq, Eq, Debug, Structural)]
pub enum FileLockMode {
    /// Obtain an exclusive file lock.
    Exclusive,
    /// Obtain a shared file lock.
    Shared,
}

/// Why a lock operation failed. This is the complete failure vocabulary:
/// contention (surfaced only by the non-blocking path), or any other native
/// failure, carried as its raw OS error code.
#[derive(Copy, Clone, PartialEq, Eq, Debug, Structural)]
pub enum FileLockError {
    /// The file is already locked by another holder.
    AlreadyLocked,
    /// The error occurred during I/O operations; holds the raw OS error code.
    Io(i32),
}

/// True when a lock operation reported contention rather than success or a
/// genuine I/O failure.
pub open spec fn is_already_locked(r: Result<(), FileLockError>) -> bool {
    r == Err::<(), FileLockError>(FileLockError::AlreadyLocked)
}

/// Anything that can carry an advisory file lock.
///
/// An advisory lock provides a mutual-exclusion mechanism among processes
/// which explicitly acquire and release the lock. Processes that are not
/// aware of the lock will ignore it.
///
/// An implementor supplies only the raw descriptor of its open file — the one
/// capability the lock operations need; the provided methods do the rest,
/// through the platform backend compiled into this crate.
///
/// Locks are allowed only on files, not directories.
pub trait LockableFile {
    /// The raw OS-level descriptor of the open file the lock rides on.
    fn raw_descriptor(&self) -> i32;

    /// Acquire the advisory file lock.
    ///
    /// `lock` is blocking; it will block the current thread until it succeeds
    /// or errors. It never reports contention: the kernel suspends the caller
    /// until the lock is granted, so the only failure is a genuine I/O error.
    fn lock(&self, file_lock_mode: FileLockMode) -> (r: Result<(), FileLockError>)
        ensures
            !is_already_locked(r),
    {
        unix::lock_file(self.raw_descriptor(), file_lock_mode, false)
    }

    /// Try to acquire the advisory file lock.
    ///
    /// `try_lock` returns immediately: success if granted, `AlreadyLocked` if
    /// another holder has a conflicting lock, or `Io` for any other native
    /// failure. Which of these comes back is decided by the kernel's lock
    /// table, not by this layer.
    fn try_lock(&self, file_lock_mode: FileLockMode) -> (r: Result<(), FileLockError>) {
        unix::lock_file(self.raw_descriptor(), file_lock_mode, true)
    }

    /// Unlock this advisory file lock.
    ///
    /// Releasing never reports contention; the only failure is a genuine I/O
    /// error. Unlocking when no lock is held is not an error on either
    /// platform backend: the POSIX kernel answers such a release with
    /// success, and the Windows backend swallows the native not-locked code.
    fn unlock(&self) -> (r: Result<(), FileLockError>)
        ensures
            !is_already_locked(r),
    {
        unix::unlock_file(self.raw_descriptor())
    }
}

impl LockableFile for i32 {
    /// A raw file descriptor stands for itself.
    fn raw_descriptor(&self) -> i32 {
        *self
    }
}

/// An advisory lock handle: one open file (by its raw descriptor) together
/// with the lock mode chosen at construction. The mode never changes
/// afterwards; the handle keeps no record of whether the lock is currently
/// held — the kernel's own lock table is the sole source of truth.
pub struct AdvisoryFileLock {
    fd: i32,
    mode: FileLockMode,
}

impl AdvisoryFileLock {
    /// The raw descriptor this handle locks.
    pub closed spec fn fd_spec(&self) -> i32 {
        self.fd
    }

    /// The mode this handle was constructed with.
    pub closed spec fn mode_spec(&self) -> FileLockMode {
        self.mode
    }

    /// Wrap an already-open file's raw descriptor together with the mode in
    /// which it is to be locked.
    pub fn new(fd: i32, mode: FileLockMode) -> (h: AdvisoryFileLock)
        ensures
            h.fd_spec() == fd,
            h.mode_spec() == mode,
    {
        AdvisoryFileLock { fd, mode }
    }

    /// True when this handle was constructed for exclusive locking.
    pub fn is_exclusive(&self) -> (r: bool)
        ensures
            r == (self.mode_spec() is Exclusive),
    {
        match self.mode {
            FileLockMode::Exclusive => true,
            FileLockMode::Shared => false,
        }
    }

    /// Acquire the lock in this handle's mode, blocking until granted; never
    /// reports contention.
    pub fn lock_impl(&mut self) -> (r: Result<(), FileLockError>)
        ensures
            *final(self) == *old(self),
            !is_already_locked(r),
    {
        unix::lock_file(self.fd, self.mode, false)
    }

    /// Try to acquire the lock in this handle's mode without blocking;
    /// reports `AlreadyLocked` when another holder conflicts.
    pub fn try_lock_impl(&mut self) -> (r: Result<(), FileLockError>)
        ensures
            *final(self) == *old(self),
    {
        unix::lock_file(self.fd, self.mode, true)
    }

    /// Release the lock this handle holds; never reports contention.
    pub fn unlock_impl(&mut self) -> (r: Result<(), FileLockError>)
        ensures
            *final(self) == *old(self),
            !is_already_locked(r),
    {
        unix::unlock_file(self.fd)
    }
}

} // verus!
