//! The meaning of the two lock modes.
//!
//! The lock itself lives in the kernel's lock table: a record of which handle
//! holds which mode on one file. This module states that table's arbitration
//! rules — which requests are compatible with which holdings, when an
//! acquisition can be granted, and what acquiring and releasing do to the
//! table — and proves the guarantees the crate's interface rests on: shared
//! holders coexist, an exclusive holder excludes everyone, a conflicting
//! non-blocking attempt is answered with contention, and releasing makes the
//! file immediately acquirable again.

use vstd::prelude::*;

use crate::{FileLockError, FileLockMode};

verus! {

/// Whether a requested mode can be granted beside one already-held mode:
/// only shared locks tolerate each other; an exclusive lock, requested or
/// held, conflicts with everything else.
pub open spec fn compatible(requested: FileLockMode, held: FileLockMode) -> bool {
    requested is Shared && held is Shared
}

/// Whether the table can grant `handle` the lock in `mode`: every lock held
/// by a different handle must be compatible with the request. (The handle's
/// own prior holding is not consulted: the interface is not reentrant, and a
/// handle that locks twice without unlocking is the caller's misuse.)
pub open spec fn can_acquire(
    held: Map<u64, FileLockMode>,
    handle: u64,
    mode: FileLockMode,
) -> bool {
    forall|h: u64| held.dom().contains(h) && h != handle ==> compatible(mode, held[h])
}

/// The table after `handle` acquires the lock in `mode`.
pub open spec fn acquire(
    held: Map<u64, FileLockMode>,
    handle: u64,
    mode: FileLockMode,
) -> Map<u64, FileLockMode> {
    held.insert(handle, mode)
}

/// The table after `handle` releases whatever it held; releasing a handle
/// that holds nothing leaves the table as it was.
pub open spec fn release(held: Map<u64, FileLockMode>, handle: u64) -> Map<u64, FileLockMode> {
    held.remove(handle)
}

/// What a non-blocking acquisition attempt is answered with: success when the
/// table can grant it, contention otherwise — never anything else.
pub open spec fn try_acquire_outcome(
    held: Map<u64, FileLockMode>,
    handle: u64,
    mode: FileLockMode,
) -> Result<(), FileLockError> {
    if can_acquire(held, handle, mode) {
        Ok(())
    } else {
        Err(FileLockError::AlreadyLocked)
    }
}

/// Two shared acquisitions from different handles both succeed: a handle that
/// may take the shared lock still may after any other handle has taken it.
pub proof fn shared_locks_coexist(held: Map<u64, FileLockMode>, h1: u64, h2: u64)
    requires
        h1 != h2,
        can_acquire(held, h1, FileLockMode::Shared),
        can_acquire(held, h2, FileLockMode::Shared),
    ensures
        try_acquire_outcome(held, h1, FileLockMode::Shared) == Ok::<(), FileLockError>(()),
        try_acquire_outcome(acquire(held, h1, FileLockMode::Shared), h2, FileLockMode::Shared)
            == Ok::<(), FileLockError>(()),
{
    let after = acquire(held, h1, FileLockMode::Shared);
    assert forall|h: u64| after.dom().contains(h) && h != h2 implies compatible(
        FileLockMode::Shared,
        after[h],
    ) by {
        if h != h1 {
            assert(held.dom().contains(h));
        }
    }
}

/// An exclusive acquisition can be granted exactly when no other handle holds
/// any lock on the file, shared or exclusive.
pub proof fn exclusive_needs_sole_access(held: Map<u64, FileLockMode>, handle: u64)
    ensures
        can_acquire(held, handle, FileLockMode::Exclusive) <==> (forall|h: u64|
            held.dom().contains(h) ==> h == handle),
{
    if can_acquire(held, handle, FileLockMode::Exclusive) {
        assert forall|h: u64| held.dom().contains(h) implies h == handle by {
            if h != handle {
                assert(compatible(FileLockMode::Exclusive, held[h]));
            }
        }
    }
}

/// A non-blocking attempt that conflicts with an existing holding is answered
/// with contention, and with nothing else.
pub proof fn conflicting_attempt_already_locked(
    held: Map<u64, FileLockMode>,
    handle: u64,
    other: u64,
    mode: FileLockMode,
)
    requires
        other != handle,
        held.dom().contains(other),
        !compatible(mode, held[other]),
    ensures
        try_acquire_outcome(held, handle, mode) == Err::<(), FileLockError>(
            FileLockError::AlreadyLocked,
        ),
{
}

/// A shared lock blocks a later conflicting exclusive attempt from another
/// handle, and once the shared lock is released the same exclusive attempt
/// succeeds.
pub proof fn shared_blocks_exclusive_until_released(
    held: Map<u64, FileLockMode>,
    h1: u64,
    h2: u64,
)
    requires
        h1 != h2,
        held.dom().contains(h1),
        held[h1] is Shared,
        forall|h: u64| held.dom().contains(h) ==> h == h1,
    ensures
        try_acquire_outcome(held, h2, FileLockMode::Exclusive) == Err::<(), FileLockError>(
            FileLockError::AlreadyLocked,
        ),
        try_acquire_outcome(release(held, h1), h2, FileLockMode::Exclusive) == Ok::<
            (),
            FileLockError,
        >(()),
{
    assert(!compatible(FileLockMode::Exclusive, held[h1]));
}

/// The symmetric case: an exclusive lock blocks a later shared attempt from
/// another handle, and once the exclusive lock is released the same shared
/// attempt succeeds.
pub proof fn exclusive_blocks_shared_until_released(
    held: Map<u64, FileLockMode>,
    h1: u64,
    h2: u64,
)
    requires
        h1 != h2,
        held.dom().contains(h1),
        held[h1] is Exclusive,
        forall|h: u64| held.dom().contains(h) ==> h == h1,
    ensures
        try_acquire_outcome(held, h2, FileLockMode::Shared) == Err::<(), FileLockError>(
            FileLockError::AlreadyLocked,
        ),
        try_acquire_outcome(release(held, h1), h2, FileLockMode::Shared) == Ok::<
            (),
            FileLockError,
        >(()),
{
    assert(!compatible(FileLockMode::Shared, held[h1]));
}

/// Releasing a handle's lock makes the file immediately acquirable by another
/// handle, in whatever mode the remaining holders permit: once every holder
/// other than the released one is compatible with the request, the attempt
/// after the release succeeds.
pub proof fn release_enables_acquisition(
    held: Map<u64, FileLockMode>,
    released: u64,
    handle: u64,
    mode: FileLockMode,
)
    requires
        handle != released,
        forall|h: u64|
            held.dom().contains(h) && h != released && h != handle ==> compatible(mode, held[h]),
    ensures
        can_acquire(release(held, released), handle, mode),
        try_acquire_outcome(release(held, released), handle, mode) == Ok::<(), FileLockError>(()),
{
}

/// Releasing a handle that holds no lock is harmless: the table is unchanged,
/// so no holder gains or loses anything.
pub proof fn release_without_holding_is_harmless(held: Map<u64, FileLockMode>, handle: u64)
    requires
        !held.dom().contains(handle),
    ensures
        release(held, handle) == held,
{
    assert(release(held, handle) =~= held);
}

/// Whether a requested mode can be granted beside one already-held mode.
pub fn is_compatible(requested: FileLockMode, held: FileLockMode) -> (r: bool)
    ensures
        r == compatible(requested, held),
{
    match (requested, held) {
        (FileLockMode::Shared, FileLockMode::Shared) => true,
        _ => false,
    }
}

/// The lock table a run of handle/mode holdings stands for, read from left to
/// right.
pub open spec fn holdings_map(s: Seq<(u64, FileLockMode)>) -> Map<u64, FileLockMode>
    decreases s.len(),
{
    if s.len() == 0 {
        Map::empty()
    } else {
        holdings_map(s.drop_last()).insert(s.last().0, s.last().1)
    }
}

/// No handle occurs twice in the run.
pub open spec fn unique_handles(s: Seq<(u64, FileLockMode)>) -> bool {
    forall|i: int, j: int| 0 <= i < j < s.len() ==> s[i].0 != s[j].0
}

/// A handle is in the table exactly when some entry of the run carries it.
proof fn lemma_holdings_map_contains(s: Seq<(u64, FileLockMode)>, h: u64)
    ensures
        holdings_map(s).dom().contains(h) <==> exists|i: int| 0 <= i < s.len() && s[i].0 == h,
    decreases s.len(),
{
    if s.len() > 0 {
        lemma_holdings_map_contains(s.drop_last(), h);
        if holdings_map(s).dom().contains(h) {
            if h != s.last().0 {
                let i = choose|i: int| 0 <= i < s.drop_last().len() && s.drop_last()[i].0 == h;
                assert(s[i].0 == h);
            } else {
                assert(s[s.len() - 1].0 == h);
            }
        }
        if exists|i: int| 0 <= i < s.len() && s[i].0 == h {
            let i = choose|i: int| 0 <= i < s.len() && s[i].0 == h;
            if i < s.len() - 1 {
                assert(s.drop_last()[i].0 == h);
            }
        }
    }
}

/// In a run without repeated handles, the table maps each entry's handle to
/// that entry's mode.
proof fn lemma_holdings_map_value(s: Seq<(u64, FileLockMode)>, i: int)
    requires
        unique_handles(s),
        0 <= i < s.len(),
    ensures
        holdings_map(s).dom().contains(s[i].0),
        holdings_map(s)[s[i].0] == s[i].1,
    decreases s.len(),
{
    if i < s.len() - 1 {
        assert(s.drop_last()[i] == s[i]);
        lemma_holdings_map_value(s.drop_last(), i);
        assert(s[i].0 != s.last().0);
    }
}

/// Removing one entry of a run without repeated handles removes exactly that
/// entry's handle from the table.
proof fn lemma_holdings_map_remove(s: Seq<(u64, FileLockMode)>, i: int)
    requires
        unique_handles(s),
        0 <= i < s.len(),
    ensures
        holdings_map(s.remove(i)) == holdings_map(s).remove(s[i].0),
    decreases s.len(),
{
    if i == s.len() - 1 {
        assert(s.remove(i) =~= s.drop_last());
        lemma_holdings_map_contains(s.drop_last(), s[i].0);
        assert(forall|j: int| 0 <= j < s.drop_last().len() ==> s.drop_last()[j].0 != s[i].0);
        assert(!holdings_map(s.drop_last()).dom().contains(s[i].0));
        assert(holdings_map(s.drop_last()).insert(s.last().0, s.last().1).remove(s[i].0)
            =~= holdings_map(s.drop_last()));
    } else {
        assert(s.remove(i).drop_last() =~= s.drop_last().remove(i));
        assert(s.remove(i).last() == s.last());
        lemma_holdings_map_remove(s.drop_last(), i);
        assert(s.drop_last()[i] == s[i]);
        assert(s[i].0 != s.last().0);
        assert(holdings_map(s.drop_last()).remove(s[i].0).insert(s.last().0, s.last().1)
            =~= holdings_map(s.drop_last()).insert(s.last().0, s.last().1).remove(s[i].0));
    }
}

/// A tracked copy of the kernel's per-file lock table: which handle holds
/// which mode. The kernel keeps this state itself and the crate's lock
/// operations never consult it; the table makes the arbitration rules above
/// executable, so that they can be exercised as well as proved.
pub struct LockTable {
    holders: Vec<(u64, FileLockMode)>,
}

impl LockTable {
    /// The holdings this table records, as a map from handle to held mode.
    pub closed spec fn view(&self) -> Map<u64, FileLockMode> {
        holdings_map(self.holders@)
    }

    /// The table never records two holdings for one handle.
    pub closed spec fn wf(&self) -> bool {
        unique_handles(self.holders@)
    }

    /// An empty table: no handle holds anything.
    pub fn new() -> (t: LockTable)
        ensures
            t.wf(),
            t@ == Map::<u64, FileLockMode>::empty(),
    {
        LockTable { holders: Vec::new() }
    }

    /// A non-blocking acquisition attempt: granted — and recorded — exactly
    /// when every lock held by a different handle is compatible with the
    /// request; answered with contention, and the table left unchanged,
    /// otherwise. The caller must not re-lock a handle that already holds:
    /// the interface is not reentrant.
    pub fn try_acquire(&mut self, handle: u64, mode: FileLockMode) -> (r: Result<
        (),
        FileLockError,
    >)
        requires
            old(self).wf(),
            !old(self)@.dom().contains(handle),
        ensures
            final(self).wf(),
            r == try_acquire_outcome(old(self)@, handle, mode),
            can_acquire(old(self)@, handle, mode) ==> final(self)@ == acquire(
                old(self)@,
                handle,
                mode,
            ),
            !can_acquire(old(self)@, handle, mode) ==> final(self)@ == old(self)@,
    {
        let n = self.holders.len();
        let mut i: usize = 0;
        while i < n
            invariant
                *self == *old(self),
                self.wf(),
                !self@.dom().contains(handle),
                n == self.holders@.len(),
                0 <= i <= n,
                forall|j: int|
                    0 <= j < i ==> self.holders@[j].0 == handle || compatible(
                        mode,
                        self.holders@[j].1,
                    ),
            decreases n - i,
        {
            let (h, m) = self.holders[i];
            if h != handle && !is_compatible(mode, m) {
                proof {
                    lemma_holdings_map_contains(self.holders@, h);
                    lemma_holdings_map_value(self.holders@, i as int);
                    assert(!can_acquire(self@, handle, mode));
                }
                return Err(FileLockError::AlreadyLocked);
            }
            i += 1;
        }
        proof {
            assert forall|h2: u64| self@.dom().contains(h2) && h2 != handle implies compatible(
                mode,
                self@[h2],
            ) by {
                lemma_holdings_map_contains(self.holders@, h2);
                let j = choose|j: int| 0 <= j < self.holders@.len() && self.holders@[j].0 == h2;
                lemma_holdings_map_value(self.holders@, j);
            }
            assert(can_acquire(self@, handle, mode));
        }
        let ghost before = self.holders@;
        self.holders.push((handle, mode));
        proof {
            assert(self.holders@.drop_last() =~= before);
            assert(self.holders@.last() == (handle, mode));
            assert(self@ == holdings_map(before).insert(handle, mode));
            lemma_holdings_map_contains(before, handle);
            assert(unique_handles(self.holders@));
        }
        Ok(())
    }

    /// Release whatever this handle holds: its holding, if any, leaves the
    /// table and nothing else changes. Releasing a handle that holds nothing
    /// is not an error — the answer is success either way.
    pub fn release(&mut self, handle: u64) -> (r: Result<(), FileLockError>)
        requires
            old(self).wf(),
        ensures
            final(self).wf(),
            r == Ok::<(), FileLockError>(()),
            final(self)@ == release(old(self)@, handle),
    {
        let n = self.holders.len();
        let mut i: usize = 0;
        while i < n
            invariant
                *self == *old(self),
                self.wf(),
                n == self.holders@.len(),
                0 <= i <= n,
                forall|j: int| 0 <= j < i ==> self.holders@[j].0 != handle,
            decreases n - i,
        {
            if self.holders[i].0 == handle {
                proof {
                    lemma_holdings_map_remove(self.holders@, i as int);
                    assert forall|a: int, b: int|
                        0 <= a < b < self.holders@.remove(i as int).len() implies self.holders@.remove(
                        i as int,
                    )[a].0 != self.holders@.remove(i as int)[b].0 by {
                        assert(unique_handles(self.holders@));
                    }
                }
                self.holders.remove(i);
                return Ok(());
            }
            i += 1;
        }
        proof {
            lemma_holdings_map_contains(self.holders@, handle);
            assert(!self@.dom().contains(handle));
            assert(self@.remove(handle) =~= self@);
        }
        Ok(())
    }

    /// The mode this handle currently holds, if any.
    pub fn holder_mode(&self, handle: u64) -> (r: Option<FileLockMode>)
        requires
            self.wf(),
        ensures
            self@.dom().contains(handle) ==> r == Some(self@[handle]),
            !self@.dom().contains(handle) ==> r is None,
    {
        let n = self.holders.len();
        let mut i: usize = 0;
        while i < n
            invariant
                self.wf(),
                n == self.holders@.len(),
                0 <= i <= n,
                forall|j: int| 0 <= j < i ==> self.holders@[j].0 != handle,
            decreases n - i,
        {
            let (h, m) = self.holders[i];
            if h == handle {
                proof {
                    lemma_holdings_map_value(self.holders@, i as int);
                }
                return Some(m);
            }
            i += 1;
        }
        proof {
            lemma_holdings_map_contains(self.holders@, handle);
        }
        None
    }
}

} // verus!
