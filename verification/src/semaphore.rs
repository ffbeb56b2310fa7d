//! A counting semaphore whose capacity can be changed while it is in use.
//!
//! Shrinking never revokes permits that are already out: the pool simply
//! stops replenishing above the new ceiling as permits come back, so a shrink
//! takes effect gradually. Growing tops the pool up at once and reports how
//! many suspended acquirers a driver should wake.

use vstd::prelude::*;

verus! {

/// At most this many waiters are woken by a single capacity increase, so one
/// large resize cannot release a thundering herd of wakeups at once.
pub const WAKE_BATCH: usize = 128;

/// Availability after the ceiling moves from `old_limit` to `new_limit`:
/// growing tops the pool up by the difference; shrinking leaves the pool
/// untouched.
pub open spec fn resized_availability(avail: int, old_limit: int, new_limit: int) -> int {
    if new_limit > old_limit {
        avail + (new_limit - old_limit)
    } else {
        avail
    }
}

/// Availability after one permit returns: one more, clamped to the ceiling,
/// so a release can never push the pool above the configured maximum.
pub open spec fn released_availability(avail: int, limit: int) -> int {
    if avail + 1 > limit {
        limit
    } else {
        avail + 1
    }
}

/// How many suspended acquirers a capacity change should wake: only a growth
/// of an exhausted pool wakes anyone, one per newly added permit and never
/// more than `WAKE_BATCH`.
pub open spec fn wake_budget(avail: int, old_limit: int, new_limit: int) -> int {
    if avail == 0 && new_limit > old_limit {
        if new_limit - old_limit < WAKE_BATCH {
            new_limit - old_limit
        } else {
            WAKE_BATCH as int
        }
    } else {
        0
    }
}

/// An availability count saturated at the largest representable value.
pub open spec fn saturated_at_usize(x: int) -> int {
    if x > usize::MAX {
        usize::MAX as int
    } else {
        x
    }
}

/// One unit of granted concurrency. A permit is produced only by a
/// successful acquisition and consumed by exactly one release, so it cannot
/// be duplicated or returned twice.
pub struct DynamicPermit {
    grant: (),
}

/// Gates concurrent execution to a mutable capacity: a configured ceiling
/// (`current_limit`) and a pool of free permits (`available_permits`).
#[derive(Debug)]
pub struct DynamicSemaphore {
    max_permits: usize,
    available_permits: usize,
}

impl DynamicSemaphore {
    /// The configured maximum number of outstanding permits.
    pub closed spec fn spec_limit(&self) -> usize {
        self.max_permits
    }

    /// The number of permits currently free.
    pub closed spec fn spec_available(&self) -> usize {
        self.available_permits
    }

    /// Creates a semaphore whose ceiling and free pool both hold
    /// `initial_permits`.
    pub fn new(initial_permits: usize) -> (s: Self)
        ensures
            s.spec_limit() == initial_permits,
            s.spec_available() == initial_permits,
    {
        DynamicSemaphore { max_permits: initial_permits, available_permits: initial_permits }
    }

    /// Moves the ceiling to `new_limit`. Growing adds the difference to the
    /// free pool (saturating at the counter's range) and returns how many
    /// suspended acquirers should be woken; shrinking changes only the
    /// ceiling and wakes nobody, converging as outstanding permits return.
    pub fn set_limit(&mut self, new_limit: usize) -> (woken: usize)
        ensures
            final(self).spec_limit() == new_limit,
            final(self).spec_available() == saturated_at_usize(
                resized_availability(
                    old(self).spec_available() as int,
                    old(self).spec_limit() as int,
                    new_limit as int,
                ),
            ),
            woken == wake_budget(
                old(self).spec_available() as int,
                old(self).spec_limit() as int,
                new_limit as int,
            ),
    {
        let old_limit = self.max_permits;
        self.max_permits = new_limit;
        if new_limit > old_limit {
            let diff = new_limit - old_limit;
            let old_available = self.available_permits;
            self.available_permits = old_available.saturating_add(diff);
            if old_available == 0 {
                if diff < WAKE_BATCH {
                    diff
                } else {
                    WAKE_BATCH
                }
            } else {
                0
            }
        } else {
            0
        }
    }

    /// Takes one permit from the free pool without suspending; returns
    /// nothing exactly when the pool is empty.
    pub fn try_acquire(&mut self) -> (permit: Option<DynamicPermit>)
        ensures
            final(self).spec_limit() == old(self).spec_limit(),
            old(self).spec_available() > 0 ==> permit is Some && final(self).spec_available()
                == old(self).spec_available() - 1,
            old(self).spec_available() == 0 ==> permit is None && *final(self) == *old(self),
    {
        if self.available_permits > 0 {
            self.available_permits = self.available_permits - 1;
            Some(DynamicPermit { grant: () })
        } else {
            None
        }
    }

    /// Returns one permit to the free pool, clamped to the ceiling, and says
    /// whether the pool was exhausted before — in which case a driver should
    /// wake exactly one suspended acquirer.
    pub fn release(&mut self, _permit: DynamicPermit) -> (woke: bool)
        ensures
            final(self).spec_limit() == old(self).spec_limit(),
            final(self).spec_available() == released_availability(
                old(self).spec_available() as int,
                old(self).spec_limit() as int,
            ),
            woke == (old(self).spec_available() == 0),
    {
        let was_exhausted = self.available_permits == 0;
        if self.available_permits >= self.max_permits {
            self.available_permits = self.max_permits;
        } else {
            self.available_permits = self.available_permits + 1;
        }
        was_exhausted
    }

    /// Best-effort view of the number of free permits.
    pub fn available_permits(&self) -> (n: usize)
        ensures
            n == self.spec_available(),
    {
        self.available_permits
    }

    /// The configured ceiling.
    pub fn current_limit(&self) -> (n: usize)
        ensures
            n == self.spec_limit(),
    {
        self.max_permits
    }
}

} // verus!
