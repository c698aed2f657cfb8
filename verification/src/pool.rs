use vstd::prelude::*;

verus! {

/// Default width of the ingestion worker pool: at most this many units of
/// work may be past the decode stage at once.
pub const DEFAULT_POOL_WIDTH: u32 = 12;

/// Model of the bounded-concurrency pool that schedules the per-file units
/// of one batch.  `active` counts the units currently in flight, `peak`
/// records the high-water mark; well-formedness bounds both by the
/// configured limit, so the number of simultaneously active units never
/// exceeds it, at any point of any run built from these operations.
#[derive(Clone, Copy, Debug, PartialEq, Eq, Structural)]
pub struct WorkerPool {
    pub limit: u32,
    pub active: u32,
    pub peak: u32,
}

impl WorkerPool {
    /// The concurrency bound, as an invariant every operation preserves.
    pub open spec fn wf(self) -> bool {
        &&& 1 <= self.limit
        &&& self.active <= self.limit
        &&& self.peak <= self.limit
    }

    pub fn new(limit: u32) -> (pool: WorkerPool)
        requires
            1 <= limit,
        ensures
            pool.wf(),
            pool.limit == limit,
            pool.active == 0,
            pool.peak == 0,
    {
        WorkerPool { limit, active: 0, peak: 0 }
    }

    /// Admits one unit when a slot is free, and otherwise admits nothing:
    /// the only way `active` grows, so it can never pass the limit.
    pub fn try_start(&mut self) -> (started: bool)
        requires
            old(self).wf(),
        ensures
            final(self).wf(),
            final(self).limit == old(self).limit,
            started <==> old(self).active < old(self).limit,
            started ==> final(self).active == old(self).active + 1
                && final(self).peak >= final(self).active
                && final(self).peak >= old(self).peak,
            !started ==> *final(self) == *old(self),
    {
        if self.active < self.limit {
            self.active = self.active + 1;
            if self.active > self.peak {
                self.peak = self.active;
            }
            true
        } else {
            false
        }
    }

    /// Retires one in-flight unit.
    pub fn finish(&mut self)
        requires
            old(self).wf(),
            old(self).active >= 1,
        ensures
            final(self).wf(),
            final(self).limit == old(self).limit,
            final(self).peak == old(self).peak,
            final(self).active == old(self).active - 1,
    {
        self.active = self.active - 1;
    }

    /// The batch is drained: every admitted unit has retired.
    pub fn idle(&self) -> (quiet: bool)
        ensures
            quiet == (self.active == 0),
    {
        self.active == 0
    }
}

/// The concurrency bound itself: in a well-formed pool neither the current
/// number of in-flight units nor the high-water mark ever exceeds the
/// configured limit.
pub proof fn lemma_concurrency_bound(pool: WorkerPool)
    requires
        pool.wf(),
    ensures
        pool.active <= pool.limit,
        pool.peak <= pool.limit,
{
}

} // verus!
