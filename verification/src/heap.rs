use vstd::prelude::*;

verus! {

/// A read-only snapshot of the allocator's heap counters: total capacity,
/// currently free bytes, and the minimum free ever observed since start.
///
/// Values can only be built through [`HeapStats::new`], which rejects
/// inconsistent counter readings, so every snapshot satisfies [`HeapStats::wf`].
#[derive(Clone, Copy, Debug, PartialEq, Eq, Structural)]
pub struct HeapStats {
    total: u32,
    free: u32,
    min_free: u32,
}

/// Why a set of heap counter readings was rejected.
#[derive(Clone, Copy, Debug, PartialEq, Eq, Structural)]
pub enum HeapError {
    /// The free counter exceeded the total capacity.
    FreeExceedsTotal,
    /// The minimum-ever-free counter exceeded the current free counter.
    MinFreeExceedsFree,
}

impl HeapStats {
    /// Consistency of the counters: `min_free <= free <= total`.
    pub closed spec fn wf(self) -> bool {
        self.min_free <= self.free && self.free <= self.total
    }

    pub closed spec fn spec_total(self) -> u32 {
        self.total
    }

    pub closed spec fn spec_free(self) -> u32 {
        self.free
    }

    pub closed spec fn spec_min_free(self) -> u32 {
        self.min_free
    }

    /// Bytes in use: total capacity minus currently free bytes.
    pub closed spec fn spec_used(self) -> int {
        self.total - self.free
    }

    /// Validates one reading of the three heap counters.
    ///
    /// Succeeds exactly when the counters are consistent
    /// (`min_free <= free <= total`); each inconsistency yields its own error,
    /// with the free-versus-total check made first.
    pub fn new(total: u32, free: u32, min_free: u32) -> (r: Result<HeapStats, HeapError>)
        ensures
            min_free <= free && free <= total ==> (r matches Ok(s)
                && s.spec_total() == total
                && s.spec_free() == free
                && s.spec_min_free() == min_free),
            free > total ==> r == Err::<HeapStats, HeapError>(HeapError::FreeExceedsTotal),
            free <= total && min_free > free ==> r == Err::<HeapStats, HeapError>(
                HeapError::MinFreeExceedsFree,
            ),
            r matches Ok(s) ==> s.wf(),
    {
        if free > total {
            Err(HeapError::FreeExceedsTotal)
        } else if min_free > free {
            Err(HeapError::MinFreeExceedsFree)
        } else {
            Ok(HeapStats { total, free, min_free })
        }
    }

    pub fn total(&self) -> (r: u32)
        ensures
            r == self.spec_total(),
    {
        self.total
    }

    pub fn free(&self) -> (r: u32)
        ensures
            r == self.spec_free(),
    {
        self.free
    }

    pub fn min_free(&self) -> (r: u32)
        ensures
            r == self.spec_min_free(),
    {
        self.min_free
    }

    /// Bytes in use for this snapshot: `total - free`, which cannot underflow
    /// on a well-formed snapshot.
    pub fn used(&self) -> (r: u32)
        requires
            self.wf(),
        ensures
            r == self.spec_used(),
            r == self.spec_total() - self.spec_free(),
    {
        self.total - self.free
    }
}

/// Heap-usage identity: on every well-formed snapshot, `used = total - free`
/// (equivalently `used + free = total`), and `min_free <= free <= total`.
pub proof fn lemma_heap_usage_identity(s: HeapStats)
    requires
        s.wf(),
    ensures
        s.spec_used() == s.spec_total() - s.spec_free(),
        s.spec_used() + s.spec_free() == s.spec_total(),
        s.spec_min_free() <= s.spec_free() <= s.spec_total(),
{
}

} // verus!
