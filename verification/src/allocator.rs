//! Hands out record identifiers in strictly increasing order.
use vstd::prelude::*;

verus! {

/// The identifier allocator. It remembers the last identifier that was
/// committed; the next one to hand out is one above it.
#[derive(Clone, Debug, PartialEq, Eq)]
pub struct IdAllocator {
    base: i32,
}

/// The identifier that is proposed when `base` was committed last.
pub open spec fn next_after(base: int) -> int {
    base + 1
}

/// The base after `n` creations succeeded one after another.
pub open spec fn base_after(base: int, n: nat) -> int
    decreases n,
{
    if n == 0 {
        base
    } else {
        next_after(base_after(base, (n - 1) as nat))
    }
}

/// The identifier that creation number `k` (counted from zero) of a run of
/// successful creations receives.
pub open spec fn issued(base: int, k: nat) -> int {
    next_after(base_after(base, k))
}

impl IdAllocator {
    /// The last committed identifier.
    pub closed spec fn base(&self) -> int {
        self.base as int
    }

    /// Whether no identifier is left above the base.
    pub open spec fn spec_exhausted(&self) -> bool {
        self.base() >= i32::MAX
    }

    /// An allocator whose base is the largest identifier in the store, or
    /// zero where the store is empty.
    pub fn new(max_id: Option<i32>) -> (a: IdAllocator)
        ensures
            a.base() == match max_id {
                Some(m) => m as int,
                None => 0,
            },
    {
        match max_id {
            Some(m) => IdAllocator { base: m },
            None => IdAllocator { base: 0 },
        }
    }

    /// The last committed identifier.
    pub fn base_id(&self) -> (b: i32)
        ensures
            b == self.base(),
    {
        self.base
    }

    /// Whether no identifier is left above the base.
    pub fn exhausted(&self) -> (r: bool)
        ensures
            r == self.spec_exhausted(),
    {
        self.base == i32::MAX
    }

    /// The identifier for the creation in progress. The base stays as it is
    /// until `commit`.
    pub fn next(&self) -> (id: i32)
        requires
            !self.spec_exhausted(),
        ensures
            id == next_after(self.base()),
    {
        self.base + 1
    }

    /// Records that the record with the proposed identifier was written.
    pub fn commit(&mut self)
        requires
            !old(self).spec_exhausted(),
        ensures
            final(self).base() == next_after(old(self).base()),
    {
        self.base = self.base + 1;
    }
}

/// After `n` successful creations the base has moved up by exactly `n`.
pub proof fn law_base_counts_creations(base: int, n: nat)
    ensures
        base_after(base, n) == base + n,
    decreases n,
{
    if n > 0 {
        law_base_counts_creations(base, (n - 1) as nat);
    }
}

/// Successive successful creations receive the identifiers `base + 1`,
/// `base + 2`, and so on: each is one above the one before, so they rise
/// strictly, leave no gap and never repeat, and the base afterwards is the
/// largest identifier handed out.
pub proof fn law_sequential_ids(base: int, n: nat)
    ensures
        forall|k: nat| k < n ==> #[trigger] issued(base, k) == base + 1 + k,
        forall|k: nat| k + 1 < n ==> issued(base, k + 1) == #[trigger] issued(base, k) + 1,
        forall|i: nat, j: nat| i < j < n ==> #[trigger] issued(base, i) < #[trigger] issued(base, j),
        forall|k: nat| k < n ==> #[trigger] issued(base, k) <= base_after(base, n),
        n > 0 ==> base_after(base, n) == issued(base, (n - 1) as nat),
{
    assert forall|k: nat| true implies #[trigger] issued(base, k) == base + 1 + k by {
        law_base_counts_creations(base, k);
    }
    law_base_counts_creations(base, n);
}

} // verus!
