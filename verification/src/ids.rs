//! Request identifiers: a counter that hands out one identifier per logical
//! request.

use vstd::prelude::*;

verus! {

/// Hands out request identifiers, starting at zero and counting upwards.
pub struct IdAllocator {
    next: u64,
}

/// The counter value that follows `n`: one more, falling back to zero after
/// the largest 64-bit value.
pub open spec fn successor(n: u64) -> u64 {
    if n == u64::MAX {
        0
    } else {
        (n + 1) as u64
    }
}

/// The identifier returned by the call that follows `k` earlier calls on an
/// allocator whose counter stood at `start`.
pub open spec fn nth_id(start: u64, k: nat) -> u64
    decreases k,
{
    if k == 0 {
        start
    } else {
        nth_id(successor(start), (k - 1) as nat)
    }
}

impl IdAllocator {
    /// The identifier that the next call of `next_id` returns.
    pub closed spec fn upcoming(&self) -> u64 {
        self.next
    }

    /// A fresh allocator; its first identifier is zero.
    pub fn new() -> (allocator: Self)
        ensures
            allocator.upcoming() == 0,
    {
        IdAllocator { next: 0 }
    }

    /// Returns the current counter value and advances the counter. While the
    /// counter has not reached the largest 64-bit value, every later
    /// identifier is strictly greater than the one returned here.
    pub fn next_id(&mut self) -> (id: u64)
        ensures
            id == old(self).upcoming(),
            final(self).upcoming() == successor(id),
            id < u64::MAX ==> final(self).upcoming() > id,
    {
        let id: u64 = self.next;
        self.next = id.wrapping_add(1);
        id
    }
}

/// Without wrap-around the `k`-th identifier is the start value plus `k`.
pub proof fn lemma_nth_id_is_offset(start: u64, k: nat)
    requires
        start + k <= u64::MAX,
    ensures
        nth_id(start, k) == start + k,
    decreases k,
{
    if k > 0 {
        lemma_nth_id_is_offset(successor(start), (k - 1) as nat);
    }
}

/// Identifiers are strictly increasing, hence pairwise distinct: of two calls
/// on one allocator, the later one returns the greater identifier, as long as
/// the counter does not pass the largest 64-bit value in between.
pub proof fn lemma_ids_strictly_increasing(start: u64, i: nat, j: nat)
    requires
        i < j,
        start + j <= u64::MAX,
    ensures
        nth_id(start, i) < nth_id(start, j),
{
    lemma_nth_id_is_offset(start, i);
    lemma_nth_id_is_offset(start, j);
}

} // verus!
