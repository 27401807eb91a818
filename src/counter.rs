//! The shared request counter.
//!
//! Every request to the counting endpoint takes the lock around a
//! `RequestCounter`, calls `increment` once and reports what it returned.
//! The lock puts those calls in one sequence, so what the counter does under
//! any interleaving is what it does under a run of `increment` calls.

use vstd::prelude::*;

verus! {

/// A count of served requests that only ever grows, one at a time.
pub struct RequestCounter {
    count: u64,
}

impl View for RequestCounter {
    type V = nat;

    closed spec fn view(&self) -> nat {
        self.count as nat
    }
}

/// The value a counter holds after one more request was counted.
pub open spec fn next_count(c: nat) -> nat {
    c + 1
}

/// The value a counter that started at `start` holds after `n` serialized
/// increments.
pub open spec fn count_after(start: nat, n: nat) -> nat
    decreases n,
{
    if n == 0 {
        start
    } else {
        next_count(count_after(start, (n - 1) as nat))
    }
}

/// The values that `n` serialized increments of a counter that started at
/// `start` report, in the order in which they took the lock.
pub open spec fn reported_counts(start: nat, n: nat) -> Seq<nat>
    decreases n,
{
    if n == 0 {
        Seq::empty()
    } else {
        reported_counts(start, (n - 1) as nat).push(count_after(start, n))
    }
}

impl RequestCounter {
    /// A counter that has counted nothing yet.
    pub fn new() -> (r: RequestCounter)
        ensures
            r@ == 0,
    {
        RequestCounter { count: 0 }
    }

    /// The number of requests counted so far.
    pub fn value(&self) -> (r: u64)
        ensures
            r == self@,
    {
        self.count
    }

    /// Counts one more request and reports the new value.
    pub fn increment(&mut self) -> (r: u64)
        requires
            old(self)@ < u64::MAX,
        ensures
            final(self)@ == next_count(old(self)@),
            r == final(self)@,
    {
        self.count = self.count + 1;
        self.count
    }
}

proof fn lemma_count_after(start: nat, n: nat)
    ensures
        count_after(start, n) == start + n,
    decreases n,
{
    if n > 0 {
        lemma_count_after(start, (n - 1) as nat);
    }
}

proof fn lemma_reported_counts(start: nat, n: nat)
    ensures
        reported_counts(start, n).len() == n,
        forall|i: int| 0 <= i < n ==> reported_counts(start, n)[i] == start + i + 1,
    decreases n,
{
    if n > 0 {
        lemma_reported_counts(start, (n - 1) as nat);
        lemma_count_after(start, n);
    }
}

/// However `n` requests to the counting endpoint interleave, the lock runs
/// their increments one after another, and a counter that started at zero
/// then holds `n`.
pub proof fn lemma_final_count(n: nat)
    ensures
        count_after(0, n) == n,
{
    lemma_count_after(0, n);
}

/// The values reported to `n` requests to the counting endpoint, taken in
/// the order in which the requests held the lock, are exactly `1, 2, ..., n`:
/// none repeats and none is skipped.
pub proof fn lemma_reported_counts_exact(n: nat)
    ensures
        reported_counts(0, n).len() == n,
        forall|i: int| 0 <= i < n ==> reported_counts(0, n)[i] == i + 1,
        reported_counts(0, n).no_duplicates(),
        forall|v: nat| 1 <= v <= n ==> reported_counts(0, n).contains(v),
{
    lemma_reported_counts(0, n);
    let s = reported_counts(0, n);
    assert forall|v: nat| 1 <= v <= n implies s.contains(v) by {
        assert(s[v - 1] == v);
    }
}

} // verus!
