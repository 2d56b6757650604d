//! What holds of a lazy cell over several accesses.
//!
//! Each law speaks of the states that the contracts of `read` and `read_mut`
//! describe, so it holds of every sequence of calls those contracts admit.

use vstd::prelude::*;

use crate::state::{producer_runs, LazyInner};

verus! {

/// Along any states with no placeholder in them, the producer runs no more
/// often than the sequence has steps that start from a waiting producer.
proof fn lemma_runs_without_waiting<T, F: FnOnce() -> T>(states: Seq<LazyInner<T, F>>)
    requires
        forall|i: int| 0 <= i < states.len() ==> #[trigger] states[i] is Init,
    ensures
        producer_runs(states) == 0,
    decreases states.len(),
{
    if states.len() >= 2 {
        lemma_runs_without_waiting(states.drop_first());
    }
}

/// The producer runs at most once: along any sequence of accesses to a fresh
/// cell it runs not at all when there is no access, and exactly once
/// otherwise.
pub proof fn lemma_producer_runs_at_most_once<T, F: FnOnce() -> T>(
    states: Seq<LazyInner<T, F>>,
)
    requires
        states.len() >= 1,
        states[0] is Uninit,
        forall|i: int| 0 <= i < states.len() - 1 ==> #[trigger] states[i].accesses_to(states[i + 1]),
    ensures
        producer_runs(states) == if states.len() == 1 { 0nat } else { 1nat },
{
    if states.len() >= 2 {
        let rest = states.drop_first();
        assert forall|i: int| 0 <= i < rest.len() implies #[trigger] rest[i] is Init by {
            assert(states[i].accesses_to(states[i + 1]));
        }
        lemma_runs_without_waiting(rest);
        assert(states[0].accesses_to(states[1]));
    }
}

/// After `k + 1` reads, the value returned is still the one the first read
/// returned.
proof fn lemma_read_value_kept<T, F: FnOnce() -> T>(
    states: Seq<LazyInner<T, F>>,
    results: Seq<T>,
    k: int,
)
    requires
        states.len() == results.len() + 1,
        0 <= k < results.len(),
        forall|i: int|
            0 <= i < results.len() ==> #[trigger] states[i].forces_to(states[i + 1]),
        forall|i: int|
            0 <= i < results.len() ==> states[i + 1] == LazyInner::<T, F>::Init(
                #[trigger] results[i],
            ),
    ensures
        results[k] == results[0],
    decreases k,
{
    if k > 0 {
        lemma_read_value_kept(states, results, k - 1);
        assert(states[k].forces_to(states[k + 1]));
        assert(states[k] == LazyInner::<T, F>::Init(results[k - 1]));
    }
}

/// Every read of a cell returns the same value, and when the cell started
/// with a producer, that value is one the producer may return.
pub proof fn lemma_reads_return_one_value<T, F: FnOnce() -> T>(
    states: Seq<LazyInner<T, F>>,
    results: Seq<T>,
)
    requires
        states.len() == results.len() + 1,
        forall|i: int|
            0 <= i < results.len() ==> #[trigger] states[i].forces_to(states[i + 1]),
        forall|i: int|
            0 <= i < results.len() ==> states[i + 1] == LazyInner::<T, F>::Init(
                #[trigger] results[i],
            ),
    ensures
        forall|i: int, j: int|
            0 <= i < results.len() && 0 <= j < results.len() ==> #[trigger] results[i]
                == #[trigger] results[j],
        forall|i: int|
            0 <= i < results.len() ==> match states[0] {
                LazyInner::Uninit(f) => f.ensures((), #[trigger] results[i]),
                _ => true,
            },
{
    assert forall|i: int| 0 <= i < results.len() implies #[trigger] results[i] == results[0] by {
        lemma_read_value_kept(states, results, i);
    }
    if results.len() >= 1 {
        let first: int = 0;
        assert(states[first].forces_to(states[first + 1]));
    }
}

/// The value seen through exclusive access is the produced one, and a read
/// that follows without a write sees it too.
pub proof fn lemma_exclusive_then_shared_agree<T, F: FnOnce() -> T>(
    f: F,
    first: T,
    second: T,
    after: LazyInner<T, F>,
)
    requires
        LazyInner::<T, F>::Uninit(f).forces_to(LazyInner::Init(first)),
        LazyInner::<T, F>::Init(first).forces_to(after),
        after == LazyInner::<T, F>::Init(second),
    ensures
        f.ensures((), first),
        second == first,
{
}

/// What is written through exclusive access is what a later read returns.
pub proof fn lemma_write_is_read_back<T, F: FnOnce() -> T>(
    before: LazyInner<T, F>,
    seen: T,
    written: T,
    after: LazyInner<T, F>,
    read: T,
)
    requires
        before.forces_to(LazyInner::Init(seen)),
        LazyInner::<T, F>::Init(written).forces_to(after),
        after == LazyInner::<T, F>::Init(read),
    ensures
        read == written,
{
}

} // verus!
