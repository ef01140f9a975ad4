//! The sequential model of a lazily filled slot.
//!
//! A cache owns one computation and one slot. The slot starts empty, the first
//! read fills it with what the computation returns, and every later read finds
//! that value. This module states that behaviour over plain mathematical
//! values and proves what follows from it: a filled slot never changes, two
//! reads in a row agree, and any number of reads fills the slot once.
//!
//! What is counted is the fills of the slot. A contract cannot count the
//! calls of a function value, so the model counts the one thing that a call
//! is made for.

use vstd::prelude::*;

verus! {

/// What a single-owner cache holds at one point in time.
pub struct CacheState<T> {
    /// The cached value, once the computation has produced it.
    pub slot: Option<T>,
    /// How many times the slot has been filled so far.
    pub fills: nat,
}

impl<T> CacheState<T> {
    /// The state of a cache that has never been read.
    pub open spec fn empty() -> Self {
        CacheState { slot: None, fills: 0 }
    }

    /// The state of a cache whose slot was filled once, with `value`.
    pub open spec fn filled(value: T) -> Self {
        CacheState { slot: Some(value), fills: 1 }
    }
}

/// A state that a cache built on `calc` can be in: the computation may be
/// called, a stored value is one that the computation can return, and the
/// slot has been filled once where it is filled and never where it is empty.
pub open spec fn coherent<T, F: Fn() -> T>(calc: F, state: CacheState<T>) -> bool {
    &&& calc.requires(())
    &&& state.slot matches Some(value) ==> calc.ensures((), value)
    &&& state.fills == if state.slot is Some { 1nat } else { 0nat }
}

/// One read of a cache built on `calc`: it goes from `pre` to `post` and shows
/// `out`. A filled slot is left alone and its value shown. An empty slot is
/// filled with a value that the computation returns, which counts as one more
/// fill, and that value is shown.
pub open spec fn read_step<T, F: Fn() -> T>(
    calc: F,
    pre: CacheState<T>,
    post: CacheState<T>,
    out: T,
) -> bool {
    match pre.slot {
        Some(value) => post == pre && out == value,
        None => {
            &&& calc.ensures((), out)
            &&& post.slot == Some(out)
            &&& post.fills == pre.fills + 1
        },
    }
}

/// A history of reads, one after the other, of a cache built on `calc` that
/// starts empty: `states[i]` is the state before read `i`, `outs[i]` the value
/// that read `i` shows, and the last element of `states` the state at the end.
pub open spec fn is_run<T, F: Fn() -> T>(
    calc: F,
    states: Seq<CacheState<T>>,
    outs: Seq<T>,
) -> bool {
    &&& states.len() == outs.len() + 1
    &&& states[0] == CacheState::<T>::empty()
    &&& forall|i: int|
        0 <= i < outs.len() ==> read_step(calc, #[trigger] states[i], states[i + 1], outs[i])
}

/// A computation whose contract leaves one possible result.
pub open spec fn single_valued<T, F: Fn() -> T>(calc: F) -> bool {
    forall|a: T, b: T| calc.ensures((), a) && calc.ensures((), b) ==> a == b
}

/// A read takes a coherent state to a coherent state whose slot holds the value
/// shown, and that value is one that the computation can return.
pub proof fn lemma_read_keeps_coherence<T, F: Fn() -> T>(
    calc: F,
    pre: CacheState<T>,
    post: CacheState<T>,
    out: T,
)
    requires
        coherent(calc, pre),
        read_step(calc, pre, post, out),
    ensures
        coherent(calc, post),
        post == CacheState::filled(out),
        calc.ensures((), out),
{
}

/// Once the slot is filled it stays filled and keeps its value: a read of a
/// filled slot changes nothing, fills nothing and shows the stored value.
pub proof fn lemma_filled_slot_is_final<T, F: Fn() -> T>(
    calc: F,
    pre: CacheState<T>,
    post: CacheState<T>,
    out: T,
)
    requires
        pre.slot is Some,
        read_step(calc, pre, post, out),
    ensures
        post == pre,
        pre.slot == Some(out),
        post.fills == pre.fills,
{
}

/// Two reads in a row show equal values, and the second one neither changes the
/// state nor fills the slot, whatever the state was before the first.
pub proof fn lemma_consecutive_reads_agree<T, F: Fn() -> T>(
    calc: F,
    before: CacheState<T>,
    between: CacheState<T>,
    after: CacheState<T>,
    first: T,
    second: T,
)
    requires
        read_step(calc, before, between, first),
        read_step(calc, between, after, second),
    ensures
        second == first,
        after == between,
        after.fills == between.fills,
{
}

/// In a history that starts with an empty cache, every state after the first
/// read is the one that the first read left.
proof fn lemma_run_settles<T, F: Fn() -> T>(
    calc: F,
    states: Seq<CacheState<T>>,
    outs: Seq<T>,
    k: int,
)
    requires
        is_run(calc, states, outs),
        1 <= k <= outs.len(),
    ensures
        states[k] == CacheState::filled(outs[0]),
        outs[k - 1] == outs[0],
    decreases k,
{
    assert(read_step(calc, states[k - 1], states[k - 1 + 1], outs[k - 1]));
    if k > 1 {
        lemma_run_settles(calc, states, outs, k - 1);
    }
}

/// Any number of reads, one after the other, of a cache that starts empty
/// fills the slot exactly once: every read shows the value that the first
/// read obtained from the computation, and from the first read on the state is
/// the one with that value stored and one fill counted.
pub proof fn lemma_run_fills_once<T, F: Fn() -> T>(
    calc: F,
    states: Seq<CacheState<T>>,
    outs: Seq<T>,
)
    requires
        is_run(calc, states, outs),
        outs.len() >= 1,
    ensures
        calc.ensures((), outs[0]),
        forall|i: int| 0 <= i < outs.len() ==> #[trigger] outs[i] == outs[0],
        forall|i: int|
            1 <= i < states.len() ==> #[trigger] states[i] == CacheState::filled(outs[0]),
        states.last().fills == 1,
{
    assert(read_step(calc, states[0], states[1], outs[0]));
    assert forall|i: int| 0 <= i < outs.len() implies #[trigger] outs[i] == outs[0] by {
        lemma_run_settles(calc, states, outs, i + 1);
    }
    assert forall|i: int| 1 <= i < states.len() implies #[trigger] states[i]
        == CacheState::filled(outs[0]) by {
        lemma_run_settles(calc, states, outs, i);
    }
}

/// Two values that reads of caches built on `calc` show are equal where the
/// computation's contract leaves one possible result. Of each value this asks
/// what a read, of a shared cache or not, states of the value it shows: that
/// it is one that the computation can return.
pub proof fn lemma_single_valued_reads_agree<T, F: Fn() -> T>(calc: F, first: T, second: T)
    requires
        single_valued(calc),
        calc.ensures((), first),
        calc.ensures((), second),
    ensures
        first == second,
{
}

} // verus!
