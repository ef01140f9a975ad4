//! The single-owner cache.

use crate::model::{coherent, read_step, CacheState};
use vstd::prelude::*;

verus! {

/// The slot of a cache together with the count of its fills. Both change in
/// one assignment, so that the count never lags behind.
struct Slot<T> {
    value: Option<T>,
    fills: Ghost<nat>,
}

/// A lazily evaluated value for a single owner: it holds a computation, runs
/// it on the first read and hands out the stored result from then on. For a
/// variant that several threads can read, see
/// [`AtomicCache`](crate::atomic::AtomicCache).
///
/// [`get`](Cache::get) goes through `&mut self`, since it may fill the slot:
/// the exclusive borrow keeps the cache from being changed while a view of
/// its value is held. [`peek`](Cache::peek) reads a cache through `&self` and
/// fills nothing, so any number of its views can be held at once.
#[verifier::reject_recursive_types(T)]
pub struct Cache<T, F: Fn() -> T> {
    calc: F,
    slot: Slot<T>,
}

/// A read-only view of the value stored in a [`Cache`], handed out by
/// [`Cache::get`]. It borrows from the cache and cannot outlive it.
pub struct CacheRef<'a, T>(&'a T);

impl<'a, T> CacheRef<'a, T> {
    /// The value that this view shows.
    pub closed spec fn view(&self) -> T {
        *self.0
    }

    fn new(value: &'a T) -> (r: Self)
        ensures
            r@ == *value,
    {
        CacheRef(value)
    }
}

impl<'a, T> core::ops::Deref for CacheRef<'a, T> {
    type Target = T;

    /// Hands out the value that the view shows.
    fn deref(&self) -> (value: &T)
        ensures
            *value == self@,
    {
        self.0
    }
}

impl<T, F: Fn() -> T> Cache<T, F> {
    #[verifier::type_invariant]
    spec fn inv(&self) -> bool {
        coherent(self.calc, self@)
    }

    /// The slot and the number of its fills so far.
    pub closed spec fn view(&self) -> CacheState<T> {
        CacheState { slot: self.slot.value, fills: self.slot.fills@ }
    }

    /// The computation that fills the slot.
    pub closed spec fn computation(&self) -> F {
        self.calc
    }

    /// Makes a cache around `calc`. The slot starts empty and nothing is run.
    ///
    /// `calc` must be callable: a computation that fails when called leaves
    /// the cache without a value to hand out.
    pub fn new(calc: F) -> (cache: Self)
        requires
            calc.requires(()),
        ensures
            cache@ == CacheState::<T>::empty(),
            cache.computation() == calc,
            coherent(calc, cache@),
    {
        Cache { calc, slot: Slot { value: None, fills: Ghost(0) } }
    }

    /// Hands out a view of the cached value. The first call runs the
    /// computation and fills the slot with what it returns. Every later call
    /// finds the slot filled and leaves it as it is.
    pub fn get(&mut self) -> (r: CacheRef<'_, T>)
        ensures
            final(self).computation() == old(self).computation(),
            read_step(old(self).computation(), old(self)@, final(self)@, r@),
            final(self)@ == CacheState::filled(r@),
            old(self).computation().ensures((), r@),
            coherent(final(self).computation(), final(self)@),
    {
        proof {
            use_type_invariant(&*self);
        }
        if self.slot.value.is_none() {
            let value = (self.calc)();
            self.slot = Slot { value: Some(value), fills: Ghost(self.slot.fills@ + 1) };
        }
        CacheRef::new(self.slot.value.as_ref().unwrap())
    }

    /// Hands out a view of the cached value where the slot is filled, and
    /// nothing where it is empty. It runs nothing and changes nothing.
    pub fn peek(&self) -> (r: Option<CacheRef<'_, T>>)
        ensures
            match r {
                Some(view) => self@.slot == Some(view@),
                None => self@.slot is None,
            },
    {
        match self.slot.value.as_ref() {
            Some(value) => Some(CacheRef::new(value)),
            None => None,
        }
    }
}

} // verus!
