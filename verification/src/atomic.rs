//! The cache that threads can share.

use std::marker::PhantomData;
use std::sync::Arc;
use vstd::prelude::*;
use vstd::rwlock::ReadHandle;
use vstd::rwlock::RwLock;

verus! {

/// The values that the lock of a cache built on `calc` may hold: nothing, or a
/// value that the computation can return.
spec fn admitted<T, F: Fn() -> T>(calc: F) -> spec_fn(Option<Arc<T>>) -> bool {
    |slot: Option<Arc<T>>| slot matches Some(value) ==> calc.ensures((), *value)
}

/// A lazily evaluated value that any number of threads can read through a
/// shared handle. The slot sits behind a reader/writer lock: a read takes the
/// lock for reading to look at the slot, and takes it for writing to run the
/// computation and store the result when it found the slot empty.
///
/// Looking and filling are two acquisitions of the lock. Callers that find the
/// slot empty at the same moment each run the computation, one after the
/// other, and each stores its result over the one before. Reads that do not
/// overlap run the computation once.
///
/// The lock frees nothing of what it holds, so a cache that is dropped leaves
/// a stored value alive. [`into_inner`](AtomicCache::into_inner) takes the
/// cache apart and hands the value to the caller. Nor does the lock notice a
/// holder that is gone: a computation that fails while it runs keeps the
/// write lock, and every later caller of that cache waits without end.
#[verifier::reject_recursive_types(T)]
pub struct AtomicCache<T, F: Fn() -> T + Send + Sync> {
    calc: F,
    data: RwLock<Option<Arc<T>>, spec_fn(Option<Arc<T>>) -> bool>,
}

/// A read-only view of a value stored in an [`AtomicCache`], handed out by
/// [`AtomicCache::get`]. It cannot outlive the cache. It shares the value with
/// the slot and keeps it alive on its own, so the lock is free again as soon
/// as the view exists, and dropping the view leaves nothing to release.
pub struct AtomicCacheRef<'a, T> {
    value: Arc<T>,
    origin: PhantomData<&'a T>,
}

/// `Arc::clone`: a second handle to the same allocation, so it points to the
/// very value that `value` points to.
#[verifier::external_body]
fn share<T>(value: &Arc<T>) -> (shared: Arc<T>)
    ensures
        *shared == **value,
{
    Arc::clone(value)
}

impl<'a, T> AtomicCacheRef<'a, T> {
    /// The value that this view shows.
    pub closed spec fn view(&self) -> T {
        *self.value
    }

    fn new(value: Arc<T>) -> (r: Self)
        ensures
            r@ == *value,
    {
        AtomicCacheRef { value, origin: PhantomData }
    }
}

impl<'a, T> core::ops::Deref for AtomicCacheRef<'a, T> {
    type Target = T;

    /// Hands out the value that the view shows.
    fn deref(&self) -> (value: &T)
        ensures
            *value == self@,
    {
        &*self.value
    }
}

impl<T, F: Fn() -> T + Send + Sync> AtomicCache<T, F> {
    #[verifier::type_invariant]
    spec fn inv(&self) -> bool {
        &&& self.calc.requires(())
        &&& self.data.pred() == admitted(self.calc)
    }

    /// The computation that fills the slot.
    pub closed spec fn computation(&self) -> F {
        self.calc
    }

    /// Makes a cache around `calc`, with an empty slot behind a new lock.
    /// Nothing is run.
    ///
    /// `calc` must be callable: a computation that fails when called leaves
    /// the cache without a value to hand out.
    pub fn new(calc: F) -> (cache: Self)
        requires
            calc.requires(()),
        ensures
            cache.computation() == calc,
    {
        let data = RwLock::new(None, Ghost(admitted(calc)));
        AtomicCache { calc, data }
    }

    /// Looks at the slot under the read lock `reading` and hands out what it
    /// holds there: nothing where the slot is empty, and a share of the stored
    /// value where it is filled.
    fn peek(reading: &ReadHandle<'_, Option<Arc<T>>, spec_fn(Option<Arc<T>>) -> bool>) -> (found:
        Option<Arc<T>>)
        ensures
            found == reading.view(),
    {
        match reading.borrow() {
            Some(value) => Some(share(value)),
            None => None,
        }
    }

    /// Runs the computation under the write lock, stores the result over
    /// whatever the slot holds, and hands the result out too.
    fn fill(&self) -> (fresh: Arc<T>)
        ensures
            self.computation().ensures((), *fresh),
    {
        proof {
            use_type_invariant(self);
        }
        let (_stale, writing) = self.data.acquire_write();
        let fresh = Arc::new((self.calc)());
        writing.release_write(Some(share(&fresh)));
        fresh
    }

    /// Decides what a read shows, given what its look at the slot found. A
    /// value that was found is shown as it is, and nothing is run. Where
    /// nothing was found, the computation is run, its result is stored, and
    /// the view shows what the slot holds after that: a value that the
    /// computation returned.
    pub fn settle(&self, found: Option<Arc<T>>) -> (r: AtomicCacheRef<'_, T>)
        ensures
            match found {
                Some(value) => r@ == *value,
                None => self.computation().ensures((), r@),
            },
    {
        proof {
            use_type_invariant(self);
        }
        match found {
            Some(value) => AtomicCacheRef::new(value),
            None => {
                let fresh = self.fill();
                let reading = self.data.acquire_read();
                let stored = Self::peek(&reading);
                reading.release_read();
                match stored {
                    Some(value) => AtomicCacheRef::new(value),
                    None => AtomicCacheRef::new(fresh),
                }
            },
        }
    }

    /// Hands out a view of the cached value, from any thread: it looks at the
    /// slot under the read lock, releases the lock, and lets
    /// [`settle`](AtomicCache::settle) decide on what it found.
    ///
    /// Whatever other threads do meanwhile, the value shown is one that the
    /// computation returned.
    pub fn get(&self) -> (r: AtomicCacheRef<'_, T>)
        ensures
            self.computation().ensures((), r@),
    {
        proof {
            use_type_invariant(self);
        }
        let reading = self.data.acquire_read();
        let found = Self::peek(&reading);
        reading.release_read();
        self.settle(found)
    }

    /// Takes the cache apart and hands out what its slot holds: the stored
    /// value, or nothing where no read has filled the slot. The value lives
    /// on for as long as the caller keeps it. Like a read that fills, the call
    /// waits for the lock.
    pub fn into_inner(self) -> (stored: Option<Arc<T>>)
        ensures
            stored matches Some(value) ==> self.computation().ensures((), *value),
    {
        proof {
            use_type_invariant(&self);
        }
        let data = self.data;
        data.into_inner()
    }
}

} // verus!
