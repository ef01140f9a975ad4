use cache::{Cache, CacheRef};
use std::cell::Cell;
use std::rc::Rc;

#[derive(Debug, PartialEq)]
struct A(usize);

impl A {
    fn new(x: usize) -> Self {
        A(x)
    }

    fn inner(&self) -> usize {
        self.0
    }
}

fn counting(counter: &Rc<Cell<u32>>, value: i32) -> impl Fn() -> i32 {
    let counter = Rc::clone(counter);
    move || {
        counter.set(counter.get() + 1);
        value
    }
}

#[test]
fn first_read_computes_and_returns_the_value() {
    let mut cache = Cache::new(|| 55);
    assert_eq!(*cache.get(), 55);
}

#[test]
fn boxed_computation_is_accepted() {
    let mut cache = Cache::new(Box::new(|| 55));
    assert_eq!(*cache.get(), 55);
}

#[test]
fn construction_runs_nothing() {
    let counter = Rc::new(Cell::new(0));
    let cache = Cache::new(counting(&counter, 55));
    assert_eq!(counter.get(), 0);
    drop(cache);
    assert_eq!(counter.get(), 0);
}

#[test]
fn ten_reads_run_the_computation_once() {
    let counter = Rc::new(Cell::new(0));
    let mut cache = Cache::new(counting(&counter, 55));
    assert_eq!(*cache.get(), 55);
    assert_eq!(counter.get(), 1);
    for _ in 0..9 {
        assert_eq!(*cache.get(), 55);
    }
    assert_eq!(counter.get(), 1);
}

#[test]
fn every_read_shows_the_first_result() {
    // The computation would return something else on each run.
    let next = Rc::new(Cell::new(7));
    let source = Rc::clone(&next);
    let mut cache = Cache::new(move || {
        let value = source.get();
        source.set(value + 1);
        value
    });
    for _ in 0..20 {
        assert_eq!(*cache.get(), 7);
    }
    assert_eq!(next.get(), 8);
}

#[test]
fn two_reads_in_a_row_agree() {
    let mut cache = Cache::new(|| String::from("computed"));
    let first = cache.get().clone();
    let second = cache.get().clone();
    assert_eq!(first, second);
    assert_eq!(second, "computed");
}

#[test]
fn view_dereferences_to_the_stored_struct() {
    let mut c = Cache::new(Box::new(|| A::new(0)));
    assert_eq!(c.get().inner(), 0);
    assert_eq!(*c.get(), A(0));
}

#[test]
fn view_can_be_held_and_read_repeatedly() {
    let mut cache = Cache::new(|| vec![1, 2, 3]);
    let view: CacheRef<'_, Vec<i32>> = cache.get();
    assert_eq!(view.len(), 3);
    assert_eq!(view[0] + view[1] + view[2], 6);
    assert_eq!(*view, vec![1, 2, 3]);
}

#[test]
fn computation_may_capture_its_inputs() {
    let base = 40;
    let offset = vec![1, 1];
    let mut cache = Cache::new(move || base + offset.iter().sum::<i32>());
    assert_eq!(*cache.get(), 42);
    assert_eq!(*cache.get(), 42);
}

#[test]
fn separate_caches_do_not_share_a_slot() {
    let counter = Rc::new(Cell::new(0));
    let mut left = Cache::new(counting(&counter, 1));
    let mut right = Cache::new(counting(&counter, 2));
    assert_eq!(*left.get(), 1);
    assert_eq!(*right.get(), 2);
    assert_eq!(*left.get(), 1);
    assert_eq!(counter.get(), 2);
}

#[test]
fn stored_value_is_dropped_with_the_cache() {
    let alive = Rc::new(());
    let held = Rc::clone(&alive);
    let mut cache = Cache::new(move || Rc::clone(&held));
    assert_eq!(Rc::strong_count(&alive), 2);
    assert_eq!(Rc::strong_count(&*cache.get()), 3);
    drop(cache);
    assert_eq!(Rc::strong_count(&alive), 1);
}

#[test]
fn a_computed_none_counts_as_a_value() {
    let counter = Rc::new(Cell::new(0));
    let seen = Rc::clone(&counter);
    let mut cache = Cache::new(move || {
        seen.set(seen.get() + 1);
        None::<i32>
    });
    assert_eq!(*cache.get(), None);
    assert_eq!(*cache.get(), None);
    assert_eq!(counter.get(), 1);
}

#[test]
fn a_unit_value_is_computed_once() {
    let counter = Rc::new(Cell::new(0));
    let seen = Rc::clone(&counter);
    let mut cache = Cache::new(move || seen.set(seen.get() + 1));
    assert_eq!(*cache.get(), ());
    assert_eq!(*cache.get(), ());
    assert_eq!(counter.get(), 1);
}

#[test]
fn a_moved_cache_keeps_its_value() {
    let counter = Rc::new(Cell::new(0));
    let mut cache = Cache::new(counting(&counter, 5));
    assert_eq!(*cache.get(), 5);
    let mut moved = cache;
    assert_eq!(*moved.get(), 5);
    let mut boxed = Box::new(moved);
    assert_eq!(*boxed.get(), 5);
    assert_eq!(counter.get(), 1);
}

#[test]
fn a_cache_never_read_runs_nothing() {
    let counter = Rc::new(Cell::new(0));
    {
        let _cache = Cache::new(counting(&counter, 5));
    }
    assert_eq!(counter.get(), 0);
}

#[test]
fn a_boxed_trait_object_is_accepted() {
    let calc: Box<dyn Fn() -> i32> = Box::new(|| 55);
    let mut cache: Cache<i32, Box<dyn Fn() -> i32>> = Cache::new(calc);
    assert_eq!(*cache.get(), 55);
    assert_eq!(*cache.get(), 55);
}

#[test]
fn peek_of_an_empty_cache_finds_nothing_and_runs_nothing() {
    let counter = Rc::new(Cell::new(0));
    let cache = Cache::new(counting(&counter, 55));
    assert!(cache.peek().is_none());
    assert!(cache.peek().is_none());
    assert_eq!(counter.get(), 0);
}

#[test]
fn two_views_of_a_filled_cache_can_be_held_at_once() {
    let counter = Rc::new(Cell::new(0));
    let mut cache = Cache::new(counting(&counter, 55));
    assert_eq!(*cache.get(), 55);
    let a = cache.peek().unwrap();
    let b = cache.peek().unwrap();
    assert_eq!(*a, 55);
    assert_eq!(*b, 55);
    assert!(std::ptr::eq(&*a, &*b));
    assert_eq!(counter.get(), 1);
}

#[test]
fn peek_shows_what_get_stored() {
    let next = Rc::new(Cell::new(7));
    let source = Rc::clone(&next);
    let mut cache = Cache::new(move || {
        let value = source.get();
        source.set(value + 1);
        value
    });
    assert!(cache.peek().is_none());
    assert_eq!(*cache.get(), 7);
    assert_eq!(cache.peek().map(|view| *view), Some(7));
    assert_eq!(*cache.get(), 7);
    assert_eq!(next.get(), 8);
}
