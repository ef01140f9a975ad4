//! Lazily evaluated caches: a value is computed on the first read and kept
//! for every read after it. [`Cache`] is for a single owner, [`AtomicCache`]
//! for threads that share one handle.

pub mod atomic;
pub mod cache;
pub mod model;

pub use atomic::{AtomicCache, AtomicCacheRef};
pub use cache::{Cache, CacheRef};
pub use model::CacheState;
