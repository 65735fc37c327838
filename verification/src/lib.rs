//! A lazily evaluated cache for many threads: producers publish raw sources,
//! consumers read the value that a transform derives from the latest one,
//! and nobody waits for the transform.
//!
//! [`LazyTransform`] is the cache. [`LightLock`] is the latch that keeps the
//! transform to one thread at a time. [`protocol`] holds the decisions of a
//! read, one for each atomic action; [`model`] describes the cache and its
//! threads as plain values, and [`laws`] proves what the decisions guarantee
//! under every interleaving of readers and producers.

pub mod laws;
pub mod lazy_transform;
pub mod light_lock;
pub mod model;
pub mod protocol;
mod slots;

pub use lazy_transform::LazyTransform;
pub use light_lock::LightGuard;
pub use light_lock::LightLock;
pub use protocol::Step;
