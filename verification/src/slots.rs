//! The two shared cells, kept in crossbeam's containers, and the calls that
//! touch them.
//!
//! Every function here hands a value to another thread or takes one from it.
//! What comes back depends on what the other threads did in the meantime, so
//! none of these functions promises anything about its result: callers are
//! verified for every value that may come back.

use crossbeam::queue::ArrayQueue;
use crossbeam::sync::ShardedLock;
use std::sync::Arc;
use vstd::prelude::*;

verus! {

#[verifier::external_type_specification]
#[verifier::external_body]
#[verifier::reject_recursive_types(T)]
pub struct ExArrayQueue<T>(ArrayQueue<T>);

#[verifier::external_type_specification]
#[verifier::external_body]
#[verifier::reject_recursive_types(T)]
pub struct ExShardedLock<T: ?Sized>(ShardedLock<T>);

/// `ArrayQueue::new`: an empty bounded queue. The constructor panics on a
/// capacity of zero and on one that is too large for its index or for one
/// allocation; a single slot is neither.
#[verifier::external_body]
pub(crate) fn new_queue<S>(capacity: usize) -> ArrayQueue<S>
    requires
        capacity == 1,
{
    ArrayQueue::new(capacity)
}

/// `ArrayQueue::is_empty`: a look at whether the queue holds nothing, which
/// may be out of date as soon as it is taken.
#[verifier::external_body]
pub(crate) fn queue_is_empty<S>(queue: &ArrayQueue<S>) -> bool {
    queue.is_empty()
}

/// `ArrayQueue::force_push`: puts `item` in, and where the queue was full
/// hands back the oldest item, which `item` replaces.
#[verifier::external_body]
pub(crate) fn queue_force_push<S>(queue: &ArrayQueue<S>, item: S) -> Option<S> {
    queue.force_push(item)
}

/// `ArrayQueue::pop`: takes the oldest item out, if there is one, and hands
/// it to this caller alone.
#[verifier::external_body]
pub(crate) fn queue_pop<S>(queue: &ArrayQueue<S>) -> Option<S> {
    queue.pop()
}

/// `ShardedLock::new`: a reader-writer lock around `initial`.
#[verifier::external_body]
pub(crate) fn new_shared<T>(initial: Option<Arc<T>>) -> ShardedLock<Option<Arc<T>>> {
    ShardedLock::new(initial)
}

/// `ShardedLock::read`, then a second handle on what the lock holds. The read
/// guard lives inside this call only, so no thread asks for the lock while it
/// holds it; a poisoned lock is read all the same.
#[verifier::external_body]
pub(crate) fn shared_load<T>(shared: &ShardedLock<Option<Arc<T>>>) -> Option<Arc<T>> {
    match shared.read() {
        Ok(guard) => (*guard).clone(),
        Err(poisoned) => (*poisoned.into_inner()).clone(),
    }
}

/// `ShardedLock::write`, then `fresh` goes in and what the lock held before
/// comes out. The write guard lives inside this call only and nothing is
/// dropped under it; a poisoned lock is written all the same.
#[verifier::external_body]
pub(crate) fn shared_swap<T>(shared: &ShardedLock<Option<Arc<T>>>, fresh: Arc<T>) -> Option<
    Arc<T>,
> {
    match shared.write() {
        Ok(mut guard) => guard.replace(fresh),
        Err(poisoned) => poisoned.into_inner().replace(fresh),
    }
}

} // verus!
