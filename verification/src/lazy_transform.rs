//! The cache itself: a pending-source slot, a cached-value slot, a transform
//! and the latch that keeps the transform to one thread at a time.

use crate::light_lock::LightGuard;
use crate::light_lock::LightLock;
use crate::model::Cells;
use crate::protocol::Step;
use crate::slots::new_queue;
use crate::slots::new_shared;
use crate::slots::queue_force_push;
use crate::slots::queue_is_empty;
use crate::slots::queue_pop;
use crate::slots::shared_load;
use crate::slots::shared_swap;
use crossbeam::queue::ArrayQueue;
use crossbeam::sync::ShardedLock;
use std::sync::Arc;
use vstd::prelude::*;

verus! {

/// A lazily evaluated cache of `transform_fn` applied to the source that was
/// published last.
///
/// Producers publish sources with [`LazyTransform::set_source`]; consumers
/// ask for the current value with [`LazyTransform::get_transformed`]. The
/// transform runs inside a consumer's call, on at most one thread at a time,
/// and a consumer that cannot run it is served the value cached before.
///
/// The pending source lives in a queue of capacity one, so the slot holds at
/// most one source and taking it out hands it to one caller alone. The cached
/// value lives behind a reference count: a superseded value is freed when the
/// last reader that still looks at it lets go.
#[verifier::reject_recursive_types(T)]
#[verifier::reject_recursive_types(S)]
#[verifier::reject_recursive_types(FN)]
pub struct LazyTransform<T: Clone, S, FN: Fn(S) -> Option<T>> {
    transform_fn: FN,
    source: ArrayQueue<S>,
    value: ShardedLock<Option<Arc<Kept<T, S, FN>>>>,
    transform_lock: LightLock,
}

/// A value as the cache keeps it: the duplicate that readers are served
/// from, and on the ghost side the transform, the source and the outcome
/// that it is a duplicate of.
///
/// Whatever the other threads do to the cache, a value that comes out of it
/// is one that went in, and every value that goes in has this origin.
#[verifier::reject_recursive_types(T)]
#[verifier::reject_recursive_types(S)]
#[verifier::reject_recursive_types(FN)]
struct Kept<T: Clone, S, FN: Fn(S) -> Option<T>> {
    value: T,
    origin: Ghost<(FN, S, T)>,
}

impl<T: Clone, S, FN: Fn(S) -> Option<T>> Kept<T, S, FN> {
    /// The transform returned the outcome for the source, and the value is a
    /// duplicate of that outcome.
    #[verifier::type_invariant]
    spec fn has_origin(self) -> bool {
        &&& call_ensures(self.origin@.0, (self.origin@.1,), Some(self.origin@.2))
        &&& cloned(self.origin@.2, self.value)
    }
}

impl<T: Clone, S, FN: Fn(S) -> Option<T>> LazyTransform<T, S, FN> {
    /// The transform accepts every source.
    #[verifier::type_invariant]
    spec fn transform_is_total(self) -> bool {
        forall|source: S| call_requires(self.transform_fn, (source,))
    }

    /// The transform that this cache was made with.
    pub closed spec fn transform(&self) -> FN {
        self.transform_fn
    }

    /// Whether `value` is an outcome of the transform: what a function of
    /// the transform's type returned for some source. Functions of one type
    /// share their code; which of them a cached value came from is not
    /// tracked across the shared cell.
    pub open spec fn is_outcome(value: T) -> bool {
        exists|transform: FN, source: S| call_ensures(transform, (source,), Some(value))
    }

    /// Whether `value` is what a reader can be served: an outcome of the
    /// transform, or a duplicate of one, or a duplicate of such a duplicate.
    /// The cache keeps a duplicate of each outcome, and a reader that is
    /// served from the cache gets a duplicate of what is kept.
    pub open spec fn is_served_outcome(value: T) -> bool {
        exists|outcome: T, kept: T|
            #![trigger cloned(outcome, kept), cloned(kept, value)]
            Self::is_outcome(outcome) && cloned(outcome, kept) && cloned(kept, value)
    }

    /// Whether `token` says of `step` what the protocol asks, and the step
    /// carries what it should: the latch of this cache is held, by this
    /// token, exactly at the steps that need it; a value on its way into the
    /// cache is an outcome of the transform, and the result of a read is an
    /// outcome as readers are served it.
    spec fn in_order(&self, step: Step<S, T>, token: Option<LightGuard<'_>>) -> bool {
        &&& step.holds_latch() <==> token is Some
        &&& token matches Some(guard) ==> guard.guards() == self.transform_lock
        &&& step matches Step::Publish(fresh) ==> Self::is_outcome(fresh)
        &&& step matches Step::Release(Some(fresh)) ==> Self::is_outcome(fresh)
        &&& step matches Step::Done(Some(value)) ==> Self::is_served_outcome(value)
    }
}

impl<T: Clone, S, FN: Fn(S) -> Option<T>> LazyTransform<T, S, FN> {
    /// A cache with both slots empty and the latch free.
    pub fn new(transform_fn: FN) -> (cache: LazyTransform<T, S, FN>)
        requires
            forall|source: S| call_requires(transform_fn, (source,)),
        ensures
            cache.transform() == transform_fn,
    {
        LazyTransform {
            transform_fn: transform_fn,
            source: new_queue(1),
            value: new_shared(None),
            transform_lock: LightLock::new(),
        }
    }

    /// Publishes `source`, in place of a source that is still pending. The
    /// source that is displaced was never transformed and is dropped here.
    /// The cached value is not touched.
    pub fn set_source(&self, source: S) {
        let _displaced = queue_force_push(&self.source, source);
    }

    /// A duplicate of `current`, the value that a look at the cache showed,
    /// and nothing where the cache was empty.
    fn duplicate(current: Option<Arc<Kept<T, S, FN>>>) -> (value: Option<T>)
        ensures
            value is Some <==> current is Some,
            value matches Some(copy) ==> cloned(current->0.value, copy),
            value matches Some(copy) ==> Self::is_served_outcome(copy),
    {
        match current {
            Some(kept) => {
                let copy = kept.value.clone();
                proof {
                    use_type_invariant(&*kept);
                    assert(cloned(kept.origin@.2, kept.value) && cloned(kept.value, copy));
                }
                Some(copy)
            },
            None => None,
        }
    }

    /// A duplicate of what the cache holds, if it holds anything. What the
    /// cache holds is for the other threads to decide; whatever it is, it is
    /// a duplicate of an outcome of the transform, and the reader gets a
    /// duplicate of that.
    fn cached(&self) -> (value: Option<T>)
        ensures
            value matches Some(copy) ==> Self::is_served_outcome(copy),
    {
        Self::duplicate(shared_load(&self.value))
    }

    /// Takes the one action of `step` and decides the step after it.
    ///
    /// The step after it is one that the protocol allows, and it is closer
    /// to the end of the read. Where the action is the transform, it runs on
    /// the source that the step carries, while this call holds the latch,
    /// and its outcome alone decides what follows. The token is taken at a
    /// successful claim and dropped at the release, so it is held exactly at
    /// the steps that need it.
    fn advance<'a>(&'a self, step: Step<S, T>, token: &mut Option<LightGuard<'a>>) -> (next: Step<
        S,
        T,
    >)
        requires
            self.in_order(step, *old(token)),
        ensures
            self.in_order(next, *final(token)),
            Cells::allows(step, next),
            !(step is Done) ==> next.remaining() < step.remaining(),
            step matches Step::Transform(source) ==> exists|produced: Option<T>|
                call_ensures(self.transform(), (source,), produced) && next
                    == Step::<S, T>::after_transform(produced),
    {
        proof {
            use_type_invariant(self);
        }
        let ghost idle = Cells::<S, T>::empty();
        match step {
            Step::Peek => {
                let seen = !queue_is_empty(&self.source);
                assert(idle.act(step, seen, None).1 == Step::<S, T>::after_peek(seen));
                Step::after_peek(seen)
            },
            Step::Claim => {
                *token = self.transform_lock.try_lock();
                let claimed = token.is_some();
                assert((Cells { held: !claimed, ..idle }).act(step, false, None).1 == Step::<
                    S,
                    T,
                >::after_claim(claimed));
                Step::after_claim(claimed)
            },
            Step::Drain => {
                let drained = queue_pop(&self.source);
                assert((Cells { pending: drained, ..idle }).act(step, false, None).1 == Step::<
                    S,
                    T,
                >::after_drain(drained));
                Step::after_drain(drained)
            },
            Step::Transform(source) => {
                let produced = (self.transform_fn)(source);
                assert(idle.act(step, false, produced).1 == Step::<S, T>::after_transform(
                    produced,
                ));
                Step::after_transform(produced)
            },
            Step::Publish(fresh) => {
                let ghost (transform, source) = choose|transform: FN, source: S|
                    call_ensures(transform, (source,), Some(fresh));
                let kept = Kept { value: fresh.clone(), origin: Ghost((transform, source, fresh)) };
                let _displaced = shared_swap(&self.value, Arc::new(kept));
                assert(idle.act(step, false, None).1 == Step::<S, T>::after_publish(fresh));
                Step::after_publish(fresh)
            },
            Step::Release(fresh) => {
                *token = None;
                assert(idle.act(step, false, None).1 == Step::<S, T>::after_release(fresh));
                assert(fresh matches Some(value) ==> cloned(value, value));
                Step::after_release(fresh)
            },
            Step::Fallback => {
                let cached = self.cached();
                assert((Cells { cached: cached, ..idle }).act(step, false, None).1 == Step::<
                    S,
                    T,
                >::after_fallback(cached));
                Step::after_fallback(cached)
            },
            Step::Done(value) => {
                assert(idle.act(step, false, None).1 == Step::<S, T>::Done(value));
                Step::Done(value)
            },
        }
    }

    /// The current best value: freshly transformed where this call could
    /// claim the latch and found a source that the transform accepted, else
    /// a duplicate of the cached value, else nothing.
    ///
    /// Which of the three it is depends on the other threads. Whichever it
    /// is, a value that is returned is an outcome of the transform as
    /// readers are served it: the outcome itself where this call ran the
    /// transform, and a duplicate of the duplicate that the cache keeps
    /// where it is served from the cache.
    ///
    /// The call walks the reader's protocol from [`Step::Peek`] to
    /// [`Step::Done`], one action at a time, in six actions at most. It
    /// never waits for another thread's transform: a reader that is refused
    /// the latch serves the cache.
    pub fn get_transformed(&self) -> (value: Option<T>)
        ensures
            value matches Some(served) ==> Self::is_served_outcome(served),
    {
        let mut step: Step<S, T> = Step::Peek;
        let mut token: Option<LightGuard<'_>> = None;
        loop
            invariant
                self.in_order(step, token),
            decreases step.remaining(),
        {
            match step {
                Step::Done(value) => {
                    return value;
                },
                unfinished => {
                    step = self.advance(unfinished, &mut token);
                },
            }
        }
    }
}

} // verus!
