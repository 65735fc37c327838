//! The reader's protocol, one atomic action at a time.
//!
//! A read of the cache is a short walk: look whether a source seems to be
//! pending, try to claim the latch, drain the pending source, transform it,
//! publish the result, give the latch back, and otherwise fall back on what
//! the cache holds. Each of these touches one shared cell once. What the
//! reader does after an action depends only on what the action showed, and
//! that decision is what this module holds: [`Step`] says where a reader
//! stands, and each `after_*` function gives the next step for every value
//! that the action may have shown.

use vstd::prelude::*;

verus! {

/// Where a reader stands: the action that it takes next, with the values
/// that it carries.
#[derive(Debug, PartialEq, Eq)]
pub enum Step<S, T> {
    /// Look whether a source seems to be pending. The look is advisory: the
    /// slot may change before the next action.
    Peek,
    /// Try to claim the latch, without waiting.
    Claim,
    /// Holding the latch, take whatever source is pending out of its slot.
    Drain,
    /// Holding the latch, run the transform on the source that was drained.
    Transform(S),
    /// Holding the latch, put a duplicate of the fresh value into the cache.
    Publish(T),
    /// Give the latch back, carrying the fresh value if there is one.
    Release(Option<T>),
    /// Read what the cache holds.
    Fallback,
    /// The read is over and this is its result.
    Done(Option<T>),
}

impl<S, T> Step<S, T> {
    /// The steps that are taken with the latch held: from the successful
    /// claim up to and including the release.
    pub open spec fn holds_latch(self) -> bool {
        self is Drain || self is Transform || self is Publish || self is Release
    }

    /// The most actions that a reader at this step still takes.
    pub open spec fn remaining(self) -> nat {
        match self {
            Step::Peek => 6,
            Step::Claim => 5,
            Step::Drain => 4,
            Step::Transform(_) => 3,
            Step::Publish(_) => 2,
            Step::Release(None) => 2,
            Step::Release(Some(_)) => 1,
            Step::Fallback => 1,
            Step::Done(_) => 0,
        }
    }

    /// After the look at the source slot: go for the latch if a source
    /// seemed to be pending, serve the cache if not.
    #[verifier::allow_in_spec]
    pub fn after_peek(seen: bool) -> Step<S, T>
        returns
            (if seen {
                Step::<S, T>::Claim
            } else {
                Step::<S, T>::Fallback
            }),
    {
        if seen {
            Step::Claim
        } else {
            Step::Fallback
        }
    }

    /// After the try for the latch: drain the source slot if the latch was
    /// granted; if somebody else holds it, do not wait and serve the cache.
    #[verifier::allow_in_spec]
    pub fn after_claim(claimed: bool) -> Step<S, T>
        returns
            (if claimed {
                Step::<S, T>::Drain
            } else {
                Step::<S, T>::Fallback
            }),
    {
        if claimed {
            Step::Drain
        } else {
            Step::Fallback
        }
    }

    /// After the source slot was drained: transform the source that came
    /// out. If nothing came out (another reader took it, or the look was
    /// stale), give the latch back with nothing fresh.
    #[verifier::allow_in_spec]
    pub fn after_drain(drained: Option<S>) -> Step<S, T>
        returns
            (match drained {
                Some(source) => Step::<S, T>::Transform(source),
                None => Step::<S, T>::Release(None),
            }),
    {
        match drained {
            Some(source) => Step::Transform(source),
            None => Step::Release(None),
        }
    }

    /// After the transform ran: publish the value that it produced. If it
    /// declined, the source is gone, the cache is left alone, and the latch
    /// goes back with nothing fresh.
    #[verifier::allow_in_spec]
    pub fn after_transform(produced: Option<T>) -> Step<S, T>
        returns
            (match produced {
                Some(fresh) => Step::<S, T>::Publish(fresh),
                None => Step::<S, T>::Release(None),
            }),
    {
        match produced {
            Some(fresh) => Step::Publish(fresh),
            None => Step::Release(None),
        }
    }

    /// After the fresh value went into the cache: give the latch back, and
    /// keep the fresh value to return it.
    #[verifier::allow_in_spec]
    pub fn after_publish(fresh: T) -> Step<S, T>
        returns
            Step::<S, T>::Release(Some(fresh)),
    {
        Step::Release(Some(fresh))
    }

    /// After the latch went back: a fresh value is the result of the read;
    /// without one the cache is served.
    #[verifier::allow_in_spec]
    pub fn after_release(fresh: Option<T>) -> Step<S, T>
        returns
            (match fresh {
                Some(value) => Step::<S, T>::Done(Some(value)),
                None => Step::<S, T>::Fallback,
            }),
    {
        match fresh {
            Some(value) => Step::Done(Some(value)),
            None => Step::Fallback,
        }
    }

    /// After the cache was read: what it held is the result of the read,
    /// and nothing if it was empty.
    #[verifier::allow_in_spec]
    pub fn after_fallback(cached: Option<T>) -> Step<S, T>
        returns
            Step::<S, T>::Done(cached),
    {
        Step::Done(cached)
    }
}

} // verus!
