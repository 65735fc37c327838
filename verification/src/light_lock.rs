//! A try-only latch: one bit, claimed without waiting and given back when the
//! claim's token goes out of scope.

use std::sync::atomic::AtomicBool;
use std::sync::atomic::Ordering;
use vstd::prelude::*;

verus! {

/// A single-holder latch that never blocks. A caller either gets a token or
/// learns at once that somebody else holds the latch.
///
/// The latch is not re-entrant: a holder that claims again is refused like
/// anybody else.
#[derive(Debug)]
pub struct LightLock {
    held: AtomicBool,
}

/// The token of a successful claim. Dropping it frees the latch, on every
/// way out of the scope that owns it.
pub struct LightGuard<'a> {
    lock: &'a LightLock,
}

/// `AtomicBool::store` with release ordering. The store writes the flag and
/// does nothing else; in particular it cannot unwind, which a destructor has
/// to show and vstd does not state of `store`.
#[verifier::external_body]
fn store_release(flag: &AtomicBool, value: bool)
    opens_invariants none
    no_unwind
{
    flag.store(value, Ordering::Release);
}

impl LightLock {
    /// A free latch.
    pub fn new() -> LightLock {
        LightLock { held: AtomicBool::new(false) }
    }

    /// Sets the flag and grants a token to the caller that saw it go from
    /// free to held. Whether that happens is decided by the other threads;
    /// a token that is granted always belongs to this latch.
    pub fn try_lock<'a>(&'a self) -> (token: Option<LightGuard<'a>>)
        ensures
            token matches Some(guard) ==> guard.guards() == self,
    {
        let was_locked = self.held.swap(true, Ordering::Acquire);
        self.grant(was_locked)
    }

    /// The outcome of a claim whose test-and-set found the flag at
    /// `was_locked`: a token exactly when the flag was free.
    fn grant<'a>(&'a self, was_locked: bool) -> (token: Option<LightGuard<'a>>)
        ensures
            token is Some <==> !was_locked,
            token matches Some(guard) ==> guard.guards() == self,
    {
        if was_locked {
            None
        } else {
            Some(LightGuard { lock: self })
        }
    }
}

impl<'a> LightGuard<'a> {
    /// The latch that this token holds.
    pub closed spec fn guards(&self) -> &'a LightLock {
        self.lock
    }
}

impl<'a> Drop for LightGuard<'a> {
    fn drop(&mut self)
        opens_invariants none
        no_unwind
    {
        store_release(&self.lock.held, false);
    }
}

} // verus!
