//! The cache as a mathematical object. What holds of it is proved in
//! [`crate::laws`].
//!
//! [`Cells`] is what all threads share, as plain values: the pending
//! source, the cached value and the latch. [`Cells::act`] is the effect of
//! one atomic action of a reader on it, with the reader's next step decided
//! by the functions of [`crate::protocol`]. [`World`] adds any number of
//! readers, each at a step of its own, and producers that publish at any
//! time; a schedule is a sequence of their moves in the order in which the
//! shared cells see them.
//!
//! In this model a duplicate of a value is the value, and the look at the
//! source slot may show anything: it is advisory.

use crate::protocol::Step;
use vstd::prelude::*;

verus! {

/// The shared cells.
pub struct Cells<S, T> {
    /// The source that awaits its transform, if there is one.
    pub pending: Option<S>,
    /// The value that was transformed last, if there ever was one.
    pub cached: Option<T>,
    /// Whether some reader holds the latch.
    pub held: bool,
}

impl<S, T> Cells<S, T> {
    /// Both slots empty, the latch free.
    pub open spec fn empty() -> Self {
        Cells { pending: None, cached: None, held: false }
    }

    /// What `set_source` does: `source` is pending, in place of whatever was.
    pub open spec fn publish(self, source: S) -> Self {
        Cells { pending: Some(source), cached: self.cached, held: self.held }
    }

    /// One atomic action of a reader at `step`: what it does to the shared
    /// cells, and where the reader stands after it. `seen` is what the look
    /// at the source slot shows, `produced` what the transform returns; each
    /// matters at its own step only.
    pub open spec fn act(self, step: Step<S, T>, seen: bool, produced: Option<T>) -> (
        Self,
        Step<S, T>,
    ) {
        match step {
            Step::Peek => (self, Step::after_peek(seen)),
            Step::Claim => (
                Cells { pending: self.pending, cached: self.cached, held: true },
                Step::after_claim(!self.held),
            ),
            Step::Drain => (
                Cells { pending: None, cached: self.cached, held: self.held },
                Step::after_drain(self.pending),
            ),
            Step::Transform(_) => (self, Step::after_transform(produced)),
            Step::Publish(fresh) => (
                Cells { pending: self.pending, cached: Some(fresh), held: self.held },
                Step::after_publish(fresh),
            ),
            Step::Release(fresh) => (
                Cells { pending: self.pending, cached: self.cached, held: false },
                Step::after_release(fresh),
            ),
            Step::Fallback => (self, Step::after_fallback(self.cached)),
            Step::Done(value) => (self, Step::Done(value)),
        }
    }

    /// Whether a reader at `step` can stand at `next` after its action: for
    /// some state of the cells, some look at the source slot and some
    /// outcome of the transform.
    pub open spec fn allows(step: Step<S, T>, next: Step<S, T>) -> bool {
        exists|cells: Cells<S, T>, seen: bool, produced: Option<T>|
            (#[trigger] cells.act(step, seen, produced)).1 == next
    }

    /// A reader that is alone with the cells takes `turns` actions from
    /// `step`. Being alone, its look at the source slot shows what is there.
    pub open spec fn walk(self, step: Step<S, T>, produced: Option<T>, turns: nat) -> (
        Self,
        Step<S, T>,
    )
        decreases turns,
    {
        if turns == 0 {
            (self, step)
        } else {
            let (cells, next) = self.act(step, self.pending is Some, produced);
            cells.walk(next, produced, (turns - 1) as nat)
        }
    }

    /// A whole read by a reader that is alone with the cells, in one piece:
    /// the cells after it and its result. `produced` is what the transform
    /// returns if the read gets to run it.
    pub open spec fn read(self, produced: Option<T>) -> (Self, Option<T>) {
        if self.held || self.pending is None {
            (self, self.cached)
        } else {
            match produced {
                Some(fresh) => (
                    Cells { pending: None, cached: Some(fresh), held: false },
                    Some(fresh),
                ),
                None => (Cells { pending: None, cached: self.cached, held: false }, self.cached),
            }
        }
    }
}

/// A move of one thread.
pub enum Move<S, T> {
    /// A producer publishes a source.
    Publish(S),
    /// The reader of this number starts a read, if it is not in the middle
    /// of one.
    Begin(nat),
    /// The reader of this number takes the action of its step; the look at
    /// the source slot shows the `bool`, the transform returns the `Option`.
    Act(nat, bool, Option<T>),
}

/// The shared cells together with the readers that have started a read.
pub struct World<S, T> {
    pub cells: Cells<S, T>,
    pub readers: Map<nat, Step<S, T>>,
}

impl<S, T> World<S, T> {
    /// Empty cells and no reader yet.
    pub open spec fn initial() -> Self {
        World { cells: Cells::empty(), readers: Map::empty() }
    }

    /// Whether `reader` stands at a step that is taken with the latch held.
    pub open spec fn holder(self, reader: nat) -> bool {
        self.readers.dom().contains(reader) && self.readers[reader].holds_latch()
    }

    /// Whether `reader` is about to run the transform.
    pub open spec fn transforming(self, reader: nat) -> bool {
        self.readers.dom().contains(reader) && self.readers[reader] is Transform
    }

    /// The world after one move.
    pub open spec fn next(self, m: Move<S, T>) -> Self {
        match m {
            Move::Publish(source) => World {
                cells: self.cells.publish(source),
                readers: self.readers,
            },
            Move::Begin(reader) => {
                if !self.readers.dom().contains(reader) || self.readers[reader] is Done {
                    World { cells: self.cells, readers: self.readers.insert(reader, Step::Peek) }
                } else {
                    self
                }
            },
            Move::Act(reader, seen, produced) => {
                if self.readers.dom().contains(reader) {
                    let (cells, step) = self.cells.act(self.readers[reader], seen, produced);
                    World { cells: cells, readers: self.readers.insert(reader, step) }
                } else {
                    self
                }
            },
        }
    }

    /// The world after the moves of `schedule`, in their order.
    pub open spec fn run(self, schedule: Seq<Move<S, T>>) -> Self
        decreases schedule.len(),
    {
        if schedule.len() == 0 {
            self
        } else {
            self.run(schedule.drop_last()).next(schedule.last())
        }
    }

    /// The latch is held exactly while one reader stands at a step that
    /// needs it, and no two readers stand at such steps.
    pub open spec fn one_holder(self) -> bool {
        &&& forall|a: nat, b: nat| self.holder(a) && self.holder(b) ==> a == b
        &&& self.cells.held <==> exists|a: nat| self.holder(a)
    }

    /// Whether `reader` carries a value: one that it has published and is
    /// about to return, or one that its read has ended with.
    pub open spec fn served(self, reader: nat) -> bool {
        &&& self.readers.dom().contains(reader)
        &&& (self.readers[reader] matches Step::Release(Some(_))
            || self.readers[reader] matches Step::Done(Some(_)))
    }

    /// Whether the last read of `reader` ended with nothing.
    pub open spec fn unserved(self, reader: nat) -> bool {
        self.readers.dom().contains(reader) && self.readers[reader] matches Step::Done(None)
    }

    /// No reader carries a value unless the cache holds one.
    pub open spec fn values_are_cached(self) -> bool {
        forall|reader: nat| self.served(reader) ==> self.cells.cached is Some
    }
}

/// The sources that the producers publish in the course of `schedule`.
pub open spec fn published<S, T>(schedule: Seq<Move<S, T>>) -> Set<S>
    decreases schedule.len(),
{
    if schedule.len() == 0 {
        Set::empty()
    } else {
        match schedule.last() {
            Move::Publish(source) => published(schedule.drop_last()).insert(source),
            _ => published(schedule.drop_last()),
        }
    }
}

/// Whether `value` is what `transform` can return for one of `sources`.
pub open spec fn derived<S, T, FN: Fn(S) -> Option<T>>(
    transform: FN,
    sources: Set<S>,
    value: T,
) -> bool {
    exists|source: S| #[trigger]
        sources.contains(source) && call_ensures(transform, (source,), Some(value))
}

/// Whether the transform of `schedule` is `transform`: wherever a reader
/// takes the action of a `Transform` step, the outcome that the move names
/// is one that `transform` can return for the source that the step carries.
pub open spec fn transforms_with<S, T, FN: Fn(S) -> Option<T>>(
    transform: FN,
    schedule: Seq<Move<S, T>>,
) -> bool
    decreases schedule.len(),
{
    if schedule.len() == 0 {
        true
    } else {
        let world = World::<S, T>::initial().run(schedule.drop_last());
        &&& transforms_with(transform, schedule.drop_last())
        &&& schedule.last() matches Move::Act(reader, _, produced) ==> (world.readers.dom().contains(
            reader,
        ) ==> (world.readers[reader] matches Step::Transform(source) ==> call_ensures(
            transform,
            (source,),
            produced,
        )))
    }
}

/// Whether what a reader at `step` carries has its origin in `sources`: a
/// source that is about to be transformed is one of them, and a value is
/// what `transform` can return for one of them.
pub open spec fn carries_grounded<S, T, FN: Fn(S) -> Option<T>>(
    transform: FN,
    sources: Set<S>,
    step: Step<S, T>,
) -> bool {
    match step {
        Step::Transform(source) => sources.contains(source),
        Step::Publish(value) => derived(transform, sources, value),
        Step::Release(Some(value)) => derived(transform, sources, value),
        Step::Done(Some(value)) => derived(transform, sources, value),
        _ => true,
    }
}

/// Whether every source and every value in `world` has its origin in
/// `sources`: the pending source is one of them, the cached value is what
/// `transform` can return for one of them, and so is what every reader
/// carries.
pub open spec fn grounded<S, T, FN: Fn(S) -> Option<T>>(
    transform: FN,
    sources: Set<S>,
    world: World<S, T>,
) -> bool {
    &&& world.cells.pending matches Some(source) ==> sources.contains(source)
    &&& world.cells.cached matches Some(value) ==> derived(transform, sources, value)
    &&& forall|reader: nat| #[trigger]
        world.readers.dom().contains(reader) ==> carries_grounded(
            transform,
            sources,
            world.readers[reader],
        )
}

/// The schedule in which `sources` are published one after the other, with
/// no read in between.
pub open spec fn publishing<S, T>(sources: Seq<S>) -> Seq<Move<S, T>> {
    Seq::new(sources.len(), |i: int| Move::Publish(sources[i]))
}

} // verus!
