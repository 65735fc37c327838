//! What the protocol guarantees, proved of the model in [`crate::model`].
//!
//! The laws on [`Cells`] speak of one reader that is alone with the cells;
//! the laws on [`World`] speak of every schedule of readers and producers.

use crate::model::carries_grounded;
use crate::model::derived;
use crate::model::grounded;
use crate::model::published;
use crate::model::publishing;
use crate::model::transforms_with;
use crate::model::Cells;
use crate::model::Move;
use crate::model::World;
use crate::protocol::Step;
use vstd::prelude::*;

verus! {

/// A read takes at most six actions: every action of a reader that is not
/// done brings it strictly closer to `Done`, whatever the action shows, and a
/// reader that is alone is done after six.
pub proof fn reads_are_bounded<S, T>(
    cells: Cells<S, T>,
    step: Step<S, T>,
    seen: bool,
    produced: Option<T>,
)
    ensures
        !(step is Done) ==> cells.act(step, seen, produced).1.remaining() < step.remaining(),
        cells.walk(Step::Peek, produced, 6).1 is Done,
{
    reveal_with_fuel(Cells::walk, 7);
}

/// A read by a reader that is alone is the walk from `Peek` taken as one
/// piece: with the latch held elsewhere or nothing pending it returns the
/// cached value and changes nothing; otherwise it consumes the pending
/// source, and returns and caches what the transform produced, or returns
/// the cached value untouched where the transform declined.
pub proof fn lone_read_is_the_walk<S, T>(cells: Cells<S, T>, produced: Option<T>)
    ensures
        cells.walk(Step::Peek, produced, 6) == (
            cells.read(produced).0,
            Step::<S, T>::Done(cells.read(produced).1),
        ),
{
    reveal_with_fuel(Cells::walk, 7);
}

/// Of sources that are published in a row with no read in between, only the
/// last is still there: the world is as if it alone had been published, so
/// none of the others is ever transformed. The reader that drains the slot
/// next gets the last source and leaves the slot empty, so that source is
/// transformed once at most: a second drain finds nothing and gives the latch
/// back.
pub proof fn only_the_last_source_is_transformed<S, T>(world: World<S, T>, sources: Seq<S>)
    requires
        sources.len() > 0,
    ensures
        world.run(publishing(sources)) == world.next(Move::Publish(sources.last())),
        world.run(publishing(sources)).cells.act(Step::Drain, true, None).1 == Step::<
            S,
            T,
        >::Transform(sources.last()),
        world.run(publishing(sources)).cells.act(Step::Drain, true, None).0.act(
            Step::Drain,
            true,
            None,
        ).1 == Step::<S, T>::Release(None),
    decreases sources.len(),
{
    let earlier = sources.drop_last();
    let moves = publishing::<S, T>(sources);
    assert(moves.drop_last() == publishing::<S, T>(earlier));
    assert(moves.last() == Move::<S, T>::Publish(sources.last()));
    if earlier.len() > 0 {
        only_the_last_source_is_transformed(world, earlier);
    } else {
        assert(world.run(publishing::<S, T>(earlier)) == world);
    }
    assert(world.run(moves) == world.run(moves.drop_last()).next(moves.last()));
}

/// Once the cache holds a value it holds one for good: no action of a reader
/// and no publication empties it, a fallback on it ends the read with that
/// value, and a read by a reader that is alone returns a value.
pub proof fn a_filled_cache_stays_filled<S, T>(
    cells: Cells<S, T>,
    step: Step<S, T>,
    seen: bool,
    produced: Option<T>,
    source: S,
)
    requires
        cells.cached is Some,
    ensures
        cells.act(step, seen, produced).0.cached is Some,
        cells.publish(source).cached == cells.cached,
        step is Fallback ==> cells.act(step, seen, produced).1 == Step::<S, T>::Done(cells.cached),
        cells.read(produced).0.cached is Some,
        cells.read(produced).1 is Some,
{
}

/// Where the transform declines a source, the read returns what the cache
/// held before, or nothing if it held nothing, and the cache is as it was;
/// the source is gone for good once the read could claim the latch.
pub proof fn a_declined_source_leaves_the_cache<S, T>(cells: Cells<S, T>, source: S)
    ensures
        cells.publish(source).read(None).1 == cells.cached,
        cells.publish(source).read(None).0.cached == cells.cached,
        !cells.held ==> cells.publish(source).read(None).0.pending is None,
        cells.publish(source).walk(Step::Peek, None, 6) == (
            cells.publish(source).read(None).0,
            Step::<S, T>::Done(cells.cached),
        ),
{
    lone_read_is_the_walk(cells.publish(source), None);
}

/// No move breaks the latch: if it has one holder at most before a move, it
/// has one holder at most after it.
pub proof fn moves_keep_one_holder<S, T>(world: World<S, T>, m: Move<S, T>)
    requires
        world.one_holder(),
    ensures
        world.next(m).one_holder(),
{
    let after = world.next(m);
    match m {
        Move::Publish(source) => {
            assert(forall|a: nat| after.holder(a) == world.holder(a));
        },
        Move::Begin(reader) => {
            assert(forall|a: nat| after.holder(a) == world.holder(a));
        },
        Move::Act(reader, seen, produced) => {
            if world.readers.dom().contains(reader) {
                assert(forall|a: nat| a != reader ==> after.holder(a) == world.holder(a));
                if after.holder(reader) {
                    if !world.holder(reader) {
                        assert(world.readers[reader] is Claim);
                        assert(!world.cells.held);
                    }
                } else {
                    if world.holder(reader) {
                        assert(world.readers[reader] is Release);
                        assert(forall|a: nat| !after.holder(a));
                    } else {
                        assert(forall|a: nat| after.holder(a) == world.holder(a));
                    }
                }
            } else {
                assert(forall|a: nat| after.holder(a) == world.holder(a));
            }
        },
    }
}

/// Under every schedule of readers and producers, started from empty cells,
/// the latch has one holder at most.
pub proof fn schedules_keep_one_holder<S, T>(schedule: Seq<Move<S, T>>)
    ensures
        World::<S, T>::initial().run(schedule).one_holder(),
    decreases schedule.len(),
{
    if schedule.len() == 0 {
        assert(forall|a: nat| !World::<S, T>::initial().holder(a));
    } else {
        schedules_keep_one_holder(schedule.drop_last());
        moves_keep_one_holder(World::<S, T>::initial().run(schedule.drop_last()), schedule.last());
    }
}

/// Under every schedule of readers and producers, the transform never runs
/// on two threads at once: two readers that are both about to run it are the
/// same reader.
pub proof fn the_transform_runs_on_one_thread<S, T>(schedule: Seq<Move<S, T>>, a: nat, b: nat)
    requires
        World::<S, T>::initial().run(schedule).transforming(a),
        World::<S, T>::initial().run(schedule).transforming(b),
    ensures
        a == b,
{
    schedules_keep_one_holder(schedule);
    let world = World::<S, T>::initial().run(schedule);
    assert(world.holder(a) && world.holder(b));
}

/// Under every schedule started from empty cells, a reader carries a value
/// only while the cache holds one.
pub proof fn schedules_keep_values_cached<S, T>(schedule: Seq<Move<S, T>>)
    ensures
        World::<S, T>::initial().run(schedule).values_are_cached(),
    decreases schedule.len(),
{
    if schedule.len() > 0 {
        schedules_keep_values_cached(schedule.drop_last());
        let before = World::<S, T>::initial().run(schedule.drop_last());
        let after = before.next(schedule.last());
        assert forall|reader: nat| after.served(reader) implies after.cells.cached is Some by {
            if before.served(reader) {
                assert(before.cells.cached is Some);
            }
        }
    }
}

/// A reader whose read has ended with a value never ends a later read with
/// nothing, whatever the other readers and the producers do in between and
/// however often the transform declines.
pub proof fn a_reader_that_got_a_value_gets_one_ever_after<S, T>(
    before: Seq<Move<S, T>>,
    after: Seq<Move<S, T>>,
    reader: nat,
)
    requires
        World::<S, T>::initial().run(before).served(reader),
    ensures
        !World::<S, T>::initial().run(before).run(after).unserved(reader),
        World::<S, T>::initial().run(before).run(after).cells.cached is Some,
    decreases after.len(),
{
    schedules_keep_values_cached(before);
    if after.len() > 0 {
        a_reader_that_got_a_value_gets_one_ever_after(before, after.drop_last(), reader);
    }
}

/// A value that `transform` can return for one of some sources is one that it
/// can return for one of more sources.
proof fn more_sources_derive_more<S, T, FN: Fn(S) -> Option<T>>(
    transform: FN,
    sources: Set<S>,
    source: S,
    value: T,
)
    requires
        derived(transform, sources, value),
    ensures
        derived(transform, sources.insert(source), value),
{
    let origin = choose|origin: S| #[trigger]
        sources.contains(origin) && call_ensures(transform, (origin,), Some(value));
    assert(sources.insert(source).contains(origin));
}

/// What a reader carries keeps its origin when one more source is published.
proof fn more_sources_ground_more<S, T, FN: Fn(S) -> Option<T>>(
    transform: FN,
    sources: Set<S>,
    source: S,
    step: Step<S, T>,
)
    requires
        carries_grounded(transform, sources, step),
    ensures
        carries_grounded(transform, sources.insert(source), step),
{
    match step {
        Step::Publish(value) => more_sources_derive_more(transform, sources, source, value),
        Step::Release(Some(value)) => more_sources_derive_more(transform, sources, source, value),
        Step::Done(Some(value)) => more_sources_derive_more(transform, sources, source, value),
        _ => {},
    }
}

/// Nothing comes out of thin air. Under every schedule whose transform is
/// `transform`, every value that the cache holds and every value that a read
/// ends with is one that `transform` can return for a source that a producer
/// has published, and every source that is transformed is one that a
/// producer has published.
pub proof fn every_value_comes_from_a_published_source<S, T, FN: Fn(S) -> Option<T>>(
    transform: FN,
    schedule: Seq<Move<S, T>>,
)
    requires
        transforms_with(transform, schedule),
    ensures
        grounded(transform, published(schedule), World::<S, T>::initial().run(schedule)),
    decreases schedule.len(),
{
    if schedule.len() > 0 {
        let earlier = schedule.drop_last();
        every_value_comes_from_a_published_source(transform, earlier);
        let before = World::<S, T>::initial().run(earlier);
        let after = before.next(schedule.last());
        let sources = published(earlier);
        match schedule.last() {
            Move::Publish(source) => {
                let more = sources.insert(source);
                assert(more.contains(source));
                match before.cells.cached {
                    Some(value) => more_sources_derive_more(transform, sources, source, value),
                    None => {},
                }
                assert forall|reader: nat| #[trigger]
                    after.readers.dom().contains(reader) implies carries_grounded(
                    transform,
                    more,
                    after.readers[reader],
                ) by {
                    more_sources_ground_more(transform, sources, source, before.readers[reader]);
                }
            },
            Move::Begin(reader) => {
                assert forall|other: nat| #[trigger]
                    after.readers.dom().contains(other) implies carries_grounded(
                    transform,
                    sources,
                    after.readers[other],
                ) by {
                    if other != reader {
                        assert(before.readers.dom().contains(other));
                    }
                }
            },
            Move::Act(reader, seen, produced) => {
                if before.readers.dom().contains(reader) {
                    assert forall|other: nat| #[trigger]
                        after.readers.dom().contains(other) implies carries_grounded(
                        transform,
                        sources,
                        after.readers[other],
                    ) by {
                        assert(before.readers.dom().contains(other));
                        if other == reader {
                            match (before.readers[reader], produced) {
                                (Step::Transform(carried), Some(value)) => {
                                    assert(sources.contains(carried) && call_ensures(
                                        transform,
                                        (carried,),
                                        Some(value),
                                    ));
                                },
                                _ => {},
                            }
                        }
                    }
                }
            },
        }
    }
}

} // verus!
