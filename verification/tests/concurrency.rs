use lazy_transform::LazyTransform;
use std::sync::atomic::AtomicUsize;
use std::sync::atomic::Ordering;

#[test]
fn the_transform_never_runs_on_two_threads_at_once() {
    let inside = AtomicUsize::new(0);
    let overlaps = AtomicUsize::new(0);
    let runs = AtomicUsize::new(0);
    let cache = LazyTransform::new(|n: usize| {
        if inside.fetch_add(1, Ordering::SeqCst) != 0 {
            overlaps.fetch_add(1, Ordering::SeqCst);
        }
        runs.fetch_add(1, Ordering::SeqCst);
        let mut spin = 0usize;
        for round in 0..200 {
            spin = spin.wrapping_add(round ^ n);
        }
        inside.fetch_sub(1, Ordering::SeqCst);
        if spin == usize::MAX {
            None
        } else {
            Some(n)
        }
    });
    crossbeam::scope(|scope| {
        for producer in 0..2usize {
            let cache = &cache;
            scope.spawn(move |_| {
                for n in 0..3000usize {
                    cache.set_source(producer * 10_000 + n);
                }
            });
        }
        for _ in 0..6 {
            let cache = &cache;
            scope.spawn(move |_| {
                for _ in 0..3000 {
                    let _ = cache.get_transformed();
                }
            });
        }
    })
    .unwrap();
    assert_eq!(overlaps.load(Ordering::SeqCst), 0);
    assert!(runs.load(Ordering::SeqCst) > 0);
    assert!(runs.load(Ordering::SeqCst) <= 6000);
}

#[test]
fn a_reader_never_sees_the_cache_go_empty_again() {
    let cache = LazyTransform::new(|n: u64| if n % 3 == 0 { None } else { Some(n) });
    let reverted = AtomicUsize::new(0);
    crossbeam::scope(|scope| {
        let cache = &cache;
        scope.spawn(move |_| {
            for n in 1..5000u64 {
                cache.set_source(n);
            }
        });
        for _ in 0..4 {
            let reverted = &reverted;
            scope.spawn(move |_| {
                let mut filled = false;
                for _ in 0..5000 {
                    match cache.get_transformed() {
                        Some(value) => {
                            assert!(value % 3 != 0);
                            filled = true;
                        }
                        None => {
                            if filled {
                                reverted.fetch_add(1, Ordering::SeqCst);
                            }
                        }
                    }
                }
            });
        }
    })
    .unwrap();
    assert_eq!(reverted.load(Ordering::SeqCst), 0);
    assert!(cache.get_transformed().is_some());
}

struct Counted<'a> {
    live: &'a AtomicUsize,
    made: &'a AtomicUsize,
    payload: usize,
}

impl<'a> Counted<'a> {
    fn new(live: &'a AtomicUsize, made: &'a AtomicUsize, payload: usize) -> Counted<'a> {
        live.fetch_add(1, Ordering::SeqCst);
        made.fetch_add(1, Ordering::SeqCst);
        Counted { live, made, payload }
    }
}

impl<'a> Clone for Counted<'a> {
    fn clone(&self) -> Counted<'a> {
        Counted::new(self.live, self.made, self.payload)
    }
}

impl<'a> Drop for Counted<'a> {
    fn drop(&mut self) {
        self.live.fetch_sub(1, Ordering::SeqCst);
    }
}

#[test]
fn every_value_that_was_made_is_released_once() {
    let live = AtomicUsize::new(0);
    let made = AtomicUsize::new(0);
    {
        let cache = LazyTransform::new(|source: Counted<'_>| {
            if source.payload % 5 == 0 {
                None
            } else {
                Some(Counted::new(source.live, source.made, source.payload + 1))
            }
        });
        crossbeam::scope(|scope| {
            for producer in 0..3usize {
                let cache = &cache;
                let live = &live;
                let made = &made;
                scope.spawn(move |_| {
                    for n in 0..2000usize {
                        cache.set_source(Counted::new(live, made, producer + 3 * n));
                    }
                });
            }
            for _ in 0..5 {
                let cache = &cache;
                scope.spawn(move |_| {
                    for _ in 0..2000 {
                        if let Some(value) = cache.get_transformed() {
                            assert!(value.payload % 5 != 1);
                        }
                    }
                });
            }
        })
        .unwrap();
        cache.set_source(Counted::new(&live, &made, 7));
        let last = cache.get_transformed();
        assert_eq!(last.map(|value| value.payload), Some(8));
        cache.set_source(Counted::new(&live, &made, 11));
        assert_eq!(live.load(Ordering::SeqCst), 2);
    }
    assert!(made.load(Ordering::SeqCst) >= 6000);
    assert_eq!(live.load(Ordering::SeqCst), 0);
}

#[test]
fn one_quiet_source_reaches_every_reader() {
    let cache = LazyTransform::new(|n: u32| Some(n * 2));
    cache.set_source(21);
    crossbeam::scope(|scope| {
        for _ in 0..8 {
            let cache = &cache;
            scope.spawn(move |_| {
                let mut last = None;
                for _ in 0..1000 {
                    let value = cache.get_transformed();
                    if value.is_some() {
                        assert_eq!(value, Some(42));
                    } else {
                        assert_eq!(last, None);
                    }
                    last = value;
                }
            });
        }
    })
    .unwrap();
    assert_eq!(cache.get_transformed(), Some(42));
}

#[test]
fn a_reader_that_is_refused_the_latch_serves_the_old_value_at_once() {
    let entered = std::sync::atomic::AtomicBool::new(false);
    let leave = std::sync::atomic::AtomicBool::new(false);
    let cache = LazyTransform::new(|n: u64| {
        if n == 2 {
            entered.store(true, Ordering::SeqCst);
            while !leave.load(Ordering::SeqCst) {
                std::hint::spin_loop();
            }
        }
        Some(n * 10)
    });
    cache.set_source(1);
    assert_eq!(cache.get_transformed(), Some(10));
    cache.set_source(2);
    crossbeam::scope(|scope| {
        let slow = scope.spawn(|_| cache.get_transformed());
        while !entered.load(Ordering::SeqCst) {
            std::hint::spin_loop();
        }
        // The transform is running on the other thread and holds the latch.
        assert_eq!(cache.get_transformed(), Some(10));
        cache.set_source(3);
        assert_eq!(cache.get_transformed(), Some(10));
        leave.store(true, Ordering::SeqCst);
        assert_eq!(slow.join().unwrap(), Some(20));
    })
    .unwrap();
    assert_eq!(cache.get_transformed(), Some(30));
    assert_eq!(cache.get_transformed(), Some(30));
}

#[test]
fn a_transform_that_panics_gives_the_latch_back() {
    let cache = LazyTransform::new(|n: u64| {
        if n == 13 {
            panic!("unlucky source");
        }
        Some(n + 1)
    });
    cache.set_source(13);
    let outcome = crossbeam::scope(|scope| scope.spawn(|_| cache.get_transformed()).join().is_err());
    assert_eq!(outcome.unwrap(), true);
    cache.set_source(1);
    assert_eq!(cache.get_transformed(), Some(2));
}
