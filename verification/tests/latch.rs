use lazy_transform::LightLock;

#[test]
fn the_latch_is_granted_once_until_its_token_is_dropped() {
    let latch = LightLock::new();
    let first = latch.try_lock();
    assert!(first.is_some());
    assert!(latch.try_lock().is_none());
    drop(first);
    assert!(latch.try_lock().is_some());
}

#[test]
fn a_new_latch_is_free() {
    let latch = LightLock::new();
    assert!(latch.try_lock().is_some());
}

#[test]
fn a_refused_claim_does_not_free_the_latch() {
    let latch = LightLock::new();
    let token = latch.try_lock();
    assert!(token.is_some());
    assert!(latch.try_lock().is_none());
    assert!(latch.try_lock().is_none());
    drop(token);
    let again = latch.try_lock();
    assert!(again.is_some());
}

fn claim_and_leave_early(latch: &LightLock, leave: bool) -> bool {
    let token = latch.try_lock();
    if token.is_none() {
        return false;
    }
    if leave {
        return true;
    }
    true
}

#[test]
fn the_token_frees_the_latch_on_every_way_out() {
    let latch = LightLock::new();
    assert!(claim_and_leave_early(&latch, true));
    assert!(claim_and_leave_early(&latch, false));
    assert!(latch.try_lock().is_some());
}

#[test]
fn the_latch_has_one_holder_among_many_threads() {
    let latch = LightLock::new();
    let inside = std::sync::atomic::AtomicUsize::new(0);
    let overlaps = std::sync::atomic::AtomicUsize::new(0);
    let grants = std::sync::atomic::AtomicUsize::new(0);
    crossbeam::scope(|scope| {
        for _ in 0..8 {
            scope.spawn(|_| {
                for _ in 0..2000 {
                    if let Some(_token) = latch.try_lock() {
                        if inside.fetch_add(1, std::sync::atomic::Ordering::SeqCst) != 0 {
                            overlaps.fetch_add(1, std::sync::atomic::Ordering::SeqCst);
                        }
                        grants.fetch_add(1, std::sync::atomic::Ordering::SeqCst);
                        inside.fetch_sub(1, std::sync::atomic::Ordering::SeqCst);
                    }
                }
            });
        }
    })
    .unwrap();
    assert_eq!(overlaps.load(std::sync::atomic::Ordering::SeqCst), 0);
    assert!(grants.load(std::sync::atomic::Ordering::SeqCst) > 0);
    assert!(latch.try_lock().is_some());
}
