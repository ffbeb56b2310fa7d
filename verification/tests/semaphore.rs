use flow_guard::semaphore::DynamicSemaphore;

#[test]
fn capacity_two_admits_two_then_refuses() {
    let mut sem = DynamicSemaphore::new(2);
    assert_eq!(sem.current_limit(), 2);
    assert_eq!(sem.available_permits(), 2);

    let first = sem.try_acquire().expect("first permit");
    let second = sem.try_acquire().expect("second permit");
    assert_eq!(sem.available_permits(), 0);

    // A third acquisition finds the pool empty; a suspended acquirer would
    // wait here until a permit comes back.
    assert!(sem.try_acquire().is_none());

    // Returning one permit (pool was exhausted, so one waiter is to be
    // woken) lets the next acquisition succeed.
    let woke = sem.release(first);
    assert!(woke);
    let third = sem.try_acquire().expect("permit after release");

    let _ = sem.release(second);
    let _ = sem.release(third);
    assert_eq!(sem.available_permits(), 2);
}

#[test]
fn growth_of_an_exhausted_pool_wakes_the_newly_added_number() {
    let mut sem = DynamicSemaphore::new(2);
    let a = sem.try_acquire().unwrap();
    let b = sem.try_acquire().unwrap();
    assert_eq!(sem.available_permits(), 0);

    // Growing from 2 to 5 adds three permits; the pool was empty, so three
    // wakeups are called for — one per new permit, not more.
    let woken = sem.set_limit(5);
    assert_eq!(woken, 3);
    assert_eq!(sem.current_limit(), 5);
    assert_eq!(sem.available_permits(), 3);

    let _ = sem.release(a);
    let _ = sem.release(b);
    assert_eq!(sem.available_permits(), 5);
}

#[test]
fn growth_of_a_nonempty_pool_wakes_nobody() {
    let mut sem = DynamicSemaphore::new(2);
    let _permit = sem.try_acquire().unwrap();
    assert_eq!(sem.available_permits(), 1);
    let woken = sem.set_limit(4);
    assert_eq!(woken, 0);
    assert_eq!(sem.available_permits(), 3);
}

#[test]
fn a_huge_growth_wakes_at_most_a_batch() {
    let mut sem = DynamicSemaphore::new(1);
    let permit = sem.try_acquire().unwrap();
    let woken = sem.set_limit(1000);
    assert_eq!(woken, 128);
    assert_eq!(sem.available_permits(), 999);
    let _ = sem.release(permit);
    assert_eq!(sem.available_permits(), 1000);
}

#[test]
fn shrink_takes_effect_gradually_through_clamped_releases() {
    let mut sem = DynamicSemaphore::new(5);
    let a = sem.try_acquire().unwrap();
    let b = sem.try_acquire().unwrap();
    assert_eq!(sem.available_permits(), 3);

    // Shrinking to 2 revokes nothing: the three free permits stay usable and
    // nobody is woken.
    let woken = sem.set_limit(2);
    assert_eq!(woken, 0);
    assert_eq!(sem.current_limit(), 2);
    assert_eq!(sem.available_permits(), 3);

    // Each release clamps the pool back down to the new ceiling instead of
    // replenishing above it.
    let woke = sem.release(a);
    assert!(!woke);
    assert_eq!(sem.available_permits(), 2);
    let _ = sem.release(b);
    assert_eq!(sem.available_permits(), 2);
}

#[test]
fn release_of_a_nonexhausted_pool_wakes_nobody() {
    let mut sem = DynamicSemaphore::new(3);
    let permit = sem.try_acquire().unwrap();
    assert_eq!(sem.available_permits(), 2);
    let woke = sem.release(permit);
    assert!(!woke);
    assert_eq!(sem.available_permits(), 3);
}
