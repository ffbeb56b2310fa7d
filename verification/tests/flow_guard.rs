use flow_guard::error::FlowError;
use flow_guard::limiter::FlowGuard;
use flow_guard::strategy::VegasStrategy;

#[test]
fn successful_work_passes_its_value_through() {
    let mut guard = FlowGuard::new(VegasStrategy::new(5));
    assert_eq!(guard.current_limit(), 5);
    assert_eq!(guard.available_permits(), 5);

    let outcome = guard.run(|| Ok::<u32, &str>(42));
    assert_eq!(outcome, Ok(42));

    // Success feedback never shrinks below the starting limit here: the
    // observed latency either grows the limit by one or (at a degenerate
    // zero-nanosecond reading) leaves it alone.
    assert!(guard.current_limit() >= 5);
}

#[test]
fn failing_work_surfaces_as_application_error_and_backs_off() {
    let mut guard = FlowGuard::new(VegasStrategy::new(10));

    let outcome = guard.run(|| Err::<u32, &str>("boom"));
    assert_eq!(outcome, Err(FlowError::AppError("boom")));

    // The error was recorded exactly once: one multiplicative backoff from
    // 10 to 7, and the permit came back — the pool follows the new limit.
    assert_eq!(guard.current_limit(), 7);
    assert_eq!(guard.available_permits(), 7);
}

#[test]
fn an_exhausted_guard_refuses_without_running_or_recording() {
    let mut guard = FlowGuard::new(VegasStrategy::new(1));
    let permit = guard.try_acquire().expect("the only permit");
    assert_eq!(guard.available_permits(), 0);

    let mut ran = false;
    let outcome = guard.run(|| {
        ran = true;
        Ok::<u32, &str>(1)
    });
    assert_eq!(outcome, Err(FlowError::Dropped));
    assert!(!ran, "refused work must not run");
    // No feedback was recorded for the refused call.
    assert_eq!(guard.current_limit(), 1);

    // An abandoned call still returns its permit, waking the one waiter an
    // exhausted pool may have.
    let woke = guard.abandon(permit);
    assert!(woke);
    assert_eq!(guard.available_permits(), 1);
}

#[test]
fn permits_are_conserved_across_mixed_outcomes() {
    let mut guard = FlowGuard::new(VegasStrategy::new(3));
    // After every completed call — success, failure, or refusal — the free
    // pool equals the current limit: nothing leaked, nothing doubled.
    for round in 0..6 {
        if round % 2 == 0 {
            let _ = guard.run(|| Ok::<u32, &str>(round));
        } else {
            let _ = guard.run(|| Err::<u32, &str>("slow down"));
        }
        assert_eq!(guard.available_permits(), guard.current_limit());
    }
}

#[test]
fn fast_work_lets_the_limit_grow() {
    let mut guard = FlowGuard::new(VegasStrategy::new(5));
    for i in 0..3 {
        guard.run(|| Ok::<u32, &str>(i)).unwrap();
    }
    assert!(guard.current_limit() >= 5, "Limite deveria ser pelo menos 5");
}

#[test]
fn the_three_outcomes_are_distinct() {
    let dropped: FlowError<&str> = FlowError::Dropped;
    let closed: FlowError<&str> = FlowError::Closed;
    let app: FlowError<&str> = FlowError::from("cause");
    assert!(matches!(dropped, FlowError::Dropped));
    assert!(matches!(closed, FlowError::Closed));
    assert!(matches!(app, FlowError::AppError("cause")));
    assert_ne!(dropped, closed);
    assert_ne!(dropped, app);
    assert_ne!(closed, app);
}
