use flow_guard::strategy::VegasStrategy;
use flow_guard::LimitStrategy;

#[test]
fn test_vegas_actually_adjusts() {
    let mut strategy = VegasStrategy::new(10);

    assert_eq!(strategy.current_limit(), 10);

    for _ in 0..20 {
        strategy.on_success(10_000_000);
    }
    let limit_after_fast = strategy.current_limit();
    assert!(
        limit_after_fast > 10,
        "Deveria aumentar com sistema rápido. Limite: {}",
        limit_after_fast
    );

    for _ in 0..20 {
        strategy.on_success(200_000_000); // 20x mais lento
    }
    let limit_after_slow = strategy.current_limit();
    assert!(
        limit_after_slow < limit_after_fast,
        "Deveria diminuir com congestionamento. Era: {}, Agora: {}",
        limit_after_fast,
        limit_after_slow
    );
}

#[test]
fn base_rtt_tracks_the_minimum_latency() {
    let mut strategy = VegasStrategy::new(4);
    // The base starts at one second and only ever moves down to the smallest
    // sample seen, whatever order the samples come in.
    strategy.on_success(5_000_000);
    strategy.on_success(3_000_000);
    strategy.on_success(8_000_000);
    // A sample far above the 3 ms base now signals congestion and lowers
    // the limit — which it only does because the base stayed at the
    // minimum seen and was not dragged up by the 8 ms sample.
    let before = strategy.current_limit();
    strategy.on_success(300_000_000);
    assert_eq!(strategy.current_limit(), before - 1);
}

#[test]
fn limit_never_leaves_its_bounds() {
    let mut strategy = VegasStrategy::new(2);
    // min_limit is 1: errors can never push the limit below it.
    for _ in 0..10 {
        strategy.on_error();
        assert!(strategy.current_limit() >= 1);
    }
    assert_eq!(strategy.current_limit(), 1);
    // max_limit is 20: fast successes can never push the limit above it.
    for _ in 0..40 {
        strategy.on_success(1_000_000);
        assert!(strategy.current_limit() <= 20);
    }
    assert_eq!(strategy.current_limit(), 20);
}

#[test]
fn error_backs_off_to_three_quarters() {
    let mut strategy = VegasStrategy::new(10);
    strategy.on_error();
    assert_eq!(strategy.current_limit(), 7); // 10 * 3 / 4
    strategy.on_error();
    assert_eq!(strategy.current_limit(), 5); // 7 * 3 / 4
    strategy.on_error();
    assert_eq!(strategy.current_limit(), 3); // 5 * 3 / 4
}

#[test]
fn error_at_the_floor_changes_nothing() {
    let mut strategy = VegasStrategy::new(1);
    strategy.on_error();
    assert_eq!(strategy.current_limit(), 1);
}

#[test]
fn neutral_latency_inside_the_dead_zone_holds_the_limit() {
    let mut strategy = VegasStrategy::new(10);
    // Establish a 1 ms base; this first sample also grows the limit to 11.
    strategy.on_success(1_000_000);
    assert_eq!(strategy.current_limit(), 11);
    // At 1.4 ms the metric is 11 * 0.4ms against thresholds 2 * 1.4ms and
    // 4 * 1.4ms: inside [alpha, beta], so nothing moves.
    for _ in 0..5 {
        strategy.on_success(1_400_000);
        assert_eq!(strategy.current_limit(), 11);
    }
}

#[test]
fn with_alpha_changes_the_growth_threshold() {
    // With the default alpha of 2, a sample equal to the base grows the
    // limit; with alpha forced to 0 the metric 0 is no longer below the
    // threshold, so the same sample leaves the limit alone.
    let mut eager = VegasStrategy::new(10);
    eager.on_success(5_000_000);
    assert_eq!(eager.current_limit(), 11);

    let mut flat = VegasStrategy::new(10).with_alpha(0);
    flat.on_success(5_000_000);
    assert_eq!(flat.current_limit(), 10);
}

#[test]
fn with_beta_changes_the_backoff_threshold() {
    // After a 10 ms first sample the limit is 11 and the base 10 ms. At
    // 15 ms the metric is 11 * 5ms against threshold * 15ms: below the
    // default beta of 4 (dead zone, hold), but above a tightened beta of 3,
    // which decrements.
    let mut default_beta = VegasStrategy::new(10);
    default_beta.on_success(10_000_000);
    let at_default = default_beta.current_limit();
    default_beta.on_success(15_000_000);
    assert_eq!(default_beta.current_limit(), at_default);

    let mut tight = VegasStrategy::new(10).with_beta(3);
    tight.on_success(10_000_000);
    let at_tight = tight.current_limit();
    tight.on_success(15_000_000);
    assert_eq!(tight.current_limit(), at_tight - 1);
}
