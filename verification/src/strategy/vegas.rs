//! A TCP-Vegas-inspired control law.
//!
//! The strategy keeps the lowest latency ever observed as the uncongested
//! baseline (`base_rtt`) and compares each new sample against it. The Vegas
//! congestion metric is `limit * (latency - base_rtt) / latency`: it grows
//! when latency exceeds the baseline and shrinks toward zero as latency
//! approaches it. Above the threshold `beta` the limit is decremented, below
//! `alpha` it is incremented, and between the two nothing changes — a
//! deliberate dead zone that prevents oscillation. All comparisons against
//! the thresholds are carried out exactly on integers: the metric exceeds a
//! threshold `t` precisely when `limit * (latency - base_rtt) > t * latency`.

use crate::LimitStrategy;
use vstd::prelude::*;

verus! {

/// The running minimum of observed latencies: the base round-trip time after
/// one more sample.
pub open spec fn min_base_rtt(base: u64, sample: u64) -> u64 {
    if sample < base {
        sample
    } else {
        base
    }
}

/// The concurrency limit after one success observed at `latency` nanoseconds,
/// with `base` the (already updated) base round-trip time. A zero base or a
/// zero latency gives the metric no meaning, so the limit is left alone.
pub open spec fn vegas_limit_step(
    limit: usize,
    base: u64,
    latency: u64,
    alpha: u64,
    beta: u64,
    min_limit: usize,
    max_limit: usize,
) -> usize {
    if base == 0 || latency == 0 {
        limit
    } else if limit * (latency - base) > beta * latency {
        if limit > min_limit {
            (limit - 1) as usize
        } else {
            limit
        }
    } else if limit * (latency - base) < alpha * latency {
        if limit < max_limit {
            (limit + 1) as usize
        } else {
            limit
        }
    } else {
        limit
    }
}

/// The concurrency limit after one error: multiplicative backoff to three
/// quarters of its value, floored at `min_limit`; already at the floor,
/// nothing changes.
pub open spec fn backoff_limit(limit: usize, min_limit: usize) -> usize {
    if limit > min_limit {
        let reduced = limit * 3 / 4;
        if reduced > min_limit {
            reduced as usize
        } else {
            min_limit
        }
    } else {
        limit
    }
}

/// One feedback observation: a success with its latency in nanoseconds, or a
/// failure.
pub enum Feedback {
    Success(u64),
    Failure,
}

/// The strategy after one feedback observation.
pub open spec fn vegas_feedback(pre: VegasStrategy, event: Feedback) -> VegasStrategy {
    match event {
        Feedback::Success(latency_nanos) => VegasStrategy::success_step(pre, latency_nanos),
        Feedback::Failure => VegasStrategy::error_step(pre),
    }
}

/// The strategy after a whole sequence of feedback observations, applied in
/// order.
pub open spec fn vegas_feedbacks(pre: VegasStrategy, events: Seq<Feedback>) -> VegasStrategy
    decreases events.len(),
{
    if events.len() == 0 {
        pre
    } else {
        vegas_feedbacks(vegas_feedback(pre, events[0]), events.drop_first())
    }
}

/// The strategy after a sequence of success samples, applied in order.
pub open spec fn vegas_successes(pre: VegasStrategy, samples: Seq<u64>) -> VegasStrategy
    decreases samples.len(),
{
    if samples.len() == 0 {
        pre
    } else {
        vegas_successes(VegasStrategy::success_step(pre, samples[0]), samples.drop_first())
    }
}

/// The Vegas control law: a concurrency limit bounded by
/// `[min_limit, max_limit]`, the lowest observed latency as the uncongested
/// baseline, and the congestion thresholds `alpha` and `beta`.
pub struct VegasStrategy {
    current_limit: usize,
    base_rtt_nanos: u64,
    alpha: u64,
    beta: u64,
    min_limit: usize,
    max_limit: usize,
}

impl VegasStrategy {
    /// The base round-trip time, in nanoseconds.
    pub closed spec fn spec_base_rtt_nanos(&self) -> u64 {
        self.base_rtt_nanos
    }

    /// The lower congestion threshold: below it the limit grows.
    pub closed spec fn spec_alpha(&self) -> u64 {
        self.alpha
    }

    /// The upper congestion threshold: above it the limit shrinks.
    pub closed spec fn spec_beta(&self) -> u64 {
        self.beta
    }

    /// Creates a strategy that starts at `initial_limit`, bounded between 1
    /// and ten times the initial limit, with thresholds `alpha = 2` and
    /// `beta = 4` and a base round-trip time of one second, to be lowered by
    /// the first samples. The initial limit leaves enough headroom that the
    /// derived upper bound cannot overflow a resized semaphore's counter.
    pub fn new(initial_limit: usize) -> (s: Self)
        requires
            1 <= initial_limit,
            initial_limit <= usize::MAX / 20,
        ensures
            s.inv(),
            s.limit() == initial_limit,
            s.min_limit() == 1,
            s.max_limit() == initial_limit * 10,
            s.spec_base_rtt_nanos() == 1_000_000_000,
            s.spec_alpha() == 2,
            s.spec_beta() == 4,
    {
        VegasStrategy {
            current_limit: initial_limit,
            base_rtt_nanos: 1_000_000_000,
            alpha: 2,
            beta: 4,
            min_limit: 1,
            max_limit: initial_limit * 10,
        }
    }

    /// Replaces the lower congestion threshold.
    pub fn with_alpha(self, alpha: u64) -> (s: Self)
        ensures
            s.spec_alpha() == alpha,
            s.spec_beta() == self.spec_beta(),
            s.spec_base_rtt_nanos() == self.spec_base_rtt_nanos(),
            s.limit() == self.limit(),
            s.min_limit() == self.min_limit(),
            s.max_limit() == self.max_limit(),
            s.inv() == self.inv(),
    {
        VegasStrategy { alpha, ..self }
    }

    /// Replaces the upper congestion threshold.
    pub fn with_beta(self, beta: u64) -> (s: Self)
        ensures
            s.spec_beta() == beta,
            s.spec_alpha() == self.spec_alpha(),
            s.spec_base_rtt_nanos() == self.spec_base_rtt_nanos(),
            s.limit() == self.limit(),
            s.min_limit() == self.min_limit(),
            s.max_limit() == self.max_limit(),
            s.inv() == self.inv(),
    {
        VegasStrategy { beta, ..self }
    }
}

impl LimitStrategy for VegasStrategy {
    closed spec fn inv(&self) -> bool {
        1 <= self.min_limit <= self.current_limit <= self.max_limit <= usize::MAX / 2
    }

    closed spec fn limit(&self) -> usize {
        self.current_limit
    }

    closed spec fn min_limit(&self) -> usize {
        self.min_limit
    }

    closed spec fn max_limit(&self) -> usize {
        self.max_limit
    }

    closed spec fn success_step(pre: Self, latency_nanos: u64) -> Self {
        let base = min_base_rtt(pre.base_rtt_nanos, latency_nanos);
        VegasStrategy {
            base_rtt_nanos: base,
            current_limit: vegas_limit_step(
                pre.current_limit,
                base,
                latency_nanos,
                pre.alpha,
                pre.beta,
                pre.min_limit,
                pre.max_limit,
            ),
            ..pre
        }
    }

    closed spec fn error_step(pre: Self) -> Self {
        VegasStrategy { current_limit: backoff_limit(pre.current_limit, pre.min_limit), ..pre }
    }

    proof fn lemma_inv_bounds(&self) {
    }

    proof fn lemma_success_step_inv(pre: Self, latency_nanos: u64) {
    }

    proof fn lemma_error_step_inv(pre: Self) {
        let limit = pre.current_limit;
        if limit > pre.min_limit {
            assert(limit * 3 / 4 <= limit) by {
                assert(limit * 3 <= limit * 4) by (nonlinear_arith);
                assert(limit * 3 / 4 <= limit * 4 / 4) by (nonlinear_arith);
            };
        }
    }

    fn current_limit(&self) -> (limit: usize)
        ensures
            limit == self.limit(),
    {
        self.current_limit
    }

    fn on_success(&mut self, latency_nanos: u64)
        ensures
            final(self).spec_base_rtt_nanos() == min_base_rtt(
                old(self).spec_base_rtt_nanos(),
                latency_nanos,
            ),
            final(self).limit() == vegas_limit_step(
                old(self).limit(),
                final(self).spec_base_rtt_nanos(),
                latency_nanos,
                old(self).spec_alpha(),
                old(self).spec_beta(),
                old(self).min_limit(),
                old(self).max_limit(),
            ),
            final(self).spec_alpha() == old(self).spec_alpha(),
            final(self).spec_beta() == old(self).spec_beta(),
            final(self).min_limit() == old(self).min_limit(),
            final(self).max_limit() == old(self).max_limit(),
    {
        if latency_nanos < self.base_rtt_nanos {
            self.base_rtt_nanos = latency_nanos;
        }
        let base = self.base_rtt_nanos;
        let limit = self.current_limit;
        if base == 0 || latency_nanos == 0 {
            return ;
        }
        proof {
            assert((limit as int) * ((latency_nanos - base) as int) < u128::MAX as int)
                by (nonlinear_arith)
                requires
                    limit as int <= u64::MAX as int,
                    0 <= (latency_nanos - base) as int <= u64::MAX as int,
            ;
            assert((self.beta as int) * (latency_nanos as int) < u128::MAX as int)
                by (nonlinear_arith)
                requires
                    self.beta as int <= u64::MAX as int,
                    0 <= latency_nanos as int <= u64::MAX as int,
            ;
            assert((self.alpha as int) * (latency_nanos as int) < u128::MAX as int)
                by (nonlinear_arith)
                requires
                    self.alpha as int <= u64::MAX as int,
                    0 <= latency_nanos as int <= u64::MAX as int,
            ;
        }
        let excess: u128 = (limit as u128) * ((latency_nanos - base) as u128);
        if excess > (self.beta as u128) * (latency_nanos as u128) {
            if limit > self.min_limit {
                self.current_limit = limit - 1;
            }
        } else if excess < (self.alpha as u128) * (latency_nanos as u128) {
            if limit < self.max_limit {
                self.current_limit = limit + 1;
            }
        }
    }

    fn on_error(&mut self)
        ensures
            final(self).limit() == backoff_limit(old(self).limit(), old(self).min_limit()),
            final(self).spec_base_rtt_nanos() == old(self).spec_base_rtt_nanos(),
            final(self).spec_alpha() == old(self).spec_alpha(),
            final(self).spec_beta() == old(self).spec_beta(),
            final(self).min_limit() == old(self).min_limit(),
            final(self).max_limit() == old(self).max_limit(),
    {
        let limit = self.current_limit;
        if limit > self.min_limit {
            proof {
                assert(limit * 3 / 4 <= limit) by {
                    assert(limit * 3 <= limit * 4) by (nonlinear_arith);
                    assert(limit * 3 / 4 <= limit * 4 / 4) by (nonlinear_arith);
                };
            }
            let reduced_wide: u128 = (limit as u128) * 3 / 4;
            let reduced: usize = reduced_wide as usize;
            self.current_limit = if reduced > self.min_limit {
                reduced
            } else {
                self.min_limit
            };
        }
    }
}

/// The base round-trip time is monotone: after any sequence of success
/// samples it is no larger than before, it is no larger than any sample in
/// the sequence, and it equals the smallest latency seen — the starting
/// value or one of the samples.
pub proof fn lemma_base_rtt_monotone(pre: VegasStrategy, samples: Seq<u64>)
    ensures
        vegas_successes(pre, samples).spec_base_rtt_nanos() <= pre.spec_base_rtt_nanos(),
        forall|i: int|
            0 <= i < samples.len() ==> vegas_successes(pre, samples).spec_base_rtt_nanos()
                <= #[trigger] samples[i],
        vegas_successes(pre, samples).spec_base_rtt_nanos() == pre.spec_base_rtt_nanos() || exists|
            i: int,
        |
            0 <= i < samples.len() && vegas_successes(pre, samples).spec_base_rtt_nanos()
                == #[trigger] samples[i],
    decreases samples.len(),
{
    if samples.len() == 0 {
    } else {
        let next = VegasStrategy::success_step(pre, samples[0]);
        let tail = samples.drop_first();
        let end = vegas_successes(pre, samples);
        lemma_base_rtt_monotone(next, tail);
        assert(next.spec_base_rtt_nanos() == min_base_rtt(pre.spec_base_rtt_nanos(), samples[0]));
        assert(forall|i: int| 0 <= i < tail.len() ==> #[trigger] tail[i] == samples[i + 1]);
        assert forall|i: int| 0 <= i < samples.len() implies end.spec_base_rtt_nanos()
            <= #[trigger] samples[i] by {
            if i == 0 {
                assert(end.spec_base_rtt_nanos() <= next.spec_base_rtt_nanos());
            } else {
                assert(tail[i - 1] == samples[i]);
            }
        }
        if end.spec_base_rtt_nanos() == next.spec_base_rtt_nanos() {
            if next.spec_base_rtt_nanos() != pre.spec_base_rtt_nanos() {
                assert(end.spec_base_rtt_nanos() == samples[0]);
            }
        } else {
            let j = choose|j: int|
                0 <= j < tail.len() && end.spec_base_rtt_nanos() == #[trigger] tail[j];
            assert(end.spec_base_rtt_nanos() == samples[j + 1]);
        }
    }
}

/// The limit never leaves its bounds: after any sequence of feedback
/// observations of a well-formed strategy, well-formedness still holds, the
/// bounds themselves are unchanged, and the limit lies between them. Since
/// every prefix of a sequence is itself a sequence, the bounds hold after
/// every single observation.
pub proof fn lemma_limit_bounded(pre: VegasStrategy, events: Seq<Feedback>)
    requires
        pre.inv(),
    ensures
        vegas_feedbacks(pre, events).inv(),
        vegas_feedbacks(pre, events).min_limit() == pre.min_limit(),
        vegas_feedbacks(pre, events).max_limit() == pre.max_limit(),
        pre.min_limit() <= vegas_feedbacks(pre, events).limit() <= pre.max_limit(),
    decreases events.len(),
{
    if events.len() == 0 {
        pre.lemma_inv_bounds();
    } else {
        match events[0] {
            Feedback::Success(latency_nanos) => {
                VegasStrategy::lemma_success_step_inv(pre, latency_nanos);
            },
            Feedback::Failure => {
                VegasStrategy::lemma_error_step_inv(pre);
            },
        }
        lemma_limit_bounded(vegas_feedback(pre, events[0]), events.drop_first());
    }
}

/// Backoff on error: a single error observation moves the limit to three
/// quarters of its value — a strict decrease whenever the limit sits above
/// its floor — and at the floor it leaves the limit alone. The limit never
/// falls below the floor and never rises on an error.
pub proof fn lemma_error_backoff(pre: VegasStrategy)
    requires
        pre.inv(),
    ensures
        pre.limit() > pre.min_limit() ==> VegasStrategy::error_step(pre).limit() < pre.limit(),
        pre.limit() == pre.min_limit() ==> VegasStrategy::error_step(pre).limit() == pre.limit(),
        pre.min_limit() <= VegasStrategy::error_step(pre).limit() <= pre.limit(),
{
    VegasStrategy::lemma_error_step_inv(pre);
    if pre.limit() > pre.min_limit() {
        let limit = pre.limit() as int;
        assert(limit * 3 / 4 < limit) by (nonlinear_arith)
            requires
                limit >= 1,
        ;
    }
}

/// Hysteresis: a success sample whose congestion metric lies inside the dead
/// zone — at least `alpha`, at most `beta`, compared exactly as
/// `limit * (latency - base_rtt)` against `threshold * latency` — changes
/// neither the limit nor the base round-trip time.
pub proof fn lemma_hysteresis(pre: VegasStrategy, latency_nanos: u64)
    requires
        latency_nanos >= pre.spec_base_rtt_nanos(),
        pre.spec_alpha() * latency_nanos <= pre.limit() * (latency_nanos
            - pre.spec_base_rtt_nanos()),
        pre.limit() * (latency_nanos - pre.spec_base_rtt_nanos()) <= pre.spec_beta()
            * latency_nanos,
    ensures
        VegasStrategy::success_step(pre, latency_nanos).limit() == pre.limit(),
        VegasStrategy::success_step(pre, latency_nanos).spec_base_rtt_nanos()
            == pre.spec_base_rtt_nanos(),
{
}

/// Hysteresis, repeated: feeding the same dead-zone latency any number of
/// times leaves the whole strategy state exactly where it was.
pub proof fn lemma_hysteresis_repeated(pre: VegasStrategy, latency_nanos: u64, count: nat)
    requires
        latency_nanos >= pre.spec_base_rtt_nanos(),
        pre.spec_alpha() * latency_nanos <= pre.limit() * (latency_nanos
            - pre.spec_base_rtt_nanos()),
        pre.limit() * (latency_nanos - pre.spec_base_rtt_nanos()) <= pre.spec_beta()
            * latency_nanos,
    ensures
        vegas_successes(pre, Seq::new(count, |i: int| latency_nanos)) == pre,
    decreases count,
{
    let samples = Seq::new(count, |i: int| latency_nanos);
    if count == 0 {
    } else {
        lemma_hysteresis(pre, latency_nanos);
        assert(VegasStrategy::success_step(pre, latency_nanos) == pre);
        assert(samples.drop_first() =~= Seq::new((count - 1) as nat, |i: int| latency_nanos));
        lemma_hysteresis_repeated(pre, latency_nanos, (count - 1) as nat);
    }
}

} // verus!
