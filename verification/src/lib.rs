//! Adaptive concurrency limiting.
//!
//! A [`FlowGuard`](limiter::FlowGuard) wraps units of work, bounds how many may
//! run at once through a resizable [`DynamicSemaphore`](semaphore::DynamicSemaphore),
//! and retunes that bound after every completed call from latency and error
//! feedback, following a TCP-Vegas-style control law
//! ([`VegasStrategy`](strategy::VegasStrategy)).

pub mod error;
pub mod limiter;
pub mod semaphore;
pub mod strategy;

pub use error::FlowError;
pub use limiter::FlowGuard;
pub use strategy::VegasStrategy;

use vstd::prelude::*;

verus! {

/// Policy interface: converts latency and error feedback into a target
/// concurrency limit. The orchestrator depends only on this interface, so
/// alternative control laws can be plugged in without touching the semaphore
/// or the orchestrator.
///
/// Each implementation describes its own behaviour with two specification-level
/// transition functions, `success_step` and `error_step`; the executable
/// methods are required to follow them exactly. The invariant `inv` must keep
/// the limit within `[min_limit, max_limit]`, with `max_limit` leaving enough
/// headroom that a semaphore resize can never overflow the permit counter.
pub trait LimitStrategy: Sized {
    /// Well-formedness of the strategy's state.
    spec fn inv(&self) -> bool;

    /// The current target concurrency limit.
    spec fn limit(&self) -> usize;

    /// Hard lower bound on the limit.
    spec fn min_limit(&self) -> usize;

    /// Hard upper bound on the limit.
    spec fn max_limit(&self) -> usize;

    /// State after one successful call with the given observed latency.
    spec fn success_step(pre: Self, latency_nanos: u64) -> Self;

    /// State after one failed call.
    spec fn error_step(pre: Self) -> Self;

    /// A well-formed strategy keeps its limit within its bounds, and the upper
    /// bound leaves headroom so that a resize's permit top-up cannot overflow
    /// the availability counter.
    proof fn lemma_inv_bounds(&self)
        requires
            self.inv(),
        ensures
            1 <= self.min_limit(),
            self.min_limit() <= self.limit(),
            self.limit() <= self.max_limit(),
            self.max_limit() <= usize::MAX / 2,
    ;

    /// Success feedback preserves well-formedness and never moves the bounds.
    proof fn lemma_success_step_inv(pre: Self, latency_nanos: u64)
        requires
            pre.inv(),
        ensures
            Self::success_step(pre, latency_nanos).inv(),
            Self::success_step(pre, latency_nanos).min_limit() == pre.min_limit(),
            Self::success_step(pre, latency_nanos).max_limit() == pre.max_limit(),
    ;

    /// Error feedback preserves well-formedness, never moves the bounds, and
    /// never raises the limit.
    proof fn lemma_error_step_inv(pre: Self)
        requires
            pre.inv(),
        ensures
            Self::error_step(pre).inv(),
            Self::error_step(pre).min_limit() == pre.min_limit(),
            Self::error_step(pre).max_limit() == pre.max_limit(),
            Self::error_step(pre).limit() <= pre.limit(),
    ;

    /// Returns the current concurrency limit.
    fn current_limit(&self) -> (limit: usize)
        requires
            self.inv(),
        ensures
            limit == self.limit(),
    ;

    /// Records one successful call and its round-trip latency in nanoseconds.
    fn on_success(&mut self, latency_nanos: u64)
        requires
            old(self).inv(),
        ensures
            *final(self) == Self::success_step(*old(self), latency_nanos),
            final(self).inv(),
            final(self).min_limit() == old(self).min_limit(),
            final(self).max_limit() == old(self).max_limit(),
    ;

    /// Records one failed call.
    fn on_error(&mut self)
        requires
            old(self).inv(),
        ensures
            *final(self) == Self::error_step(*old(self)),
            final(self).inv(),
            final(self).min_limit() == old(self).min_limit(),
            final(self).max_limit() == old(self).max_limit(),
            final(self).limit() <= old(self).limit(),
    ;
}

} // verus!
