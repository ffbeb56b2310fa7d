//! The orchestrator: admission, timing, feedback and resize per call.

use crate::error::FlowError;
use crate::semaphore::released_availability;
use crate::semaphore::resized_availability;
use crate::semaphore::wake_budget;
use crate::semaphore::DynamicPermit;
use crate::semaphore::DynamicSemaphore;
use crate::LimitStrategy;
use vstd::prelude::*;

verus! {

/// Declares `std::time::Instant` so that clock readings can pass through
/// verified code; its contents stay opaque.
#[verifier::external_type_specification]
#[verifier::external_body]
pub struct ExInstant(std::time::Instant);

/// Relies on std::time::Instant::now: a reading of the monotonic clock. The
/// value depends on when the call runs, so nothing is promised of it.
#[verifier::external_body]
fn monotonic_now() -> std::time::Instant {
    std::time::Instant::now()
}

/// Relies on std::time::Instant::elapsed: the time since `start`. The value
/// depends on when the call runs, so nothing is promised of it.
#[verifier::external_body]
fn elapsed_since(start: &std::time::Instant) -> std::time::Duration {
    start.elapsed()
}

/// Relies on std::time::Duration::as_nanos: the duration as a nanosecond
/// count. Durations are opaque here, so nothing is promised of the value.
#[verifier::external_body]
fn duration_as_nanos(duration: &std::time::Duration) -> u128 {
    duration.as_nanos()
}

/// The strategy state after feedback for one completed call: a success step
/// with the observed latency, or an error step.
pub open spec fn feedback_step<S: LimitStrategy>(pre: S, ok: bool, latency_nanos: u64) -> S {
    if ok {
        S::success_step(pre, latency_nanos)
    } else {
        S::error_step(pre)
    }
}

/// The free pool after one completed call: the resize to `new_limit` is
/// applied first, then the call's own permit returns, clamped to the new
/// ceiling.
pub open spec fn completed_availability(avail: int, old_limit: int, new_limit: int) -> int {
    released_availability(resized_availability(avail, old_limit, new_limit), new_limit)
}

/// Ties one strategy and one semaphore together: every completed call feeds
/// the strategy and resizes the semaphore to the strategy's new limit, so the
/// admission bound is retuned per request.
pub struct FlowGuard<S: LimitStrategy> {
    strategy: S,
    semaphore: DynamicSemaphore,
}

impl<S: LimitStrategy> FlowGuard<S> {
    /// The strategy state.
    pub closed spec fn spec_strategy(&self) -> S {
        self.strategy
    }

    /// The semaphore's configured ceiling.
    pub closed spec fn spec_sem_limit(&self) -> usize {
        self.semaphore.spec_limit()
    }

    /// The semaphore's free permits.
    pub closed spec fn spec_available(&self) -> usize {
        self.semaphore.spec_available()
    }

    /// Well-formedness: the strategy is well formed, the semaphore's ceiling
    /// mirrors the strategy's limit, and the free pool never exceeds the
    /// strategy's hard upper bound — which keeps every resize free of
    /// overflow.
    pub open spec fn wf(&self) -> bool {
        &&& self.spec_strategy().inv()
        &&& self.spec_sem_limit() == self.spec_strategy().limit()
        &&& self.spec_available() <= self.spec_strategy().max_limit()
    }

    /// Creates a guard over `strategy`, with a semaphore sized to the
    /// strategy's current limit.
    pub fn new(strategy: S) -> (guard: Self)
        requires
            strategy.inv(),
        ensures
            guard.wf(),
            guard.spec_strategy() == strategy,
            guard.spec_available() == strategy.limit(),
    {
        proof {
            strategy.lemma_inv_bounds();
        }
        let initial_limit = strategy.current_limit();
        FlowGuard { strategy, semaphore: DynamicSemaphore::new(initial_limit) }
    }

    /// The strategy's current concurrency limit.
    pub fn current_limit(&self) -> (limit: usize)
        requires
            self.wf(),
        ensures
            limit == self.spec_strategy().limit(),
    {
        self.strategy.current_limit()
    }

    /// Best-effort view of the semaphore's free permits.
    pub fn available_permits(&self) -> (n: usize)
        ensures
            n == self.spec_available(),
    {
        self.semaphore.available_permits()
    }

    /// Asks the semaphore for a permit without suspending: the admission
    /// decision of one call. Nothing else changes; no feedback is recorded.
    pub fn try_acquire(&mut self) -> (permit: Option<DynamicPermit>)
        requires
            old(self).wf(),
        ensures
            final(self).wf(),
            final(self).spec_strategy() == old(self).spec_strategy(),
            final(self).spec_sem_limit() == old(self).spec_sem_limit(),
            old(self).spec_available() > 0 ==> permit is Some && final(self).spec_available()
                == old(self).spec_available() - 1,
            old(self).spec_available() == 0 ==> permit is None && *final(self) == *old(self),
    {
        self.semaphore.try_acquire()
    }

    /// Completes a call that holds a permit: feeds the strategy one success or error
    /// observation, resizes the semaphore to the strategy's (possibly new)
    /// limit, and returns the call's permit to the pool. The result is how
    /// many suspended acquirers a driver should wake: the resize's batch,
    /// plus one if the pool was still exhausted when the permit came back.
    pub fn complete(&mut self, permit: DynamicPermit, success: bool, latency_nanos: u64) -> (wakeups:
        usize)
        requires
            old(self).wf(),
        ensures
            final(self).wf(),
            final(self).spec_strategy() == feedback_step(
                old(self).spec_strategy(),
                success,
                latency_nanos,
            ),
            final(self).spec_sem_limit() == final(self).spec_strategy().limit(),
            final(self).spec_available() == completed_availability(
                old(self).spec_available() as int,
                old(self).spec_sem_limit() as int,
                final(self).spec_strategy().limit() as int,
            ),
            wakeups == wake_budget(
                old(self).spec_available() as int,
                old(self).spec_sem_limit() as int,
                final(self).spec_strategy().limit() as int,
            ) + (if resized_availability(
                old(self).spec_available() as int,
                old(self).spec_sem_limit() as int,
                final(self).spec_strategy().limit() as int,
            ) == 0 {
                1int
            } else {
                0int
            }),
    {
        let ghost pre = *self;
        proof {
            pre.strategy.lemma_inv_bounds();
        }
        if success {
            self.strategy.on_success(latency_nanos);
            proof {
                S::lemma_success_step_inv(pre.strategy, latency_nanos);
            }
        } else {
            self.strategy.on_error();
            proof {
                S::lemma_error_step_inv(pre.strategy);
            }
        }
        proof {
            self.strategy.lemma_inv_bounds();
        }
        let new_limit = self.strategy.current_limit();
        let woken = self.semaphore.set_limit(new_limit);
        let released_woke = self.semaphore.release(permit);
        if released_woke {
            woken + 1
        } else {
            woken
        }
    }

    /// Returns a permit to the pool without recording any feedback: the path
    /// for a call that took a permit and was then abandoned; its permit must
    /// still come back. Says whether the pool was exhausted before, in which
    /// case a driver should wake one suspended acquirer.
    pub fn abandon(&mut self, permit: DynamicPermit) -> (woke: bool)
        requires
            old(self).wf(),
        ensures
            final(self).wf(),
            final(self).spec_strategy() == old(self).spec_strategy(),
            final(self).spec_sem_limit() == old(self).spec_sem_limit(),
            final(self).spec_available() == released_availability(
                old(self).spec_available() as int,
                old(self).spec_sem_limit() as int,
            ),
            woke == (old(self).spec_available() == 0),
    {
        proof {
            self.strategy.lemma_inv_bounds();
        }
        self.semaphore.release(permit)
    }

    /// The single entry point: take a permit, run `work`, time it, feed the outcome
    /// to the strategy, resize, and return the permit — in that order, once
    /// per call. With no permit free the call is refused outright with
    /// `Dropped`, nothing is recorded and `work` is not run; otherwise the
    /// work's own success value or error is passed through, the error wrapped
    /// as `AppError` after being recorded as negative feedback.
    pub fn run<T, E, F: FnOnce() -> Result<T, E>>(&mut self, work: F) -> (outcome: Result<
        T,
        FlowError<E>,
    >)
        requires
            old(self).wf(),
            call_requires(work, ()),
        ensures
            final(self).wf(),
            old(self).spec_available() == 0 ==> *final(self) == *old(self) && outcome
                == Result::<T, FlowError<E>>::Err(FlowError::Dropped),
            old(self).spec_available() > 0 ==> {
                &&& match outcome {
                    Ok(t) => call_ensures(work, (), Ok::<T, E>(t)),
                    Err(f) => f matches FlowError::AppError(e) && call_ensures(
                        work,
                        (),
                        Err::<T, E>(e),
                    ),
                }
                &&& outcome is Ok ==> exists|latency_nanos: u64|
                    final(self).spec_strategy() == #[trigger] S::success_step(
                        old(self).spec_strategy(),
                        latency_nanos,
                    )
                &&& outcome is Err ==> final(self).spec_strategy() == S::error_step(
                    old(self).spec_strategy(),
                )
                &&& final(self).spec_sem_limit() == final(self).spec_strategy().limit()
                &&& final(self).spec_available() == completed_availability(
                    old(self).spec_available() - 1,
                    old(self).spec_sem_limit() as int,
                    final(self).spec_strategy().limit() as int,
                )
            },
    {
        let permit_opt = self.try_acquire();
        match permit_opt {
            None => Err(FlowError::Dropped),
            Some(permit) => {
                let start = monotonic_now();
                let inner = work();
                let duration = elapsed_since(&start);
                let wide = duration_as_nanos(&duration);
                let latency_nanos: u64 = if wide > u64::MAX as u128 {
                    u64::MAX
                } else {
                    wide as u64
                };
                let success = inner.is_ok();
                let _wakeups = self.complete(permit, success, latency_nanos);
                match inner {
                    Ok(t) => Ok(t),
                    Err(e) => Err(FlowError::AppError(e)),
                }
            },
        }
    }
}

/// One event in the life of a guard: an acquisition that takes a permit, or
/// the completion of a call, which resizes the ceiling to the strategy's new
/// limit and returns the call's permit.
pub enum GuardEvent {
    Acquire,
    Complete { new_limit: int },
}

/// A guard's admission state, seen abstractly: the semaphore's ceiling, its
/// free pool, and how many permits are out with callers.
pub struct AdmissionState {
    pub limit: int,
    pub avail: int,
    pub in_flight: int,
}

/// The admission state after one event. An acquisition with an empty pool
/// changes nothing (the caller was not let in); a completion applies the
/// resize and then returns its permit, exactly as `complete` does.
pub open spec fn guard_step(state: AdmissionState, event: GuardEvent) -> AdmissionState {
    match event {
        GuardEvent::Acquire => if state.avail > 0 {
            AdmissionState { avail: state.avail - 1, in_flight: state.in_flight + 1, ..state }
        } else {
            state
        },
        GuardEvent::Complete { new_limit } => AdmissionState {
            limit: new_limit,
            avail: completed_availability(state.avail, state.limit, new_limit),
            in_flight: state.in_flight - 1,
        },
    }
}

/// The admission state after a whole sequence of events, applied in order.
pub open spec fn guard_run(state: AdmissionState, events: Seq<GuardEvent>) -> AdmissionState
    decreases events.len(),
{
    if events.len() == 0 {
        state
    } else {
        guard_run(guard_step(state, events[0]), events.drop_first())
    }
}

/// Whether a sequence of events can actually happen: a completion needs a
/// permit to be out, and resizes only to meaningful, non-negative limits.
pub open spec fn admissible(state: AdmissionState, events: Seq<GuardEvent>) -> bool
    decreases events.len(),
{
    if events.len() == 0 {
        true
    } else {
        &&& (events[0] matches GuardEvent::Complete { new_limit } ==> state.in_flight >= 1
            && new_limit >= 0)
        &&& admissible(guard_step(state, events[0]), events.drop_first())
    }
}

/// Whether no completion in the sequence shrinks the ceiling.
pub open spec fn never_shrinks(state: AdmissionState, events: Seq<GuardEvent>) -> bool
    decreases events.len(),
{
    if events.len() == 0 {
        true
    } else {
        &&& (events[0] matches GuardEvent::Complete { new_limit } ==> new_limit >= state.limit)
        &&& never_shrinks(guard_step(state, events[0]), events.drop_first())
    }
}

/// Permit conservation and the admission bound. Starting from a state whose
/// free pool and permits out exactly cover the ceiling — as in a fresh guard,
/// where the pool equals the ceiling and nothing is out — any possible
/// sequence of acquisitions and completions that never shrinks the ceiling
/// keeps `avail + in_flight == limit`. Hence the permits out never exceed
/// the current limit, and once every admitted call has completed
/// (`in_flight == 0`) the free pool equals the limit exactly: no permit
/// leaked and none was returned twice.
pub proof fn lemma_permit_conservation(state: AdmissionState, events: Seq<GuardEvent>)
    requires
        state.avail >= 0,
        state.in_flight >= 0,
        state.avail + state.in_flight == state.limit,
        admissible(state, events),
        never_shrinks(state, events),
    ensures
        guard_run(state, events).avail >= 0,
        guard_run(state, events).in_flight >= 0,
        guard_run(state, events).avail + guard_run(state, events).in_flight == guard_run(
            state,
            events,
        ).limit,
        guard_run(state, events).in_flight <= guard_run(state, events).limit,
    decreases events.len(),
{
    if events.len() == 0 {
    } else {
        lemma_permit_conservation(guard_step(state, events[0]), events.drop_first());
    }
}

/// No capacity is lost even when the ceiling shrinks: over any possible
/// sequence of events, the free pool plus the permits out never falls below
/// the ceiling. Every deficit of the pool is covered by a permit that is
/// still out, so a shrink merely lets the pool converge down to the new
/// ceiling as permits come back — capacity is never silently destroyed.
pub proof fn lemma_no_lost_capacity(state: AdmissionState, events: Seq<GuardEvent>)
    requires
        state.avail >= 0,
        state.in_flight >= 0,
        state.avail + state.in_flight >= state.limit,
        admissible(state, events),
    ensures
        guard_run(state, events).avail >= 0,
        guard_run(state, events).in_flight >= 0,
        guard_run(state, events).avail + guard_run(state, events).in_flight >= guard_run(
            state,
            events,
        ).limit,
    decreases events.len(),
{
    if events.len() == 0 {
    } else {
        lemma_no_lost_capacity(guard_step(state, events[0]), events.drop_first());
    }
}

} // verus!
