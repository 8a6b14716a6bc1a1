//! Failure recovery: the circuit breaker, the decisions of the retry loop,
//! and the fallback strategies tried when an operation keeps failing.
//! Times are milliseconds on a monotonic clock that the caller reads.
use vstd::prelude::*;
use crate::collections::StrMap;
use crate::error::{RelayError, RecoveryError, CircuitBreakerError};
use crate::text::{concat2, concat3, owned, u64_to_string, decimal};

verus! {

/// The three states of a circuit breaker.
#[derive(Debug, Clone, Copy, PartialEq, Eq, Structural)]
pub enum CircuitBreakerState {
    Closed,
    Open,
    HalfOpen,
}

/// A circuit breaker: it opens after enough consecutive failures and lets
/// calls through again once the timeout has passed since the last failure.
#[derive(Debug, Clone)]
pub struct CircuitBreaker {
    pub name: String,
    pub state: CircuitBreakerState,
    pub failure_count: u32,
    pub failure_threshold: u32,
    pub timeout_ms: u64,
    pub last_failure_time: Option<u64>,
    pub success_count: u32,
    pub success_threshold: u32,
}

/// Milliseconds from `then` to `now`, and 0 when `now` is not later.
pub open spec fn elapsed_ms(then: u64, now: u64) -> nat {
    if now >= then { (now - then) as nat } else { 0 }
}

impl CircuitBreaker {
    /// Whether a call may go through at time `now`.
    pub open spec fn spec_can_execute(&self, now: u64) -> bool {
        match self.state {
            CircuitBreakerState::Closed => true,
            CircuitBreakerState::HalfOpen => true,
            CircuitBreakerState::Open => match self.last_failure_time {
                Some(t) => elapsed_ms(t, now) >= self.timeout_ms,
                None => false,
            },
        }
    }

    /// The breaker after a call is asked for at time `now`: an open breaker
    /// whose timeout has passed turns half-open, with no success counted yet;
    /// any other breaker is unchanged.
    pub open spec fn after_check(self, now: u64) -> CircuitBreaker {
        if self.state == CircuitBreakerState::Open && self.spec_can_execute(now) {
            CircuitBreaker { state: CircuitBreakerState::HalfOpen, success_count: 0, ..self }
        } else {
            self
        }
    }

    /// The breaker after a successful call.
    pub open spec fn after_success(self) -> CircuitBreaker {
        let count = (self.success_count + 1) as u32;
        match self.state {
            CircuitBreakerState::Closed => CircuitBreaker {
                failure_count: 0,
                success_count: if count >= 10 { 0 } else { count },
                ..self
            },
            CircuitBreakerState::Open => CircuitBreaker { failure_count: 0, success_count: count, ..self },
            CircuitBreakerState::HalfOpen => if count >= self.success_threshold {
                CircuitBreaker { failure_count: 0, success_count: 0, state: CircuitBreakerState::Closed, ..self }
            } else {
                CircuitBreaker { failure_count: 0, success_count: count, ..self }
            },
        }
    }

    /// The breaker after a failed call at time `now`.
    pub open spec fn after_failure(self, now: u64) -> CircuitBreaker {
        let count = (self.failure_count + 1) as u32;
        CircuitBreaker {
            failure_count: count,
            success_count: 0,
            last_failure_time: Some(now),
            state: match self.state {
                CircuitBreakerState::Closed => if count >= self.failure_threshold {
                    CircuitBreakerState::Open
                } else {
                    CircuitBreakerState::Closed
                },
                CircuitBreakerState::Open => CircuitBreakerState::Open,
                CircuitBreakerState::HalfOpen => CircuitBreakerState::Open,
            },
            ..self
        }
    }

    /// The breaker after `n` consecutive failed calls, all at time `now`.
    pub open spec fn after_failures(self, n: nat, now: u64) -> CircuitBreaker
        decreases n,
    {
        if n == 0 { self } else { self.after_failures((n - 1) as nat, now).after_failure(now) }
    }

    /// A closed breaker with no failure recorded; it closes again after three
    /// successes in the half-open state.
    pub fn new(name: String, failure_threshold: u32, timeout_ms: u64) -> (cb: Self)
        ensures
            cb.name@ == name@,
            cb.state == CircuitBreakerState::Closed,
            cb.failure_count == 0,
            cb.failure_threshold == failure_threshold,
            cb.timeout_ms == timeout_ms,
            cb.last_failure_time is None,
            cb.success_count == 0,
            cb.success_threshold == 3,
    {
        CircuitBreaker {
            name,
            state: CircuitBreakerState::Closed,
            failure_count: 0,
            failure_threshold,
            timeout_ms,
            last_failure_time: None,
            success_count: 0,
            success_threshold: 3,
        }
    }

    /// Whether a call may go through at time `now`: always when closed or
    /// half-open; when open, only once `timeout_ms` have passed since the
    /// last failure, and then the breaker turns half-open so that the calls
    /// let through can close it again.
    pub fn can_execute(&mut self, now: u64) -> (r: bool)
        ensures
            r == old(self).spec_can_execute(now),
            *final(self) == old(self).after_check(now),
    {
        match self.state {
            CircuitBreakerState::Closed => true,
            CircuitBreakerState::HalfOpen => true,
            CircuitBreakerState::Open => match self.last_failure_time {
                Some(t) => {
                    let elapsed = if now >= t { now - t } else { 0 };
                    if elapsed >= self.timeout_ms {
                        self.state = CircuitBreakerState::HalfOpen;
                        self.success_count = 0;
                        true
                    } else {
                        false
                    }
                }
                None => false,
            },
        }
    }

    /// Records a successful call: the failure count is cleared and the
    /// success count grows; a closed breaker wraps its success count back to
    /// 0 at 10, and a half-open one closes once the count reaches the
    /// success threshold. An open breaker keeps its state.
    pub fn record_success(&mut self)
        requires
            old(self).success_count < u32::MAX,
        ensures
            *final(self) == old(self).after_success(),
    {
        self.failure_count = 0;
        self.success_count = self.success_count + 1;
        match self.state {
            CircuitBreakerState::Closed => {
                if self.success_count >= 10 {
                    self.success_count = 0;
                }
            }
            CircuitBreakerState::Open => {}
            CircuitBreakerState::HalfOpen => {
                if self.success_count >= self.success_threshold {
                    self.state = CircuitBreakerState::Closed;
                    self.success_count = 0;
                }
            }
        }
    }

    /// Records a failed call at time `now`: the failure count grows, the
    /// success count is cleared and the time is kept; a closed breaker opens
    /// once the count reaches the threshold, and a half-open one opens at once.
    pub fn record_failure(&mut self, now: u64)
        requires
            old(self).failure_count < u32::MAX,
        ensures
            *final(self) == old(self).after_failure(now),
    {
        self.failure_count = self.failure_count + 1;
        self.success_count = 0;
        self.last_failure_time = Some(now);
        match self.state {
            CircuitBreakerState::Closed => {
                if self.failure_count >= self.failure_threshold {
                    self.state = CircuitBreakerState::Open;
                }
            }
            CircuitBreakerState::Open => {}
            CircuitBreakerState::HalfOpen => {
                self.state = CircuitBreakerState::Open;
            }
        }
    }

    /// The breaker's state.
    pub fn get_state(&self) -> (r: &CircuitBreakerState)
        ensures
            *r == self.state,
    {
        &self.state
    }
}

/// A closed breaker refuses no call, and an open one refuses every call until
/// its timeout has passed since the last failure.
pub proof fn lemma_breaker_gate(cb: CircuitBreaker, now: u64)
    ensures
        cb.state == CircuitBreakerState::Closed ==> cb.spec_can_execute(now),
        cb.state == CircuitBreakerState::Open ==> (cb.spec_can_execute(now) <==> (cb.last_failure_time
            matches Some(t) && elapsed_ms(t, now) >= cb.timeout_ms)),
{
}

/// A fresh breaker that sees `failure_threshold` consecutive failures (at
/// least one) is open afterwards, with that many failures counted; before
/// that it stays closed.
pub proof fn lemma_breaker_opens(cb: CircuitBreaker, n: nat, now: u64)
    requires
        cb.state == CircuitBreakerState::Closed,
        cb.failure_count == 0,
        n <= cb.failure_threshold,
    ensures
        cb.after_failures(n, now).failure_count == n,
        cb.after_failures(n, now).failure_threshold == cb.failure_threshold,
        n < cb.failure_threshold ==> cb.after_failures(n, now).state == CircuitBreakerState::Closed,
        n == cb.failure_threshold && n > 0 ==> cb.after_failures(n, now).state == CircuitBreakerState::Open,
    decreases n,
{
    if n > 0 {
        lemma_breaker_opens(cb, (n - 1) as nat, now);
    }
}

impl CircuitBreaker {
    /// The breaker after `n` consecutive successful calls.
    pub open spec fn after_successes(self, n: nat) -> CircuitBreaker
        decreases n,
    {
        if n == 0 { self } else { self.after_successes((n - 1) as nat).after_success() }
    }

    /// A closed breaker has seen fewer consecutive failures than its threshold.
    pub open spec fn closed_below_threshold(self) -> bool {
        self.state == CircuitBreakerState::Closed ==> self.failure_count < self.failure_threshold
    }
}

/// An open breaker whose timeout has passed lets the next call through and
/// turns half-open; `success_threshold` successes then close it, and fewer
/// leave it half-open.
pub proof fn lemma_breaker_recovers(cb: CircuitBreaker, now: u64, n: nat)
    requires
        cb.state == CircuitBreakerState::Open,
        cb.spec_can_execute(now),
        n <= cb.success_threshold,
    ensures
        cb.after_check(now).state == CircuitBreakerState::HalfOpen,
        n < cb.success_threshold ==> cb.after_check(now).after_successes(n).state == CircuitBreakerState::HalfOpen
            && cb.after_check(now).after_successes(n).success_count == n,
        n == cb.success_threshold && n > 0 ==> cb.after_check(now).after_successes(n).state == CircuitBreakerState::Closed,
        cb.after_check(now).after_successes(n).success_threshold == cb.success_threshold,
    decreases n,
{
    if n > 0 {
        lemma_breaker_recovers(cb, now, (n - 1) as nat);
    }
}

/// With a positive threshold, a closed breaker has seen fewer failures than
/// the threshold: a fresh breaker starts so, and checking, a success and a
/// failure all keep it so.
pub proof fn lemma_closed_below_threshold(cb: CircuitBreaker, now: u64)
    requires
        cb.failure_threshold > 0,
        cb.closed_below_threshold(),
    ensures
        cb.after_check(now).closed_below_threshold(),
        cb.after_success().closed_below_threshold(),
        cb.failure_count < u32::MAX ==> cb.after_failure(now).closed_below_threshold(),
        cb.after_check(now).failure_threshold == cb.failure_threshold,
        cb.after_success().failure_threshold == cb.failure_threshold,
        cb.after_failure(now).failure_threshold == cb.failure_threshold,
{
}

/// A success clears the failure count in every state, so the failures
/// before a success never count towards opening: a closed breaker with
/// threshold `t` that has seen fewer than `t` failures, then a success,
/// then `t - 1` more failures, is still closed.
pub proof fn lemma_success_clears_failures(cb: CircuitBreaker, now: u64)
    requires
        cb.state == CircuitBreakerState::Closed,
        cb.failure_threshold >= 1,
    ensures
        cb.after_success().failure_count == 0,
        cb.after_success().state == CircuitBreakerState::Closed,
        cb.after_success().after_failures((cb.failure_threshold - 1) as nat, now).state == CircuitBreakerState::Closed,
        cb.after_success().after_failures((cb.failure_threshold - 1) as nat, now).failure_count == cb.failure_threshold - 1,
{
    lemma_breaker_opens(cb.after_success(), (cb.failure_threshold - 1) as nat, now);
}

/// A success clears the failure count whatever the breaker's state.
pub proof fn lemma_success_resets_count(cb: CircuitBreaker)
    ensures
        cb.after_success().failure_count == 0,
{
}

/// One thing that can happen to a breaker: a success, a failure at a time,
/// or a check at a time.
pub enum BreakerEvent {
    Success,
    Failure(u64),
    Check(u64),
}

/// The breaker after one event (`record_success`, `record_failure`, `can_execute`).
pub open spec fn after_event(cb: CircuitBreaker, ev: BreakerEvent) -> CircuitBreaker {
    match ev {
        BreakerEvent::Success => cb.after_success(),
        BreakerEvent::Failure(t) => cb.after_failure(t),
        BreakerEvent::Check(t) => cb.after_check(t),
    }
}

/// The breaker after the events in order.
pub open spec fn after_events(cb: CircuitBreaker, evs: Seq<BreakerEvent>) -> CircuitBreaker
    decreases evs.len(),
{
    if evs.len() == 0 { cb } else { after_event(after_events(cb, evs.drop_last()), evs.last()) }
}

/// A breaker made by `new` with a positive threshold, whatever successes,
/// failures and checks follow, is closed only while it has seen fewer
/// failures than its threshold.
pub proof fn lemma_closed_below_threshold_always(cb: CircuitBreaker, evs: Seq<BreakerEvent>)
    requires
        cb.failure_threshold > 0,
        cb.state == CircuitBreakerState::Closed,
        cb.failure_count == 0,
    ensures
        after_events(cb, evs).closed_below_threshold(),
        after_events(cb, evs).failure_threshold == cb.failure_threshold,
    decreases evs.len(),
{
    if evs.len() > 0 {
        lemma_closed_below_threshold_always(cb, evs.drop_last());
        let prev = after_events(cb, evs.drop_last());
        match evs.last() {
            BreakerEvent::Success => {}
            BreakerEvent::Failure(t) => {}
            BreakerEvent::Check(t) => {
                lemma_closed_below_threshold(prev, t);
            }
        }
    }
}

/// The outcome of one attempt of an operation under a retry loop.
pub enum AttemptOutcome {
    /// The operation returned a value.
    Success,
    /// The operation returned an error.
    Failure(RelayError),
    /// The attempt did not finish within the attempt timeout.
    TimedOut,
}

/// What the retry loop does next.
pub enum RetryAction {
    /// Return the operation's value.
    Finish,
    /// Return this error.
    Fail(RelayError),
    /// Wait for the backoff delay, grow the delay, and try again.
    RetryAfterBackoff,
    /// Try again at once.
    RetryNow,
}

impl RetryAction {
    /// The action ends the loop.
    pub open spec fn is_final(&self) -> bool {
        self is Finish || self is Fail
    }
}

/// The progress of one retry loop: the attempts that failed so far.
pub struct RetryState {
    pub operation_name: String,
    pub attempt: u32,
    pub max_retries: u32,
}

/// After a retryable failure of attempt number `attempt`: the number of
/// failed attempts, and whether the loop gives up.
pub open spec fn failure_step(attempt: int, max_retries: u32) -> (int, bool) {
    (attempt + 1, attempt + 1 > max_retries)
}

/// The same after `n` retryable failures in a row from the start of a loop.
pub open spec fn after_retryable_failures(max_retries: u32, n: nat) -> (int, bool)
    decreases n,
{
    if n == 0 { (0, false) } else { failure_step(after_retryable_failures(max_retries, (n - 1) as nat).0, max_retries) }
}

/// A loop that allows `max_retries` retries and meets only retryable
/// failures makes `max_retries + 1` attempts: after the `n`-th failure `n`
/// attempts are counted, and it gives up exactly at the last one.
pub proof fn lemma_retry_exhausts(max_retries: u32, n: nat)
    requires
        1 <= n <= max_retries + 1,
    ensures
        after_retryable_failures(max_retries, n) == (n as int, n == max_retries + 1),
    decreases n,
{
    reveal_with_fuel(after_retryable_failures, 2);
    if n > 1 {
        lemma_retry_exhausts(max_retries, (n - 1) as nat);
    }
}

/// "Operation {name} failed after {max} retries".
pub open spec fn exhausted_message(name: Seq<char>, max: u32) -> Seq<char> {
    "Operation "@ + name + " failed after "@ + decimal(max as nat) + " retries"@
}

/// "Operation {name} timed out after {max} retries".
pub open spec fn timed_out_message(name: Seq<char>, max: u32) -> Seq<char> {
    "Operation "@ + name + " timed out after "@ + decimal(max as nat) + " retries"@
}

/// "Operation {name} {middle} {max} retries".
fn operation_message(name: &str, middle: &str, max: u32) -> (r: String)
    ensures
        r@ == "Operation "@ + name@ + middle@ + decimal(max as nat) + " retries"@,
{
    let head = concat3("Operation ", name, middle);
    concat3(head.as_str(), u64_to_string(max as u64).as_str(), " retries")
}

/// A breaker after the outcome of a call is recorded on it; a counter
/// already at its largest value leaves the breaker as it is.
pub open spec fn recorded(cb: CircuitBreaker, success: bool, now: u64) -> CircuitBreaker {
    if success {
        if cb.success_count < u32::MAX { cb.after_success() } else { cb }
    } else {
        if cb.failure_count < u32::MAX { cb.after_failure(now) } else { cb }
    }
}

/// The breakers after an outcome is recorded on the one called `name`, if there is one.
pub open spec fn after_record(m: Map<Seq<char>, CircuitBreaker>, name: Seq<char>, success: bool, now: u64) -> Map<Seq<char>, CircuitBreaker> {
    if m.dom().contains(name) { m.insert(name, recorded(m[name], success, now)) } else { m }
}

/// Keeps one circuit breaker per operation name and decides, attempt by
/// attempt, what a retry loop does. Breakers are created closed, opening
/// after 5 failures and waiting 60 seconds.
pub struct RetryManager {
    pub max_retries: u32,
    pub circuit_breakers: StrMap<CircuitBreaker>,
}

impl RetryManager {
    /// A manager that allows `max_retries` retries after the first attempt.
    pub fn new(max_retries: u32) -> (m: Self)
        requires
            max_retries < u32::MAX,
        ensures
            m.max_retries == max_retries,
            m.circuit_breakers@ == Map::<Seq<char>, CircuitBreaker>::empty(),
    {
        RetryManager { max_retries, circuit_breakers: StrMap::new() }
    }

    /// Starts a retry loop for `operation_name` at time `now`. The
    /// operation's breaker is created if it is missing; when it refuses the
    /// call, the loop fails at once with "Circuit breaker open for {name}".
    pub fn begin(&mut self, operation_name: &str, now: u64) -> (r: Result<RetryState, RelayError>)
        ensures
            final(self).max_retries == old(self).max_retries,
            final(self).circuit_breakers@.dom() == old(self).circuit_breakers@.dom().insert(operation_name@),
            forall|k: Seq<char>| k != operation_name@ && old(self).circuit_breakers@.dom().contains(k)
                ==> final(self).circuit_breakers@[k] == old(self).circuit_breakers@[k],
            old(self).circuit_breakers@.dom().contains(operation_name@)
                ==> final(self).circuit_breakers@[operation_name@] == old(self).circuit_breakers@[operation_name@].after_check(now),
            !old(self).circuit_breakers@.dom().contains(operation_name@) ==> {
                let cb = final(self).circuit_breakers@[operation_name@];
                &&& cb.name@ == operation_name@
                &&& cb.state == CircuitBreakerState::Closed
                &&& cb.failure_count == 0
                &&& cb.failure_threshold == 5
                &&& cb.timeout_ms == 60000
                &&& cb.last_failure_time is None
                &&& cb.success_count == 0
                &&& cb.success_threshold == 3
            },
            r is Ok <==> (!old(self).circuit_breakers@.dom().contains(operation_name@)
                || old(self).circuit_breakers@[operation_name@].spec_can_execute(now)),
            match r {
                Ok(st) => {
                    &&& st.operation_name@ == operation_name@
                    &&& st.attempt == 0
                    &&& st.max_retries == old(self).max_retries
                },
                Err(e) => {
                    &&& e == RelayError::CircuitBreaker(CircuitBreakerError::Open(e->CircuitBreaker_0->Open_0))
                    &&& e->CircuitBreaker_0->Open_0@ == "Circuit breaker open for "@ + operation_name@
                },
            },
    {
        let mut cb = match self.circuit_breakers.remove(operation_name) {
            Some(cb) => cb,
            None => CircuitBreaker::new(owned(operation_name), 5, 60000),
        };
        let allowed = cb.can_execute(now);
        self.circuit_breakers.insert(owned(operation_name), cb);
        if !allowed {
            return Err(RelayError::CircuitBreaker(CircuitBreakerError::Open(
                concat2("Circuit breaker open for ", operation_name),
            )));
        }
        Ok(RetryState { operation_name: owned(operation_name), attempt: 0, max_retries: self.max_retries })
    }

    /// Decides what follows an attempt. A success finishes the loop and is
    /// recorded on the operation's breaker. An error that is not retryable
    /// ends the loop with that error. A retryable error counts as a failed
    /// attempt: once the count exceeds the retry limit the loop fails with
    /// "Operation {name} failed after {max} retries" and the failure is
    /// recorded on the breaker; otherwise the loop backs off and tries again.
    /// A timeout counts the same way but fails with "Operation {name} timed
    /// out after {max} retries", retries at once, and records nothing.
    pub fn on_outcome(&mut self, state: &mut RetryState, outcome: AttemptOutcome, now: u64) -> (action: RetryAction)
        requires
            old(state).attempt <= old(state).max_retries,
            old(state).max_retries < u32::MAX,
        ensures
            final(self).max_retries == old(self).max_retries,
            final(self).circuit_breakers@.dom() == old(self).circuit_breakers@.dom(),
            final(state).operation_name == old(state).operation_name,
            final(state).max_retries == old(state).max_retries,
            final(state).attempt <= final(state).max_retries || action.is_final(),
            final(self).circuit_breakers@ == match outcome {
                AttemptOutcome::Success => after_record(old(self).circuit_breakers@, old(state).operation_name@, true, now),
                AttemptOutcome::Failure(e) => if e.spec_retryable() && old(state).attempt + 1 > old(state).max_retries {
                    after_record(old(self).circuit_breakers@, old(state).operation_name@, false, now)
                } else {
                    old(self).circuit_breakers@
                },
                AttemptOutcome::TimedOut => old(self).circuit_breakers@,
            },
            match outcome {
                AttemptOutcome::Success => action is Finish && final(state).attempt == old(state).attempt,
                AttemptOutcome::Failure(e) => if !e.spec_retryable() {
                    action == RetryAction::Fail(e) && final(state).attempt == old(state).attempt
                } else {
                    &&& (final(state).attempt as int, action.is_final()) == failure_step(old(state).attempt as int, old(state).max_retries)
                    &&& final(state).attempt == old(state).attempt + 1
                    &&& if final(state).attempt > old(state).max_retries {
                        &&& action matches RetryAction::Fail(RelayError::Recovery(RecoveryError::RetryExhausted(m)))
                        &&& m@ == exhausted_message(old(state).operation_name@, old(state).max_retries)
                    } else {
                        action is RetryAfterBackoff
                    }
                },
                AttemptOutcome::TimedOut => {
                    &&& final(state).attempt == old(state).attempt + 1
                    &&& if final(state).attempt > old(state).max_retries {
                        &&& action matches RetryAction::Fail(RelayError::Recovery(RecoveryError::RecoveryTimeout(m)))
                        &&& m@ == timed_out_message(old(state).operation_name@, old(state).max_retries)
                    } else {
                        action is RetryNow
                    }
                },
            },
    {
        match outcome {
            AttemptOutcome::Success => {
                self.record(state.operation_name.as_str(), true, now);
                RetryAction::Finish
            }
            AttemptOutcome::Failure(e) => {
                if !e.is_retryable_error() {
                    return RetryAction::Fail(e);
                }
                state.attempt = state.attempt + 1;
                if state.attempt > state.max_retries {
                    self.record(state.operation_name.as_str(), false, now);
                    let m = operation_message(state.operation_name.as_str(), " failed after ", state.max_retries);
                    RetryAction::Fail(RelayError::Recovery(RecoveryError::RetryExhausted(m)))
                } else {
                    RetryAction::RetryAfterBackoff
                }
            }
            AttemptOutcome::TimedOut => {
                state.attempt = state.attempt + 1;
                if state.attempt > state.max_retries {
                    let m = operation_message(state.operation_name.as_str(), " timed out after ", state.max_retries);
                    RetryAction::Fail(RelayError::Recovery(RecoveryError::RecoveryTimeout(m)))
                } else {
                    RetryAction::RetryNow
                }
            }
        }
    }

    /// Records a success or a failure on the breaker of `name`, if there is
    /// one. A counter already at its largest value stays there.
    fn record(&mut self, name: &str, success: bool, now: u64)
        ensures
            final(self).max_retries == old(self).max_retries,
            final(self).circuit_breakers@ == after_record(old(self).circuit_breakers@, name@, success, now),
    {
        match self.circuit_breakers.remove(name) {
            Some(cb) => {
                let mut cb = cb;
                if success {
                    if cb.success_count < u32::MAX {
                        cb.record_success();
                    }
                } else {
                    if cb.failure_count < u32::MAX {
                        cb.record_failure(now);
                    }
                }
                self.circuit_breakers.insert(owned(name), cb);
                assert(self.circuit_breakers@ =~= after_record(old(self).circuit_breakers@, name@, success, now));
            }
            None => {}
        }
    }
}

/// A fallback tried when an operation fails.
pub enum FallbackStrategy {
    /// Serve cached data; no cache is kept, so this fallback always fails.
    CachedData(CachedDataFallback),
    /// Answer with a fixed response.
    DegradedMode(DegradedModeFallback),
}

/// The cached-data fallback, identified by its cache key.
pub struct CachedDataFallback {
    pub cache_key: String,
}

impl CachedDataFallback {
    /// A cached-data fallback for `cache_key`.
    pub fn new(cache_key: String) -> (f: Self)
        ensures
            f.cache_key == cache_key,
    {
        CachedDataFallback { cache_key }
    }
}

/// The degraded-mode fallback and the response it answers with.
pub struct DegradedModeFallback {
    pub degraded_response: String,
}

impl DegradedModeFallback {
    /// A degraded-mode fallback answering `degraded_response`.
    pub fn new(degraded_response: String) -> (f: Self)
        ensures
            f.degraded_response == degraded_response,
    {
        DegradedModeFallback { degraded_response }
    }
}

impl FallbackStrategy {
    /// What this fallback answers: the degraded response, or the failure
    /// "Cache fallback not implemented".
    pub open spec fn spec_execute(&self) -> Result<Seq<char>, Seq<char>> {
        match self {
            FallbackStrategy::CachedData(_) => Err("Cache fallback not implemented"@),
            FallbackStrategy::DegradedMode(d) => Ok(d.degraded_response@),
        }
    }

    /// Runs the fallback.
    pub fn execute(&self) -> (r: Result<String, RelayError>)
        ensures
            match (r, self.spec_execute()) {
                (Ok(v), Ok(w)) => v@ == w,
                (Err(RelayError::Recovery(RecoveryError::FallbackFailed(m))), Err(w)) => m@ == w,
                _ => false,
            },
    {
        match self {
            FallbackStrategy::CachedData(_) => Err(RelayError::Recovery(RecoveryError::FallbackFailed(
                owned("Cache fallback not implemented"),
            ))),
            FallbackStrategy::DegradedMode(d) => Ok(owned(d.degraded_response.as_str())),
        }
    }
}

/// What a recovery strategy answers when it succeeds.
pub enum RecoveryResponse {
    /// A fallback's response.
    Fallback(String),
    /// The degraded-mode answer: status "degraded", the message "Service
    /// operating in degraded mode" and the original error's text.
    Degraded { message: String, original_error: String },
}

/// A named list of fallbacks, with an optional degraded mode.
pub struct RecoveryStrategy {
    pub name: String,
    pub fallback_operations: Vec<FallbackStrategy>,
    pub degraded_mode: bool,
}

impl RecoveryStrategy {
    /// A strategy with no fallback and no degraded mode.
    pub fn new(name: String) -> (s: Self)
        ensures
            s.name == name,
            s.fallback_operations@.len() == 0,
            !s.degraded_mode,
    {
        RecoveryStrategy { name, fallback_operations: Vec::new(), degraded_mode: false }
    }

    /// Adds a fallback after the existing ones.
    pub fn add_fallback(&mut self, fallback: FallbackStrategy)
        ensures
            final(self).fallback_operations@ == old(self).fallback_operations@.push(fallback),
            final(self).name == old(self).name,
            final(self).degraded_mode == old(self).degraded_mode,
    {
        self.fallback_operations.push(fallback);
    }

    /// Turns degraded mode on.
    pub fn enable_degraded_mode(&mut self)
        ensures
            final(self).degraded_mode,
            final(self).name == old(self).name,
            final(self).fallback_operations == old(self).fallback_operations,
    {
        self.degraded_mode = true;
    }

    /// The index of the first fallback that succeeds, if any.
    pub open spec fn first_success(&self) -> Option<int> {
        if exists|i: int| 0 <= i < self.fallback_operations@.len()
            && (#[trigger] self.fallback_operations@[i]).spec_execute() is Ok {
            Some(choose|i: int| 0 <= i < self.fallback_operations@.len()
                && (#[trigger] self.fallback_operations@[i]).spec_execute() is Ok
                && forall|j: int| 0 <= j < i ==> (#[trigger] self.fallback_operations@[j]).spec_execute() is Err)
        } else {
            None
        }
    }

    /// Tries the fallbacks in order and answers with the first that succeeds;
    /// when none does, answers in degraded mode if it is on, and otherwise
    /// fails with "All recovery strategies failed for {name}".
    pub fn recover(&self, error: &RelayError) -> (r: Result<RecoveryResponse, RelayError>)
        ensures
            match r {
                Ok(RecoveryResponse::Fallback(v)) => exists|i: int| 0 <= i < self.fallback_operations@.len()
                    && (#[trigger] self.fallback_operations@[i]).spec_execute() == Ok::<Seq<char>, Seq<char>>(v@)
                    && forall|j: int| 0 <= j < i ==> (#[trigger] self.fallback_operations@[j]).spec_execute() is Err,
                Ok(RecoveryResponse::Degraded { message, original_error }) => {
                    &&& forall|j: int| 0 <= j < self.fallback_operations@.len() ==> (#[trigger] self.fallback_operations@[j]).spec_execute() is Err
                    &&& self.degraded_mode
                    &&& message@ == "Service operating in degraded mode"@
                    &&& original_error@ == error.spec_message()
                },
                Err(e) => {
                    &&& forall|j: int| 0 <= j < self.fallback_operations@.len() ==> (#[trigger] self.fallback_operations@[j]).spec_execute() is Err
                    &&& !self.degraded_mode
                    &&& e matches RelayError::Recovery(RecoveryError::FallbackFailed(m))
                    &&& m@ == "All recovery strategies failed for "@ + self.name@
                },
            },
    {
        let mut i: usize = 0;
        while i < self.fallback_operations.len()
            invariant
                i <= self.fallback_operations@.len(),
                forall|j: int| 0 <= j < i ==> (#[trigger] self.fallback_operations@[j]).spec_execute() is Err,
            decreases self.fallback_operations.len() - i,
        {
            match self.fallback_operations[i].execute() {
                Ok(v) => {
                    assert(self.fallback_operations@[i as int].spec_execute() == Ok::<Seq<char>, Seq<char>>(v@));
                    return Ok(RecoveryResponse::Fallback(v));
                }
                Err(_) => {}
            }
            i = i + 1;
        }
        if self.degraded_mode {
            return Ok(RecoveryResponse::Degraded {
                message: owned("Service operating in degraded mode"),
                original_error: error.message(),
            });
        }
        Err(RelayError::Recovery(RecoveryError::FallbackFailed(
            concat2("All recovery strategies failed for ", self.name.as_str()),
        )))
    }
}

/// Fallbacks registered by name.
pub struct FallbackManager {
    pub fallbacks: StrMap<FallbackStrategy>,
}

impl FallbackManager {
    /// A manager with no fallback.
    pub fn new() -> (m: Self)
        ensures
            m.fallbacks@ == Map::<Seq<char>, FallbackStrategy>::empty(),
    {
        FallbackManager { fallbacks: StrMap::new() }
    }

    /// Registers `strategy` under `name`, replacing an earlier one.
    pub fn register_fallback(&mut self, name: String, strategy: FallbackStrategy)
        ensures
            final(self).fallbacks@ == old(self).fallbacks@.insert(name@, strategy),
    {
        self.fallbacks.insert(name, strategy);
    }

    /// The result of an operation guarded by the fallback `fallback_name`,
    /// given the primary operation's result: a success is passed on; after a
    /// failure with no such fallback the primary error is passed on; when
    /// the fallback itself fails the answer names both errors ("Both primary
    /// and fallback operations failed. Primary: {p}, Fallback: {f}"); and
    /// when it succeeds its response cannot stand for the operation's value,
    /// so the answer is the failure "Fallback executed but cannot convert
    /// result to type T".
    pub fn execute_with_fallback<T>(&self, primary: Result<T, RelayError>, fallback_name: &str) -> (r: Result<T, RelayError>)
        ensures
            match primary {
                Ok(v) => r == Ok::<T, RelayError>(v),
                Err(pe) => if !self.fallbacks@.dom().contains(fallback_name@) {
                    r == Err::<T, RelayError>(pe)
                } else {
                    match self.fallbacks@[fallback_name@].spec_execute() {
                        Ok(_) => r matches Err(RelayError::Recovery(RecoveryError::FallbackFailed(m)))
                            && m@ == "Fallback executed but cannot convert result to type T"@,
                        Err(fe) => r matches Err(RelayError::Recovery(RecoveryError::FallbackFailed(m)))
                            && m@ == "Both primary and fallback operations failed. Primary: "@ + pe.spec_message()
                                + ", Fallback: "@ + "Recovery error: "@ + "Fallback failed: "@ + fe,
                    }
                },
            },
    {
        match primary {
            Ok(v) => Ok(v),
            Err(pe) => match self.fallbacks.get(fallback_name) {
                None => Err(pe),
                Some(fallback) => match fallback.execute() {
                    Ok(_) => Err(RelayError::Recovery(RecoveryError::FallbackFailed(
                        owned("Fallback executed but cannot convert result to type T"),
                    ))),
                    Err(fe) => {
                        let head = concat3("Both primary and fallback operations failed. Primary: ", pe.message().as_str(), ", Fallback: ");
                        Err(RelayError::Recovery(RecoveryError::FallbackFailed(
                            concat2(head.as_str(), fe.message().as_str()),
                        )))
                    }
                },
            },
        }
    }
}

/// Retries, fallbacks and recovery strategies together. Retries allow three
/// attempts after the first.
pub struct ErrorRecoveryManager {
    pub retry_manager: RetryManager,
    pub fallback_manager: FallbackManager,
    pub recovery_strategies: StrMap<RecoveryStrategy>,
}

impl ErrorRecoveryManager {
    /// A manager with fresh retries and no fallback or strategy.
    pub fn new() -> (m: Self)
        ensures
            m.retry_manager.max_retries == 3,
            m.retry_manager.circuit_breakers@ == Map::<Seq<char>, CircuitBreaker>::empty(),
            m.fallback_manager.fallbacks@ == Map::<Seq<char>, FallbackStrategy>::empty(),
            m.recovery_strategies@ == Map::<Seq<char>, RecoveryStrategy>::empty(),
    {
        ErrorRecoveryManager {
            retry_manager: RetryManager::new(3),
            fallback_manager: FallbackManager::new(),
            recovery_strategies: StrMap::new(),
        }
    }

    /// Registers `strategy` under `name`, replacing an earlier one.
    pub fn register_recovery_strategy(&mut self, name: String, strategy: RecoveryStrategy)
        ensures
            final(self).recovery_strategies@ == old(self).recovery_strategies@.insert(name@, strategy),
            final(self).retry_manager == old(self).retry_manager,
            final(self).fallback_manager == old(self).fallback_manager,
    {
        self.recovery_strategies.insert(name, strategy);
    }
}

} // verus!
