use airchainpay_relay::error::{blockchain_error, BLEError, BlockchainError, RecoveryError, RelayError};
use airchainpay_relay::recovery::{
    AttemptOutcome, CachedDataFallback, CircuitBreaker, CircuitBreakerState, DegradedModeFallback,
    ErrorRecoveryManager, FallbackManager, FallbackStrategy, RecoveryResponse, RecoveryStrategy,
    RetryAction, RetryManager,
};

#[test]
fn breaker_opens_at_threshold_and_waits_out_the_timeout() {
    let mut cb = CircuitBreaker::new("rpc".to_string(), 3, 1000);
    assert_eq!(*cb.get_state(), CircuitBreakerState::Closed);
    cb.record_failure(10);
    cb.record_failure(20);
    assert_eq!(*cb.get_state(), CircuitBreakerState::Closed);
    assert!(cb.can_execute(20));
    cb.record_failure(30);
    assert_eq!(*cb.get_state(), CircuitBreakerState::Open);
    assert_eq!(cb.failure_count, 3);
    assert!(!cb.can_execute(1029));
    assert!(cb.can_execute(1030));
}

#[test]
fn open_breaker_recovers_through_half_open_once_its_timeout_has_passed() {
    let mut cb = CircuitBreaker::new("rpc".to_string(), 1, 0);
    cb.record_failure(7);
    assert_eq!(*cb.get_state(), CircuitBreakerState::Open);
    assert!(cb.can_execute(7));
    assert_eq!(*cb.get_state(), CircuitBreakerState::HalfOpen);
    cb.record_success();
    cb.record_success();
    assert_eq!(*cb.get_state(), CircuitBreakerState::HalfOpen);
    cb.record_success();
    assert_eq!(*cb.get_state(), CircuitBreakerState::Closed);
}

#[test]
fn open_breaker_stays_open_while_its_timeout_runs() {
    let mut cb = CircuitBreaker::new("rpc".to_string(), 2, 500);
    cb.record_failure(100);
    assert_eq!(*cb.get_state(), CircuitBreakerState::Closed);
    assert!(cb.failure_count < cb.failure_threshold);
    cb.record_failure(200);
    assert!(!cb.can_execute(699));
    assert_eq!(*cb.get_state(), CircuitBreakerState::Open);
    assert!(cb.can_execute(700));
    assert_eq!(*cb.get_state(), CircuitBreakerState::HalfOpen);
    cb.record_failure(701);
    assert_eq!(*cb.get_state(), CircuitBreakerState::Open);
}

#[test]
fn half_open_breaker_closes_after_three_successes_and_reopens_on_failure() {
    let mut cb = CircuitBreaker::new("rpc".to_string(), 1, 1000);
    cb.state = CircuitBreakerState::HalfOpen;
    cb.record_success();
    cb.record_success();
    assert_eq!(cb.state, CircuitBreakerState::HalfOpen);
    cb.record_success();
    assert_eq!(cb.state, CircuitBreakerState::Closed);
    assert_eq!(cb.success_count, 0);
    cb.state = CircuitBreakerState::HalfOpen;
    cb.record_failure(5);
    assert_eq!(cb.state, CircuitBreakerState::Open);
}

#[test]
fn closed_breaker_success_count_wraps_at_ten() {
    let mut cb = CircuitBreaker::new("x".to_string(), 5, 10);
    for _ in 0..9 {
        cb.record_success();
    }
    assert_eq!(cb.success_count, 9);
    cb.record_success();
    assert_eq!(cb.success_count, 0);
}

#[test]
fn retry_loop_backs_off_then_gives_up_after_the_limit() {
    let mut m = RetryManager::new(2);
    let mut st = m.begin("send", 0).ok().unwrap();
    let e = || RelayError::Blockchain(BlockchainError::NetworkError("down".to_string()));
    assert!(matches!(m.on_outcome(&mut st, AttemptOutcome::Failure(e()), 1), RetryAction::RetryAfterBackoff));
    assert!(matches!(m.on_outcome(&mut st, AttemptOutcome::Failure(e()), 2), RetryAction::RetryAfterBackoff));
    match m.on_outcome(&mut st, AttemptOutcome::Failure(e()), 3) {
        RetryAction::Fail(err) => assert_eq!(err.message(), "Recovery error: Retry exhausted: Operation send failed after 2 retries"),
        _ => panic!("expected the loop to give up"),
    }
    assert_eq!(m.circuit_breakers.get("send").unwrap().failure_count, 1);
}

#[test]
fn retry_loop_stops_at_once_on_a_permanent_error_and_finishes_on_success() {
    let mut m = RetryManager::new(3);
    let mut st = m.begin("op", 0).ok().unwrap();
    let permanent = RelayError::Blockchain(BlockchainError::InvalidAddress("0x".to_string()));
    match m.on_outcome(&mut st, AttemptOutcome::Failure(permanent), 1) {
        RetryAction::Fail(err) => assert_eq!(err.message(), "Blockchain error: Invalid address: 0x"),
        _ => panic!("expected a failure"),
    }
    let mut st = m.begin("op", 2).ok().unwrap();
    assert!(matches!(m.on_outcome(&mut st, AttemptOutcome::TimedOut, 3), RetryAction::RetryNow));
    assert!(matches!(m.on_outcome(&mut st, AttemptOutcome::Success, 4), RetryAction::Finish));
    assert_eq!(m.circuit_breakers.get("op").unwrap().success_count, 1);
}

#[test]
fn retry_loop_refuses_while_the_breaker_is_open() {
    let mut m = RetryManager::new(0);
    let e = || RelayError::BLE(BLEError::Timeout("t".to_string()));
    for now in 0..5u64 {
        let mut st = m.begin("ble", now).ok().unwrap();
        assert!(matches!(m.on_outcome(&mut st, AttemptOutcome::Failure(e()), now), RetryAction::Fail(_)));
    }
    match m.begin("ble", 100) {
        Err(err) => assert_eq!(err.message(), "Circuit breaker error: Circuit breaker open: Circuit breaker open for ble"),
        Ok(_) => panic!("expected the breaker to refuse"),
    }
    assert!(m.begin("ble", 60_004).is_ok());
}

#[test]
fn timed_out_attempts_exhaust_with_their_own_message() {
    let mut m = RetryManager::new(1);
    let mut st = m.begin("q", 0).ok().unwrap();
    assert!(matches!(m.on_outcome(&mut st, AttemptOutcome::TimedOut, 1), RetryAction::RetryNow));
    match m.on_outcome(&mut st, AttemptOutcome::TimedOut, 2) {
        RetryAction::Fail(RelayError::Recovery(RecoveryError::RecoveryTimeout(msg))) => {
            assert_eq!(msg, "Operation q timed out after 1 retries")
        }
        _ => panic!("expected a timeout failure"),
    }
}

#[test]
fn recovery_strategy_tries_fallbacks_in_order() {
    let mut s = RecoveryStrategy::new("rpc".to_string());
    let err = RelayError::Generic("boom".to_string());
    match s.recover(&err) {
        Err(e) => assert_eq!(e.message(), "Recovery error: Fallback failed: All recovery strategies failed for rpc"),
        Ok(_) => panic!("no fallback should succeed"),
    }
    s.enable_degraded_mode();
    match s.recover(&err) {
        Ok(RecoveryResponse::Degraded { message, original_error }) => {
            assert_eq!(message, "Service operating in degraded mode");
            assert_eq!(original_error, "Error: boom");
        }
        _ => panic!("expected degraded mode"),
    }
    s.add_fallback(FallbackStrategy::CachedData(CachedDataFallback::new("k".to_string())));
    s.add_fallback(FallbackStrategy::DegradedMode(DegradedModeFallback::new("{}".to_string())));
    match s.recover(&err) {
        Ok(RecoveryResponse::Fallback(v)) => assert_eq!(v, "{}"),
        _ => panic!("expected the second fallback"),
    }
}

#[test]
fn fallback_manager_passes_results_and_reports_both_failures() {
    let mut m = FallbackManager::new();
    let primary_ok: Result<u32, RelayError> = Ok(7);
    assert_eq!(m.execute_with_fallback(primary_ok, "none").ok(), Some(7));
    let fail = || -> Result<u32, RelayError> { Err(RelayError::Generic("p".to_string())) };
    assert_eq!(m.execute_with_fallback(fail(), "none").err().unwrap().message(), "Error: p");
    m.register_fallback("cache".to_string(), FallbackStrategy::CachedData(CachedDataFallback::new("k".to_string())));
    assert_eq!(
        m.execute_with_fallback(fail(), "cache").err().unwrap().message(),
        "Recovery error: Fallback failed: Both primary and fallback operations failed. Primary: Error: p, Fallback: Recovery error: Fallback failed: Cache fallback not implemented"
    );
    m.register_fallback("deg".to_string(), FallbackStrategy::DegradedMode(DegradedModeFallback::new("x".to_string())));
    assert_eq!(
        m.execute_with_fallback(fail(), "deg").err().unwrap().message(),
        "Recovery error: Fallback failed: Fallback executed but cannot convert result to type T"
    );
}

#[test]
fn error_recovery_manager_registers_strategies() {
    let mut m = ErrorRecoveryManager::new();
    assert_eq!(m.retry_manager.max_retries, 3);
    m.register_recovery_strategy("a".to_string(), RecoveryStrategy::new("a".to_string()));
    assert!(m.recovery_strategies.get("a").is_some());
}

#[test]
fn errors_display_and_answer() {
    let e = RelayError::Blockchain(BlockchainError::InvalidChainId(5));
    assert_eq!(e.message(), "Blockchain error: Invalid chain ID: 5");
    let h = e.to_http_response();
    assert_eq!((h.status, h.error.as_str(), h.message.as_str()), (400, "INVALID_CHAIN", "Invalid chain ID: 5"));
    let g = RelayError::Generic("x".to_string()).to_http_response();
    assert_eq!((g.status, g.error.as_str(), g.message.as_str()), (500, "Internal server error", "x"));
    let r = RelayError::Recovery(RecoveryError::RecoveryTimeout("t".to_string())).to_http_response();
    assert_eq!((r.status, r.error.as_str()), (408, "RECOVERY_TIMEOUT"));
    assert!(BlockchainError::RPCError("r".to_string()).is_retryable());
    assert!(!BlockchainError::NonRetryableError("r".to_string()).is_retryable());
    let res: Result<(), String> = blockchain_error(BlockchainError::ProviderNotFound(84532));
    assert_eq!(res.unwrap_err(), "Blockchain error: Provider not found for chain: 84532");
}
