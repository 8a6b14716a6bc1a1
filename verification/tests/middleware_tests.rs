use airchainpay_relay::collections::StrMap;
use airchainpay_relay::middleware::critical_error_middleware::{
    critical_error_answer, determine_critical_path, global_critical_error_handler, CriticalError, CriticalErrorMiddleware,
    CriticalErrorResponseBuilder, CriticalErrorSeverity, CriticalPath,
};
use airchainpay_relay::middleware::error_handling::{
    breaker_open_answer, get_component_from_path, global_error_handler, handle_blockchain_error, handle_storage_error,
    is_critical_endpoint, severity_response, ErrorCategory, ErrorHandlingMiddleware, ErrorResponseBuilder,
    ErrorSeverity,
};
use airchainpay_relay::middleware::ip_whitelist::{
    ipv4_of, AdminWhitelist, DevelopmentWhitelist, IPWhitelistConfig, IPWhitelistMiddleware, IPWhitelistService,
    ProductionWhitelist, WhitelistDecision,
};
use airchainpay_relay::middleware::metrics::{MetricsCollector, MetricsMiddleware, RequestOutcome};
use airchainpay_relay::middleware::rate_limiting::{
    rejection_message, AuthRateLimiter, RateLimitConfig, RateLimitDecision, RateLimitRejection, RateLimitingMiddleware,
};
use airchainpay_relay::middleware::{
    create_development_security_config, create_production_security_config, ComprehensiveSecurityMiddleware,
    ComprehensiveSecurityMiddlewareService, EnhancedSecurityConfig, ScreenOutcome, SecurityRefusal,
};
use airchainpay_relay::monitoring::MonitoringManager;
use airchainpay_relay::recovery::{CircuitBreaker, CircuitBreakerState};

#[test]
fn rate_limiter_caps_bursts_then_resets_with_the_window() {
    let mut s = AuthRateLimiter::new().into_service();
    assert_eq!(s.check("1.2.3.4", 0), RateLimitDecision::Allow);
    assert_eq!(s.check("1.2.3.4", 1), RateLimitDecision::Allow);
    assert_eq!(s.check("1.2.3.4", 2), RateLimitDecision::Reject(RateLimitRejection::Burst));
    assert_eq!(s.check("5.6.7.8", 2), RateLimitDecision::Allow);
    assert_eq!(s.check("1.2.3.4", 900_000), RateLimitDecision::Allow);
    assert_eq!(s.limits.get("1.2.3.4").unwrap().count, 1);
}

#[test]
fn rate_limiter_counts_requests_within_the_window() {
    let cfg = RateLimitConfig { window_ms: 1000, max_requests: 2, burst_size: 10, enabled: true };
    let mut s = RateLimitingMiddleware::new(cfg).into_service();
    assert_eq!(s.check("c", 0), RateLimitDecision::Allow);
    assert_eq!(s.check("c", 10), RateLimitDecision::Allow);
    assert_eq!(s.check("c", 20), RateLimitDecision::Reject(RateLimitRejection::Limit));
    let off = RateLimitConfig { enabled: false, ..cfg };
    let mut s = RateLimitingMiddleware::new(off).with_max_requests(0).into_service();
    assert_eq!(s.check("c", 0), RateLimitDecision::Allow);
    assert!(s.limits.is_empty());
    let (msg, retry) = rejection_message(&cfg, RateLimitRejection::Burst);
    assert_eq!((msg.as_str(), retry.as_str()), ("Rate limit exceeded (burst)", "1000ms"));
}

#[test]
fn whitelist_matches_addresses_and_network_prefixes() {
    assert!(IPWhitelistService::ip_in_cidr("10.1.2.3", "10.1.2.3"));
    assert!(!IPWhitelistService::ip_in_cidr("10.1.2.4", "10.1.2.3"));
    assert!(IPWhitelistService::ip_in_cidr("192.168.1.0", "192.168.1.0/24"));
    assert!(IPWhitelistService::ip_in_cidr("192.168.1.55", "192.168.1.0/24"));
    assert!(!IPWhitelistService::ip_in_cidr("192.168.2.1", "192.168.1.0/24"));
    assert!(IPWhitelistService::ip_in_cidr("10.1.2.3", "10.0.0.0/8"));
    assert!(!IPWhitelistService::ip_in_cidr("11.0.0.1", "10.0.0.0/8"));
    assert!(IPWhitelistService::ip_in_cidr("172.31.255.255", "172.16.0.0/12"));
    assert!(!IPWhitelistService::ip_in_cidr("172.32.0.0", "172.16.0.0/12"));
    assert!(IPWhitelistService::ip_in_cidr("8.8.8.8", "0.0.0.0/0"));
    assert!(!IPWhitelistService::ip_in_cidr("10.0.0.1", "10.0.0.0/33"));
    assert!(!IPWhitelistService::ip_in_cidr("10.0.0.0.7", "10.0.0.0/8"));
    assert!(!IPWhitelistService::ip_in_cidr("10.0.0.1", "10.0.0.0/abc"));
    assert!(IPWhitelistService::ip_in_cidr("127.0.0.1", "127.0.0.1"));
    assert_eq!(ipv4_of("192.168.1.2"), Some(0xC0A8_0102));
    assert_eq!(ipv4_of("1.2.3"), None);
    assert_eq!(ipv4_of("1.2.3.256"), None);
    let admin = AdminWhitelist::new().into_service();
    assert!(matches!(admin.decide("127.0.0.1"), WhitelistDecision::Pass));
    assert!(matches!(admin.decide("10.20.30.40"), WhitelistDecision::Pass));
    assert!(matches!(admin.decide("192.168.1.77"), WhitelistDecision::Pass));
    assert!(!matches!(admin.decide("10.0.0.0.7"), WhitelistDecision::Pass));
    match admin.decide("8.8.8.8") {
        WhitelistDecision::Deny { ip, log } => {
            assert_eq!(ip, "8.8.8.8");
            assert!(log);
        }
        WhitelistDecision::Pass => panic!("expected a refusal"),
    }
    assert!(matches!(ProductionWhitelist::new().into_service().decide("8.8.8.8"), WhitelistDecision::Pass));
    let dev = DevelopmentWhitelist::new().into_service();
    assert!(dev.config.allow_all && dev.config.enabled && !dev.config.log_blocked);
    assert!(matches!(dev.decide("203.0.113.9"), WhitelistDecision::Pass));
}

#[test]
fn whitelist_builders() {
    let cfg = IPWhitelistConfig { allowed_ips: StrMap::new(), allow_all: false, enabled: true, log_blocked: false };
    let m = IPWhitelistMiddleware::new(cfg).with_ips(vec!["1.1.1.1".to_string()]);
    let s = m.into_service();
    assert!(matches!(s.decide("1.1.1.1"), WhitelistDecision::Pass));
    assert!(matches!(s.decide("2.2.2.2"), WhitelistDecision::Deny { log: false, .. }));
    let cfg = IPWhitelistConfig { allowed_ips: StrMap::new(), allow_all: false, enabled: true, log_blocked: true };
    let s = IPWhitelistMiddleware::new(cfg).disable().into_service();
    assert!(matches!(s.decide("2.2.2.2"), WhitelistDecision::Pass));
    let cfg = IPWhitelistConfig { allowed_ips: StrMap::new(), allow_all: false, enabled: false, log_blocked: true };
    let s = IPWhitelistMiddleware::new(cfg).enable().allow_all().into_service();
    assert!(matches!(s.decide("2.2.2.2"), WhitelistDecision::Pass));
}

#[test]
fn screen_finds_injection_in_order() {
    type S = ComprehensiveSecurityMiddlewareService;
    assert_eq!(S::validate_input("drop table").unwrap_err(), "SQL injection pattern detected: DROP");
    assert_eq!(S::validate_input("hello world").unwrap_err(), "SQL injection pattern detected: OR");
    assert_eq!(S::validate_input("<img onerror=x>").unwrap_err(), "SQL injection pattern detected: OR");
    assert_eq!(S::validate_input("eval(x)").unwrap_err(), "XSS pattern detected: eval(");
    assert_eq!(S::validate_input("../etc").unwrap_err(), "Path traversal detected");
    assert_eq!(S::validate_input("a|b").unwrap_err(), "Command injection detected: |");
    assert!(S::validate_input("abc").is_ok());
    assert!(S::validate_input("").is_ok());
}

#[test]
fn screen_checks_query_then_path() {
    type S = ComprehensiveSecurityMiddlewareService;
    assert!(S::validate_request_input("a=1&b=2", "/api/v1/tx").is_ok());
    assert_eq!(
        S::validate_request_input("q=x;y", "/api").unwrap_err(),
        "Invalid query parameter 'q': Command injection detected: ;"
    );
    assert_eq!(S::validate_request_input("", "/a/b$(c").unwrap_err(), "Invalid path segment: Command injection detected: $(");
    assert!(S::validate_request_input("flag", "/a").is_ok());
}

#[test]
fn screen_flags_suspicious_requests() {
    type S = ComprehensiveSecurityMiddlewareService;
    assert!(S::is_suspicious_request("127.0.0.1", "Mozilla", "/api"));
    assert!(S::is_suspicious_request("8.8.8.8", "Python-urllib", "/api"));
    assert!(S::is_suspicious_request("8.8.8.8", "Mozilla", "/wp-admin/x"));
    assert!(!S::is_suspicious_request("8.8.8.8", "Mozilla", "/api"));
}

#[test]
fn screen_limits_size_and_content_type() {
    let s = ComprehensiveSecurityMiddleware::new(EnhancedSecurityConfig::new()).into_service();
    match s.screen_limits(Some("10485761"), false, None) {
        Some(SecurityRefusal::PayloadTooLarge { max_size }) => assert_eq!(max_size, "10MB"),
        _ => panic!("expected a size refusal"),
    }
    assert!(s.screen_limits(Some("10485760"), false, None).is_none());
    assert!(s.screen_limits(Some("abc"), false, None).is_none());
    assert!(matches!(s.screen_limits(None, true, Some("text/plain")), Some(SecurityRefusal::InvalidContentType)));
    assert!(s.screen_limits(None, true, Some("application/json; charset=utf-8")).is_none());
    assert!(s.screen_limits(None, false, Some("text/plain")).is_none());
}

#[test]
fn screen_checks_size_then_type_then_input() {
    let s = ComprehensiveSecurityMiddleware::new(EnhancedSecurityConfig::new()).into_service();
    let big = s.screen("1.2.3.4", "Mozilla", "/api/x", "q=DROP", Some("99999999"), true, Some("text/plain"));
    assert!(matches!(big, ScreenOutcome::Refused(SecurityRefusal::PayloadTooLarge { .. })));
    let ct = s.screen("1.2.3.4", "Mozilla", "/api/x", "q=DROP", Some("10"), true, Some("text/plain"));
    assert!(matches!(ct, ScreenOutcome::Refused(SecurityRefusal::InvalidContentType)));
    match s.screen("1.2.3.4", "Mozilla", "/api/x", "q=DROP", Some("10"), true, Some("application/json")) {
        ScreenOutcome::InvalidInput(m) => assert_eq!(m, "Invalid query parameter 'q': SQL injection pattern detected: DROP"),
        _ => panic!("expected an input refusal"),
    }
    assert!(matches!(s.screen("1.2.3.4", "Mozilla", "/api/x", "q=1", None, false, None), ScreenOutcome::Pass { suspicious: false }));
    assert!(matches!(s.screen("1.2.3.4", "curl/8", "/api/x", "q=1", None, false, None), ScreenOutcome::Pass { suspicious: true }));
}

#[test]
fn screen_sets_protective_and_custom_headers() {
    let mut cfg = EnhancedSecurityConfig::new();
    cfg.security.enable_hsts = false;
    cfg.security.security_headers.insert("X-Relay".to_string(), "on".to_string());
    let h = ComprehensiveSecurityMiddlewareService::response_headers(&cfg);
    let names: Vec<&str> = h.iter().map(|(n, _)| n.as_str()).collect();
    assert_eq!(
        names,
        vec!["content-security-policy", "x-frame-options", "x-content-type-options", "x-xss-protection",
            "referrer-policy", "permissions-policy", "x-relay"]
    );
    assert_eq!(h[1].1, "DENY");
    assert_eq!(
        ComprehensiveSecurityMiddlewareService::security_event_line("SUSPICIOUS", "1.2.3.4", "curl", "/x", "HIGH"),
        "COMPREHENSIVE_SECURITY_EVENT: SUSPICIOUS - IP: 1.2.3.4 - UA: curl - Path: /x - Severity: HIGH"
    );
}

#[test]
fn security_presets() {
    let p = create_production_security_config();
    assert!(p.security.enable_ip_whitelist);
    assert_eq!(p.security.allowed_ips, vec!["10.0.0.0/8", "172.16.0.0/12", "192.168.0.0/16"]);
    let d = create_development_security_config();
    assert!(!d.security.enable_ip_whitelist);
    assert_eq!(d.security.allowed_origins, vec!["*"]);
    for c in [&p, &d] {
        assert!(c.security.enable_hsts && c.security.enable_frame_options && c.security.enable_xss_protection);
        assert!(c.security.enable_content_security_policy && c.security.enable_content_type_options);
        assert!(c.security.enable_referrer_policy && c.security.enable_permissions_policy);
        assert_eq!(c.security.security_headers.len(), 0);
    }
}

#[test]
fn one_window_admits_the_smaller_cap() {
    let cfg = RateLimitConfig { window_ms: 1000, max_requests: 3, burst_size: 5, enabled: true };
    let mut s = RateLimitingMiddleware::new(cfg).into_service();
    let admitted = (0..6).filter(|_| s.check("c", 10) == RateLimitDecision::Allow).count();
    assert_eq!(admitted, 3);
    let cfg = RateLimitConfig { window_ms: 1000, max_requests: 9, burst_size: 2, enabled: true };
    let mut s = RateLimitingMiddleware::new(cfg).into_service();
    let admitted = (0..6).filter(|_| s.check("c", 10) == RateLimitDecision::Allow).count();
    assert_eq!(admitted, 2);
}

#[test]
fn requests_spread_over_one_window_admit_the_smaller_cap() {
    let cfg = RateLimitConfig { window_ms: 1000, max_requests: 3, burst_size: 5, enabled: true };
    let mut s = RateLimitingMiddleware::new(cfg).into_service();
    let decisions: Vec<RateLimitDecision> = [10u64, 200, 400, 900, 1009].iter().map(|t| s.check("c", *t)).collect();
    assert_eq!(decisions.iter().filter(|d| **d == RateLimitDecision::Allow).count(), 3);
    assert_eq!(decisions[3], RateLimitDecision::Reject(RateLimitRejection::Limit));
    let before = *s.limits.get("c").unwrap();
    assert_eq!(s.check("c", 1009), RateLimitDecision::Reject(RateLimitRejection::Limit));
    let after = *s.limits.get("c").unwrap();
    assert_eq!((before.count, before.burst_count, before.reset_time), (after.count, after.burst_count, after.reset_time));
    assert_eq!(s.check("c", 1010), RateLimitDecision::Allow);
}

#[test]
fn open_breakers_answer_with_a_retry_delay() {
    let mut breakers = StrMap::new();
    let mut cb = CircuitBreaker::new("authentication".to_string(), 1, 100);
    cb.record_failure(0);
    breakers.insert("authentication".to_string(), cb);
    breakers.insert("health".to_string(), CircuitBreaker::new("health".to_string(), 1, 100));
    let mut s = ErrorHandlingMiddleware::new(breakers).into_service();
    s.refresh_breaker("/auth/login", 50);
    let a = s.screen_request("/auth/login").unwrap();
    assert_eq!((a.status, a.error.as_str(), a.message.as_str()), (503, "Service temporarily unavailable", "Circuit breaker is open"));
    assert_eq!((a.component.as_str(), a.retry_after), ("authentication", 60));
    assert!(s.is_circuit_breaker_open("authentication"));
    assert!(s.screen_request("/nothing").is_none());
    s.record_outcome("/health", false, 60);
    s.refresh_breaker("/health", 61);
    assert!(s.screen_request("/health").is_some());
    s.refresh_breaker("/auth/login", 100);
    assert!(!s.is_circuit_breaker_open("authentication"));
    assert!(s.screen_request("/auth/login").is_none());
    assert_eq!(s.breakers.get("authentication").unwrap().state, CircuitBreakerState::HalfOpen);
    let b = breaker_open_answer("ble");
    assert_eq!((b.status, b.component.as_str(), b.retry_after), (503, "ble", 60));
}

#[test]
fn critical_answers_carry_the_request() {
    let e = CriticalError {
        id: "err-1".to_string(),
        path: CriticalPath::Authentication,
        error_message: "bad".to_string(),
        severity: CriticalErrorSeverity::Medium,
    };
    let a = critical_error_answer(&e, "/auth/login", "POST");
    assert_eq!((a.status, a.error.as_str()), (400, "Medium severity error"));
    assert_eq!((a.request_id.as_str(), a.path.as_str(), a.method.as_str()), ("err-1", "/auth/login", "POST"));
}

#[test]
fn error_handling_guards_components_with_breakers() {
    assert!(is_critical_endpoint("/auth/login"));
    assert!(!is_critical_endpoint("/transaction/status"));
    assert_eq!(get_component_from_path("/compressed/send_compressed_tx"), "compression");
    assert_eq!(get_component_from_path("/nothing"), "api");
    let mut breakers = StrMap::new();
    let mut cb = CircuitBreaker::new("authentication".to_string(), 1, 10);
    cb.record_failure(0);
    assert_eq!(cb.state, CircuitBreakerState::Open);
    breakers.insert("authentication".to_string(), cb);
    let s = ErrorHandlingMiddleware::new(breakers).into_service();
    assert_eq!(s.unavailable_component("/auth/login"), Some("authentication".to_string()));
    assert_eq!(s.unavailable_component("/health"), None);
    assert!(s.is_circuit_breaker_open("authentication"));
}

#[test]
fn error_answers_by_severity_and_layer() {
    let r = severity_response(ErrorSeverity::Medium);
    assert_eq!((r.status, r.error.as_str()), (400, "Request error"));
    let g = global_error_handler("boom", false);
    assert_eq!((g.status, g.message.as_str()), (500, "An unexpected error occurred"));
    assert_eq!(global_error_handler("boom", true).message, "boom");
    let b = ErrorResponseBuilder::too_many_requests("slow down");
    assert_eq!((b.status, b.error.as_str()), (429, "Too many requests"));
    let rep = handle_blockchain_error::<u8>(Err("connection refused".to_string()), "send").err().unwrap();
    assert_eq!(rep.category, ErrorCategory::Network);
    assert_eq!(rep.severity, ErrorSeverity::High);
    assert_eq!(rep.response.message, "Blockchain operation failed: connection refused");
    let rep = handle_storage_error::<u8>(Err("disk full".to_string()), "write").err().unwrap();
    assert_eq!((rep.category, rep.severity), (ErrorCategory::System, ErrorSeverity::Critical));
    assert_eq!(handle_storage_error(Ok(3u8), "read").ok(), Some(3));
}

#[test]
fn critical_paths_and_answers() {
    assert_eq!(determine_critical_path("/send_tx", "POST"), CriticalPath::TransactionProcessing);
    assert_eq!(determine_critical_path("/backup/list", "GET"), CriticalPath::DatabaseOperation);
    assert_eq!(determine_critical_path("/api/tx", "POST"), CriticalPath::BlockchainTransaction);
    assert_eq!(determine_critical_path("/api/tx", "GET"), CriticalPath::TransactionProcessing);
    let e = CriticalError {
        id: "id".to_string(),
        path: CriticalPath::Authentication,
        severity: CriticalErrorSeverity::Medium,
        error_message: "bad".to_string(),
    };
    let s = CriticalErrorMiddleware::new().into_service();
    let _ = s;
    let r = airchainpay_relay::middleware::critical_error_middleware::CriticalErrorMiddlewareService::error_response(&e);
    assert_eq!((r.status, r.error.as_str()), (400, "Medium severity error"));
    assert_eq!(global_critical_error_handler(&e, false).message, "A critical error occurred in the system");
    assert_eq!(CriticalErrorResponseBuilder::timeout_error("db").message, "db operation timed out");
}

#[test]
fn metrics_count_requests_by_path() {
    let mut s = MetricsMiddleware::new(MonitoringManager::new(0)).into_service();
    let _ = s.record_request("/transaction/submit", RequestOutcome::Success, 1);
    let _ = s.record_request("/ble/scan", RequestOutcome::ErrorStatus, 2);
    let _ = s.record_request("/auth/login", RequestOutcome::ErrorStatus, 3);
    let _ = s.record_request("/auth/login", RequestOutcome::Success, 4);
    let _ = s.record_request("/transaction/x", RequestOutcome::Failed, 5);
    let m = s.monitoring_manager.get_metrics();
    assert_eq!(m.transactions_received, 1);
    assert_eq!(m.ble_connections, 1);
    assert_eq!(m.auth_failures, 1);
}

#[test]
fn metrics_collector_raises_named_counters() {
    let mut c = MetricsCollector::new(MonitoringManager::new(0));
    let _ = c.record_transaction_failed(1);
    let _ = c.record_transaction_failed(2);
    let _ = c.record_rpc_error(3);
    let lines = c.record_cache_hit(4);
    assert_eq!(lines[0].message, "Unknown metric: cache_hits");
    let m = c.get_metrics();
    assert_eq!(m.transactions_failed, 2);
    assert_eq!(m.rpc_errors, 1);
}
