//! Error answers for the API: which endpoints are guarded by a circuit
//! breaker, which component a path belongs to, how errors of the
//! blockchain, BLE and storage layers are classified, and the bodies of the
//! standard error answers.
use vstd::prelude::*;
use crate::collections::StrMap;
use crate::error::HttpErrorInfo;
use crate::recovery::{after_record, CircuitBreaker, CircuitBreakerState};
use crate::text::{concat2, concat3, contains, owned, seq_contains, seq_starts_with, starts_with, str_views};

verus! {

/// The kind of failure an error reports.
#[derive(Debug, Clone, Copy, PartialEq, Eq, Structural)]
pub enum ErrorCategory {
    Network,
    Blockchain,
    System,
    Database,
}

/// How serious an error is.
#[derive(Debug, Clone, Copy, PartialEq, Eq, Structural)]
pub enum ErrorSeverity {
    Low,
    Medium,
    High,
    Critical,
}

/// Path prefixes of the endpoints that a circuit breaker guards.
pub open spec fn critical_prefixes() -> Seq<Seq<char>> {
    seq!["/transaction/submit"@, "/transaction/send_tx"@, "/compressed/send_compressed_tx"@, "/ble/scan"@,
        "/auth"@, "/health"@, "/metrics"@, "/config"@, "/backup"@, "/audit"@]
}

/// The path starts with one of the guarded prefixes.
pub open spec fn critical_endpoint(path: Seq<char>) -> bool {
    exists|i: int| 0 <= i < critical_prefixes().len() && #[trigger] seq_starts_with(path, critical_prefixes()[i])
}

/// The component that a path belongs to, by its first matching prefix.
pub open spec fn component_of(path: Seq<char>) -> Seq<char> {
    if seq_starts_with(path, "/transaction"@) { "transaction"@ }
    else if seq_starts_with(path, "/compressed"@) { "compression"@ }
    else if seq_starts_with(path, "/ble"@) { "ble"@ }
    else if seq_starts_with(path, "/auth"@) { "authentication"@ }
    else if seq_starts_with(path, "/health"@) { "health"@ }
    else if seq_starts_with(path, "/metrics"@) { "metrics"@ }
    else if seq_starts_with(path, "/config"@) { "configuration"@ }
    else if seq_starts_with(path, "/backup"@) { "backup"@ }
    else if seq_starts_with(path, "/audit"@) { "audit"@ }
    else { "api"@ }
}

/// Whether the endpoint at `path` is guarded by a circuit breaker.
pub fn is_critical_endpoint(path: &str) -> (r: bool)
    ensures
        r == critical_endpoint(path@),
{
    let prefixes: Vec<&str> = vec!["/transaction/submit", "/transaction/send_tx", "/compressed/send_compressed_tx",
        "/ble/scan", "/auth", "/health", "/metrics", "/config", "/backup", "/audit"];
    assert(str_views(prefixes@) =~= critical_prefixes());
    let mut i: usize = 0;
    while i < prefixes.len()
        invariant
            i <= prefixes.len(),
            str_views(prefixes@) == critical_prefixes(),
            forall|j: int| 0 <= j < i ==> !seq_starts_with(path@, #[trigger] critical_prefixes()[j]),
        decreases prefixes.len() - i,
    {
        if starts_with(path, prefixes[i]) {
            assert(seq_starts_with(path@, critical_prefixes()[i as int]));
            return true;
        }
        i = i + 1;
    }
    false
}

/// The component that `path` belongs to (see `component_of`).
pub fn get_component_from_path(path: &str) -> (c: String)
    ensures
        c@ == component_of(path@),
{
    if starts_with(path, "/transaction") { owned("transaction") }
    else if starts_with(path, "/compressed") { owned("compression") }
    else if starts_with(path, "/ble") { owned("ble") }
    else if starts_with(path, "/auth") { owned("authentication") }
    else if starts_with(path, "/health") { owned("health") }
    else if starts_with(path, "/metrics") { owned("metrics") }
    else if starts_with(path, "/config") { owned("configuration") }
    else if starts_with(path, "/backup") { owned("backup") }
    else if starts_with(path, "/audit") { owned("audit") }
    else { owned("api") }
}

/// Error answers with a circuit breaker per component.
pub struct ErrorHandlingMiddleware {
    /// Circuit breakers by component name.
    pub breakers: StrMap<CircuitBreaker>,
}

/// The breaker for `component` is open.
pub open spec fn breaker_open(breakers: Map<Seq<char>, CircuitBreaker>, component: Seq<char>) -> bool {
    breakers.dom().contains(component) && breakers[component].state == CircuitBreakerState::Open
}

impl ErrorHandlingMiddleware {
    /// Error answers with the given breakers.
    pub fn new(breakers: StrMap<CircuitBreaker>) -> (m: Self)
        ensures
            m.breakers@ == breakers@,
    {
        ErrorHandlingMiddleware { breakers }
    }

    /// The service that answers with these breakers.
    pub fn into_service(self) -> (s: ErrorHandlingMiddlewareService)
        ensures
            s.breakers@ == self.breakers@,
    {
        ErrorHandlingMiddlewareService { breakers: self.breakers }
    }
}

/// Error answers as they are given to requests.
pub struct ErrorHandlingMiddlewareService {
    /// Circuit breakers by component name.
    pub breakers: StrMap<CircuitBreaker>,
}

impl ErrorHandlingMiddlewareService {
    /// Whether the breaker for `component` is open.
    pub fn is_circuit_breaker_open(&self, component: &str) -> (r: bool)
        ensures
            r == breaker_open(self.breakers@, component@),
    {
        match self.breakers.get(component) {
            Some(cb) => cb.state == CircuitBreakerState::Open,
            None => false,
        }
    }

    /// The component to answer 503 for, when `path` is a guarded endpoint
    /// whose component's breaker is open.
    pub fn unavailable_component(&self, path: &str) -> (r: Option<String>)
        ensures
            match r {
                Some(c) => critical_endpoint(path@) && c@ == component_of(path@)
                    && breaker_open(self.breakers@, component_of(path@)),
                None => !(critical_endpoint(path@) && breaker_open(self.breakers@, component_of(path@))),
            },
    {
        if is_critical_endpoint(path) {
            let component = get_component_from_path(path);
            if self.is_circuit_breaker_open(component.as_str()) {
                return Some(component);
            }
        }
        None
    }
}

/// The breakers after the one of `component`, if any, follows its timeout at `now`.
pub open spec fn refreshed(m: Map<Seq<char>, CircuitBreaker>, component: Seq<char>, now: u64) -> Map<Seq<char>, CircuitBreaker> {
    if m.dom().contains(component) { m.insert(component, m[component].after_check(now)) } else { m }
}

/// Refreshing and then screening refuses a guarded request exactly while its
/// component's breaker is open and its timeout has not passed; an open
/// breaker past its timeout lets the request through as half-open.
pub proof fn lemma_refresh_then_screen(m: Map<Seq<char>, CircuitBreaker>, component: Seq<char>, now: u64)
    ensures
        breaker_open(refreshed(m, component, now), component)
            <==> (breaker_open(m, component) && !m[component].spec_can_execute(now)),
        breaker_open(m, component) && m[component].spec_can_execute(now)
            ==> refreshed(m, component, now)[component].state == CircuitBreakerState::HalfOpen,
{
}

impl ErrorHandlingMiddlewareService {
    /// Lets the breaker of the component of `path` follow its timeout at
    /// `now` (milliseconds): an open breaker whose timeout has passed turns
    /// half-open; nothing else changes.
    pub fn refresh_breaker(&mut self, path: &str, now: u64)
        ensures
            final(self).breakers@ == refreshed(old(self).breakers@, component_of(path@), now),
    {
        let component = get_component_from_path(path);
        match self.breakers.remove(component.as_str()) {
            None => {}
            Some(cb) => {
                let mut cb = cb;
                let _ = cb.can_execute(now);
                self.breakers.insert(owned(component.as_str()), cb);
                assert(self.breakers@ =~= old(self).breakers@.insert(component@, old(self).breakers@[component@].after_check(now)));
            }
        }
    }

    /// Screens a request for `path`: a guarded endpoint whose component's
    /// breaker is open (`is_circuit_breaker_open`) is answered 503 for that
    /// component, and any other request goes on.
    pub fn screen_request(&self, path: &str) -> (r: Option<BreakerOpenAnswer>)
        ensures
            match r {
                Some(a) => critical_endpoint(path@) && breaker_open(self.breakers@, component_of(path@))
                    && a.is_breaker_open_answer(component_of(path@)),
                None => !(critical_endpoint(path@) && breaker_open(self.breakers@, component_of(path@))),
            },
    {
        match self.unavailable_component(path) {
            Some(c) => Some(breaker_open_answer(c.as_str())),
            None => None,
        }
    }

    /// Records how a request for `path` ended on its component's breaker,
    /// if the component has one (see `after_record`).
    pub fn record_outcome(&mut self, path: &str, success: bool, now: u64)
        ensures
            final(self).breakers@ == after_record(old(self).breakers@, component_of(path@), success, now),
    {
        let component = get_component_from_path(path);
        match self.breakers.remove(component.as_str()) {
            Some(cb) => {
                let mut cb = cb;
                if success {
                    if cb.success_count < u32::MAX {
                        cb.record_success();
                    }
                } else {
                    if cb.failure_count < u32::MAX {
                        cb.record_failure(now);
                    }
                }
                self.breakers.insert(owned(component.as_str()), cb);
                assert(self.breakers@ =~= after_record(old(self).breakers@, component@, success, now));
            }
            None => {}
        }
    }
}

/// The full answer to a request refused by an open breaker.
pub struct BreakerOpenAnswer {
    pub status: u16,
    pub error: String,
    pub message: String,
    pub component: String,
    /// Seconds after which the client may try again.
    pub retry_after: u64,
}

impl BreakerOpenAnswer {
    /// The 503 answer for `component`, asking the client to come back in 60 seconds.
    pub open spec fn is_breaker_open_answer(&self, component: Seq<char>) -> bool {
        &&& self.status == 503
        &&& self.error@ == "Service temporarily unavailable"@
        &&& self.message@ == "Circuit breaker is open"@
        &&& self.component@ == component
        &&& self.retry_after == 60
    }
}

/// The 503 answer for `component` (see `is_breaker_open_answer`).
pub fn breaker_open_answer(component: &str) -> (r: BreakerOpenAnswer)
    ensures
        r.is_breaker_open_answer(component@),
{
    let info = breaker_open_response();
    BreakerOpenAnswer { status: info.status, error: info.error, message: info.message, component: owned(component), retry_after: 60 }
}

/// The 503 answer for a component whose breaker is open.
pub fn breaker_open_response() -> (r: HttpErrorInfo)
    ensures
        r.status == 503,
        r.error@ == "Service temporarily unavailable"@,
        r.message@ == "Circuit breaker is open"@,
{
    HttpErrorInfo { status: 503, error: owned("Service temporarily unavailable"), message: owned("Circuit breaker is open") }
}

/// The answer owed to an error of the given severity: 500 for critical and
/// high, 400 for medium and low.
pub open spec fn severity_answer(severity: ErrorSeverity) -> (u16, Seq<char>, Seq<char>) {
    match severity {
        ErrorSeverity::Critical => (500, "Internal server error"@, "A critical error occurred"@),
        ErrorSeverity::High => (500, "Service error"@, "A high severity error occurred"@),
        ErrorSeverity::Medium => (400, "Request error"@, "A medium severity error occurred"@),
        ErrorSeverity::Low => (400, "Request error"@, "A low severity error occurred"@),
    }
}

/// The answer to an error of the given severity (see `severity_answer`).
pub fn severity_response(severity: ErrorSeverity) -> (r: HttpErrorInfo)
    ensures
        (r.status, r.error@, r.message@) == severity_answer(severity),
{
    match severity {
        ErrorSeverity::Critical => HttpErrorInfo { status: 500, error: owned("Internal server error"), message: owned("A critical error occurred") },
        ErrorSeverity::High => HttpErrorInfo { status: 500, error: owned("Service error"), message: owned("A high severity error occurred") },
        ErrorSeverity::Medium => HttpErrorInfo { status: 400, error: owned("Request error"), message: owned("A medium severity error occurred") },
        ErrorSeverity::Low => HttpErrorInfo { status: 400, error: owned("Request error"), message: owned("A low severity error occurred") },
    }
}

/// The log line for an error of the given severity in `method path`.
pub fn severity_log_line(severity: ErrorSeverity, method: &str, path: &str, message: &str) -> (r: String)
    ensures
        r@ == (match severity {
            ErrorSeverity::Critical => "CRITICAL ERROR in "@,
            ErrorSeverity::High => "HIGH SEVERITY ERROR in "@,
            ErrorSeverity::Medium => "MEDIUM SEVERITY ERROR in "@,
            ErrorSeverity::Low => "LOW SEVERITY ERROR in "@,
        }) + method@ + " "@ + path@ + ": "@ + message@,
{
    let head = match severity {
        ErrorSeverity::Critical => "CRITICAL ERROR in ",
        ErrorSeverity::High => "HIGH SEVERITY ERROR in ",
        ErrorSeverity::Medium => "MEDIUM SEVERITY ERROR in ",
        ErrorSeverity::Low => "LOW SEVERITY ERROR in ",
    };
    let a = concat3(head, method, " ");
    let b = concat3(a.as_str(), path, ": ");
    concat2(b.as_str(), message)
}

/// The answer to an unhandled error: the error's own text in development,
/// a fixed text otherwise.
pub fn global_error_handler(error_message: &str, is_development: bool) -> (r: HttpErrorInfo)
    ensures
        r.status == 500,
        r.error@ == "Internal server error"@,
        r.message@ == if is_development { error_message@ } else { "An unexpected error occurred"@ },
{
    let message = if is_development { owned(error_message) } else { owned("An unexpected error occurred") };
    HttpErrorInfo { status: 500, error: owned("Internal server error"), message }
}

/// The bodies of the standard error answers.
pub struct ErrorResponseBuilder;

impl ErrorResponseBuilder {
    pub fn bad_request(message: &str) -> (r: HttpErrorInfo)
        ensures
            r.status == 400 && r.error@ == "Bad request"@ && r.message@ == message@,
    {
        HttpErrorInfo { status: 400, error: owned("Bad request"), message: owned(message) }
    }

    pub fn unauthorized(message: &str) -> (r: HttpErrorInfo)
        ensures
            r.status == 401 && r.error@ == "Unauthorized"@ && r.message@ == message@,
    {
        HttpErrorInfo { status: 401, error: owned("Unauthorized"), message: owned(message) }
    }

    pub fn forbidden(message: &str) -> (r: HttpErrorInfo)
        ensures
            r.status == 403 && r.error@ == "Forbidden"@ && r.message@ == message@,
    {
        HttpErrorInfo { status: 403, error: owned("Forbidden"), message: owned(message) }
    }

    pub fn not_found(message: &str) -> (r: HttpErrorInfo)
        ensures
            r.status == 404 && r.error@ == "Not found"@ && r.message@ == message@,
    {
        HttpErrorInfo { status: 404, error: owned("Not found"), message: owned(message) }
    }

    pub fn internal_server_error(message: &str) -> (r: HttpErrorInfo)
        ensures
            r.status == 500 && r.error@ == "Internal server error"@ && r.message@ == message@,
    {
        HttpErrorInfo { status: 500, error: owned("Internal server error"), message: owned(message) }
    }

    pub fn service_unavailable(message: &str) -> (r: HttpErrorInfo)
        ensures
            r.status == 503 && r.error@ == "Service unavailable"@ && r.message@ == message@,
    {
        HttpErrorInfo { status: 503, error: owned("Service unavailable"), message: owned(message) }
    }

    /// The 429 body; the caller sends `Retry-After` and `retry_after` with it.
    pub fn too_many_requests(message: &str) -> (r: HttpErrorInfo)
        ensures
            r.status == 429 && r.error@ == "Too many requests"@ && r.message@ == message@,
    {
        HttpErrorInfo { status: 429, error: owned("Too many requests"), message: owned(message) }
    }
}

/// A failed operation of a layer, ready to be recorded and answered.
pub struct ErrorReport {
    pub category: ErrorCategory,
    pub severity: ErrorSeverity,
    /// The component the error is recorded under.
    pub component: String,
    /// The operation that failed.
    pub operation: String,
    /// The error type recorded with it.
    pub error_type: String,
    /// The 500 answer.
    pub response: HttpErrorInfo,
}

/// How a blockchain error is classified: network trouble by its words, a
/// timeout or refused connection as high severity.
pub open spec fn blockchain_class(msg: Seq<char>) -> (ErrorCategory, ErrorSeverity) {
    let category = if seq_contains(msg, "network"@) || seq_contains(msg, "connection"@) {
        ErrorCategory::Network
    } else {
        ErrorCategory::Blockchain
    };
    let severity = if seq_contains(msg, "timeout"@) || seq_contains(msg, "connection refused"@) {
        ErrorSeverity::High
    } else {
        ErrorSeverity::Medium
    };
    (category, severity)
}

/// How a BLE error is classified.
pub open spec fn ble_class(msg: Seq<char>) -> (ErrorCategory, ErrorSeverity) {
    let category = if seq_contains(msg, "connection"@) || seq_contains(msg, "scan"@) {
        ErrorCategory::Network
    } else {
        ErrorCategory::System
    };
    let severity = if seq_contains(msg, "hardware"@) || seq_contains(msg, "permission"@) {
        ErrorSeverity::High
    } else {
        ErrorSeverity::Medium
    };
    (category, severity)
}

/// How a storage error is classified.
pub open spec fn storage_class(msg: Seq<char>) -> (ErrorCategory, ErrorSeverity) {
    let category = if seq_contains(msg, "disk"@) || seq_contains(msg, "space"@) {
        ErrorCategory::System
    } else {
        ErrorCategory::Database
    };
    let severity = if seq_contains(msg, "disk full"@) || seq_contains(msg, "permission denied"@) {
        ErrorSeverity::Critical
    } else if seq_contains(msg, "file not found"@) {
        ErrorSeverity::Medium
    } else {
        ErrorSeverity::High
    };
    (category, severity)
}

/// `r` is the report for a failed operation of the layer `layer`, whose
/// classification is `class` and whose answer begins with `prefix`.
pub open spec fn report_for(
    r: ErrorReport,
    msg: Seq<char>,
    operation: Seq<char>,
    layer: Seq<char>,
    class: (ErrorCategory, ErrorSeverity),
    prefix: Seq<char>,
) -> bool {
    &&& r.category == class.0
    &&& r.severity == class.1
    &&& r.component@ == layer
    &&& r.error_type@ == layer
    &&& r.operation@ == operation
    &&& r.response.status == 500
    &&& r.response.error@ == "Internal server error"@
    &&& r.response.message@ == prefix + msg
}

/// Passes a blockchain result through, or reports its error (see `blockchain_class`).
pub fn handle_blockchain_error<T>(result: Result<T, String>, operation: &str) -> (r: Result<T, ErrorReport>)
    ensures
        match result {
            Ok(v) => r == Ok::<T, ErrorReport>(v),
            Err(e) => r is Err && report_for(r->Err_0, e@, operation@, "blockchain"@,
                blockchain_class(e@), "Blockchain operation failed: "@),
        },
{
    match result {
        Ok(v) => Ok(v),
        Err(e) => {
            let m = e.as_str();
            let category = if contains(m, "network") || contains(m, "connection") {
                ErrorCategory::Network
            } else {
                ErrorCategory::Blockchain
            };
            let severity = if contains(m, "timeout") || contains(m, "connection refused") {
                ErrorSeverity::High
            } else {
                ErrorSeverity::Medium
            };
            Err(ErrorReport {
                category,
                severity,
                component: owned("blockchain"),
                operation: owned(operation),
                error_type: owned("blockchain"),
                response: ErrorResponseBuilder::internal_server_error(concat2("Blockchain operation failed: ", m).as_str()),
            })
        },
    }
}

/// Passes a BLE result through, or reports its error (see `ble_class`).
pub fn handle_ble_error<T>(result: Result<T, String>, operation: &str) -> (r: Result<T, ErrorReport>)
    ensures
        match result {
            Ok(v) => r == Ok::<T, ErrorReport>(v),
            Err(e) => r is Err && report_for(r->Err_0, e@, operation@, "ble"@, ble_class(e@), "BLE operation failed: "@),
        },
{
    match result {
        Ok(v) => Ok(v),
        Err(e) => {
            let m = e.as_str();
            let category = if contains(m, "connection") || contains(m, "scan") {
                ErrorCategory::Network
            } else {
                ErrorCategory::System
            };
            let severity = if contains(m, "hardware") || contains(m, "permission") {
                ErrorSeverity::High
            } else {
                ErrorSeverity::Medium
            };
            Err(ErrorReport {
                category,
                severity,
                component: owned("ble"),
                operation: owned(operation),
                error_type: owned("ble"),
                response: ErrorResponseBuilder::internal_server_error(concat2("BLE operation failed: ", m).as_str()),
            })
        },
    }
}

/// Passes a storage result through, or reports its error (see `storage_class`).
pub fn handle_storage_error<T>(result: Result<T, String>, operation: &str) -> (r: Result<T, ErrorReport>)
    ensures
        match result {
            Ok(v) => r == Ok::<T, ErrorReport>(v),
            Err(e) => r is Err && report_for(r->Err_0, e@, operation@, "storage"@, storage_class(e@),
                "Storage operation failed: "@),
        },
{
    match result {
        Ok(v) => Ok(v),
        Err(e) => {
            let m = e.as_str();
            let category = if contains(m, "disk") || contains(m, "space") {
                ErrorCategory::System
            } else {
                ErrorCategory::Database
            };
            let severity = if contains(m, "disk full") || contains(m, "permission denied") {
                ErrorSeverity::Critical
            } else if contains(m, "file not found") {
                ErrorSeverity::Medium
            } else {
                ErrorSeverity::High
            };
            Err(ErrorReport {
                category,
                severity,
                component: owned("storage"),
                operation: owned(operation),
                error_type: owned("storage"),
                response: ErrorResponseBuilder::internal_server_error(concat2("Storage operation failed: ", m).as_str()),
            })
        },
    }
}

/// The answer to a validation error.
pub fn handle_validation_error(message: &str) -> (r: HttpErrorInfo)
    ensures
        r.status == 400 && r.error@ == "Bad request"@ && r.message@ == message@,
{
    ErrorResponseBuilder::bad_request(message)
}

/// The answer to an authentication error.
pub fn handle_auth_error(message: &str) -> (r: HttpErrorInfo)
    ensures
        r.status == 401 && r.error@ == "Unauthorized"@ && r.message@ == message@,
{
    ErrorResponseBuilder::unauthorized(message)
}

/// The answer to a refused rate-limited request.
pub fn handle_rate_limit_error() -> (r: HttpErrorInfo)
    ensures
        r.status == 429 && r.error@ == "Too many requests"@ && r.message@ == "Rate limit exceeded"@,
{
    ErrorResponseBuilder::too_many_requests("Rate limit exceeded")
}

} // verus!
