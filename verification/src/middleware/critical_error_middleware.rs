//! Critical-path tracking for requests: which critical path a request
//! belongs to, and the answers to critical errors by severity.
use vstd::prelude::*;
use crate::error::HttpErrorInfo;
use crate::text::{concat2, contains, owned, seq_contains, seq_starts_with, starts_with, str_eq};

verus! {

/// The critical paths of the relay.
#[derive(Debug, Clone, Copy, PartialEq, Eq, Structural)]
pub enum CriticalPath {
    TransactionProcessing,
    BLEDeviceConnection,
    Authentication,
    DatabaseOperation,
    ConfigurationReload,
    HealthCheck,
    MonitoringMetrics,
    SecurityValidation,
    BlockchainTransaction,
}

/// How serious a critical error is.
#[derive(Debug, Clone, Copy, PartialEq, Eq, Structural)]
pub enum CriticalErrorSeverity {
    Fatal,
    Critical,
    High,
    Medium,
    Low,
}

/// A critical error as the answers use it.
pub struct CriticalError {
    pub id: String,
    pub path: CriticalPath,
    pub error_message: String,
    pub severity: CriticalErrorSeverity,
}

/// The critical path of a request, by the first rule that applies; a POST
/// whose path mentions `tx` or `transaction` is a blockchain transaction,
/// and anything else counts as transaction processing.
pub open spec fn critical_path_of(path: Seq<char>, method: Seq<char>) -> CriticalPath {
    if seq_starts_with(path, "/transaction"@) || seq_starts_with(path, "/send"@) {
        CriticalPath::TransactionProcessing
    } else if seq_starts_with(path, "/ble"@) {
        CriticalPath::BLEDeviceConnection
    } else if seq_starts_with(path, "/auth"@) {
        CriticalPath::Authentication
    } else if seq_starts_with(path, "/backup"@) || seq_starts_with(path, "/database"@) {
        CriticalPath::DatabaseOperation
    } else if seq_starts_with(path, "/config"@) {
        CriticalPath::ConfigurationReload
    } else if seq_starts_with(path, "/health"@) {
        CriticalPath::HealthCheck
    } else if seq_starts_with(path, "/metrics"@) {
        CriticalPath::MonitoringMetrics
    } else if seq_starts_with(path, "/security"@) {
        CriticalPath::SecurityValidation
    } else if method == "POST"@ && (seq_contains(path, "tx"@) || seq_contains(path, "transaction"@)) {
        CriticalPath::BlockchainTransaction
    } else {
        CriticalPath::TransactionProcessing
    }
}

/// The critical path of a request (see `critical_path_of`).
pub fn determine_critical_path(path: &str, method: &str) -> (p: CriticalPath)
    ensures
        p == critical_path_of(path@, method@),
{
    if starts_with(path, "/transaction") || starts_with(path, "/send") {
        CriticalPath::TransactionProcessing
    } else if starts_with(path, "/ble") {
        CriticalPath::BLEDeviceConnection
    } else if starts_with(path, "/auth") {
        CriticalPath::Authentication
    } else if starts_with(path, "/backup") || starts_with(path, "/database") {
        CriticalPath::DatabaseOperation
    } else if starts_with(path, "/config") {
        CriticalPath::ConfigurationReload
    } else if starts_with(path, "/health") {
        CriticalPath::HealthCheck
    } else if starts_with(path, "/metrics") {
        CriticalPath::MonitoringMetrics
    } else if starts_with(path, "/security") {
        CriticalPath::SecurityValidation
    } else if str_eq(method, "POST") && (contains(path, "tx") || contains(path, "transaction")) {
        CriticalPath::BlockchainTransaction
    } else {
        CriticalPath::TransactionProcessing
    }
}

/// The name of a critical path, as it is shown in answers.
pub open spec fn critical_path_label(p: CriticalPath) -> Seq<char> {
    match p {
        CriticalPath::TransactionProcessing => "TransactionProcessing"@,
        CriticalPath::BLEDeviceConnection => "BLEDeviceConnection"@,
        CriticalPath::Authentication => "Authentication"@,
        CriticalPath::DatabaseOperation => "DatabaseOperation"@,
        CriticalPath::ConfigurationReload => "ConfigurationReload"@,
        CriticalPath::HealthCheck => "HealthCheck"@,
        CriticalPath::MonitoringMetrics => "MonitoringMetrics"@,
        CriticalPath::SecurityValidation => "SecurityValidation"@,
        CriticalPath::BlockchainTransaction => "BlockchainTransaction"@,
    }
}

/// The name of a severity, as it is shown in answers.
pub open spec fn severity_label(s: CriticalErrorSeverity) -> Seq<char> {
    match s {
        CriticalErrorSeverity::Fatal => "Fatal"@,
        CriticalErrorSeverity::Critical => "Critical"@,
        CriticalErrorSeverity::High => "High"@,
        CriticalErrorSeverity::Medium => "Medium"@,
        CriticalErrorSeverity::Low => "Low"@,
    }
}

/// The name of a critical path.
pub fn critical_path_name(p: CriticalPath) -> (s: String)
    ensures
        s@ == critical_path_label(p),
{
    match p {
        CriticalPath::TransactionProcessing => owned("TransactionProcessing"),
        CriticalPath::BLEDeviceConnection => owned("BLEDeviceConnection"),
        CriticalPath::Authentication => owned("Authentication"),
        CriticalPath::DatabaseOperation => owned("DatabaseOperation"),
        CriticalPath::ConfigurationReload => owned("ConfigurationReload"),
        CriticalPath::HealthCheck => owned("HealthCheck"),
        CriticalPath::MonitoringMetrics => owned("MonitoringMetrics"),
        CriticalPath::SecurityValidation => owned("SecurityValidation"),
        CriticalPath::BlockchainTransaction => owned("BlockchainTransaction"),
    }
}

/// The name of a severity.
pub fn severity_name(s: CriticalErrorSeverity) -> (r: String)
    ensures
        r@ == severity_label(s),
{
    match s {
        CriticalErrorSeverity::Fatal => owned("Fatal"),
        CriticalErrorSeverity::Critical => owned("Critical"),
        CriticalErrorSeverity::High => owned("High"),
        CriticalErrorSeverity::Medium => owned("Medium"),
        CriticalErrorSeverity::Low => owned("Low"),
    }
}

/// The answer owed to a critical error of the given severity: 500 for
/// fatal, critical and high, 400 for medium and low.
pub open spec fn critical_answer(s: CriticalErrorSeverity) -> (u16, Seq<char>, Seq<char>) {
    match s {
        CriticalErrorSeverity::Fatal => (500, "Fatal system error"@, "A fatal error occurred in the system"@),
        CriticalErrorSeverity::Critical => (500, "Critical system error"@, "A critical error occurred"@),
        CriticalErrorSeverity::High => (500, "High severity error"@, "A high severity error occurred"@),
        CriticalErrorSeverity::Medium => (400, "Medium severity error"@, "A medium severity error occurred"@),
        CriticalErrorSeverity::Low => (400, "Low severity error"@, "A low severity error occurred"@),
    }
}

/// Critical-path tracking as it is installed.
pub struct CriticalErrorMiddleware;

impl CriticalErrorMiddleware {
    pub fn new() -> (m: Self) {
        CriticalErrorMiddleware
    }

    /// The service that tracks requests on critical paths.
    pub fn into_service(self) -> (s: CriticalErrorMiddlewareService) {
        CriticalErrorMiddlewareService
    }
}

/// Critical-path tracking as it answers requests.
pub struct CriticalErrorMiddlewareService;

impl CriticalErrorMiddlewareService {
    /// The answer to a critical error raised while serving a request (see
    /// `critical_answer`); the caller adds the error's id, the path and the method.
    pub fn error_response(error: &CriticalError) -> (r: HttpErrorInfo)
        ensures
            (r.status, r.error@, r.message@) == critical_answer(error.severity),
    {
        match error.severity {
            CriticalErrorSeverity::Fatal => HttpErrorInfo { status: 500, error: owned("Fatal system error"), message: owned("A fatal error occurred in the system") },
            CriticalErrorSeverity::Critical => HttpErrorInfo { status: 500, error: owned("Critical system error"), message: owned("A critical error occurred") },
            CriticalErrorSeverity::High => HttpErrorInfo { status: 500, error: owned("High severity error"), message: owned("A high severity error occurred") },
            CriticalErrorSeverity::Medium => HttpErrorInfo { status: 400, error: owned("Medium severity error"), message: owned("A medium severity error occurred") },
            CriticalErrorSeverity::Low => HttpErrorInfo { status: 400, error: owned("Low severity error"), message: owned("A low severity error occurred") },
        }
    }
}

/// The full answer to a critical error raised while serving `method path`.
pub struct CriticalErrorAnswer {
    pub status: u16,
    pub error: String,
    pub message: String,
    pub request_id: String,
    pub path: String,
    pub method: String,
}

impl CriticalErrorAnswer {
    /// The answer owed to `e` in `method path`: the status and texts of
    /// `critical_answer`, the error's id as the request id, the path and the method.
    pub open spec fn answers(&self, e: CriticalError, path: Seq<char>, method: Seq<char>) -> bool {
        &&& (self.status, self.error@, self.message@) == critical_answer(e.severity)
        &&& self.request_id@ == e.id@
        &&& self.path@ == path
        &&& self.method@ == method
    }
}

/// The answer to `error` raised while serving `method path` (see `answers`).
pub fn critical_error_answer(error: &CriticalError, path: &str, method: &str) -> (r: CriticalErrorAnswer)
    ensures
        r.answers(*error, path@, method@),
{
    let info = CriticalErrorMiddlewareService::error_response(error);
    CriticalErrorAnswer {
        status: info.status,
        error: info.error,
        message: info.message,
        request_id: owned(error.id.as_str()),
        path: owned(path),
        method: owned(method),
    }
}

/// The answer to an unhandled critical error: its own text in development,
/// a fixed text otherwise.
pub fn global_critical_error_handler(error: &CriticalError, is_development: bool) -> (r: HttpErrorInfo)
    ensures
        r.status == 500,
        r.error@ == "Critical system error"@,
        r.message@ == if is_development { error.error_message@ } else { "A critical error occurred in the system"@ },
{
    let message = if is_development { owned(error.error_message.as_str()) } else { owned("A critical error occurred in the system") };
    HttpErrorInfo { status: 500, error: owned("Critical system error"), message }
}

/// The bodies of the critical error answers.
pub struct CriticalErrorResponseBuilder;

impl CriticalErrorResponseBuilder {
    pub fn critical_error(message: &str) -> (r: HttpErrorInfo)
        ensures
            r.status == 500 && r.error@ == "Critical system error"@ && r.message@ == message@,
    {
        HttpErrorInfo { status: 500, error: owned("Critical system error"), message: owned(message) }
    }

    pub fn fatal_error(message: &str) -> (r: HttpErrorInfo)
        ensures
            r.status == 500 && r.error@ == "Fatal system error"@ && r.message@ == message@,
    {
        HttpErrorInfo { status: 500, error: owned("Fatal system error"), message: owned(message) }
    }

    /// The 503 answer for an open breaker; the caller adds the path and `retry_after`.
    pub fn circuit_breaker_open() -> (r: HttpErrorInfo)
        ensures
            r.status == 503 && r.error@ == "Service temporarily unavailable"@ && r.message@ == "Circuit breaker is open"@,
    {
        HttpErrorInfo { status: 503, error: owned("Service temporarily unavailable"), message: owned("Circuit breaker is open") }
    }

    pub fn timeout_error(operation: &str) -> (r: HttpErrorInfo)
        ensures
            r.status == 408 && r.error@ == "Operation timeout"@ && r.message@ == operation@ + " operation timed out"@,
    {
        HttpErrorInfo { status: 408, error: owned("Operation timeout"), message: concat2(operation, " operation timed out") }
    }
}

} // verus!
