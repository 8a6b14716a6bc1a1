//! The relay's error types: what each one displays, and the HTTP status and
//! error kind that answer it.
use vstd::prelude::*;
use crate::text::{decimal, owned, concat2, concat3, u64_to_string};

verus! {

/// The parts of an HTTP error answer that depend on the error: the status
/// code, the error kind and the message. The caller adds the timestamp.
#[derive(Debug, Clone)]
pub struct HttpErrorInfo {
    pub status: u16,
    pub error: String,
    pub message: String,
}

/// The relay's top-level error.
#[derive(Debug, Clone)]
pub enum RelayError {
    Blockchain(BlockchainError),
    BLE(BLEError),
    Validation(ValidationError),
    Storage(StorageError),
    API(APIError),
    Config(ConfigError),
    Security(SecurityError),
    Compression(CompressionError),
    Auth(AuthError),
    Monitoring(MonitoringError),
    Recovery(RecoveryError),
    CircuitBreaker(CircuitBreakerError),
    Generic(String),
}

impl RelayError {
    /// The text that this error displays.
    pub open spec fn spec_message(&self) -> Seq<char> {
        match self {
            RelayError::Blockchain(e) => "Blockchain error: "@ + e.spec_message(),
            RelayError::BLE(e) => "BLE error: "@ + e.spec_message(),
            RelayError::Validation(e) => "Validation error: "@ + e.spec_message(),
            RelayError::Storage(e) => "Storage error: "@ + e.spec_message(),
            RelayError::API(e) => "API error: "@ + e.spec_message(),
            RelayError::Config(e) => "Configuration error: "@ + e.spec_message(),
            RelayError::Security(e) => "Security error: "@ + e.spec_message(),
            RelayError::Compression(e) => "Compression error: "@ + e.spec_message(),
            RelayError::Auth(e) => "Authentication error: "@ + e.spec_message(),
            RelayError::Monitoring(e) => "Monitoring error: "@ + e.spec_message(),
            RelayError::Recovery(e) => "Recovery error: "@ + e.spec_message(),
            RelayError::CircuitBreaker(e) => "Circuit breaker error: "@ + e.spec_message(),
            RelayError::Generic(m) => "Error: "@ + m@,
        }
    }

    /// The HTTP answer to this error: the inner error's answer, or a 500
    /// "Internal server error" carrying the bare message for a generic error.
    pub open spec fn spec_http(&self) -> (u16, Seq<char>, Seq<char>) {
        match self {
            RelayError::Blockchain(e) => (e.spec_status(), e.spec_error_type(), e.spec_message()),
            RelayError::BLE(e) => (e.spec_status(), e.spec_error_type(), e.spec_message()),
            RelayError::Validation(e) => (e.spec_status(), e.spec_error_type(), e.spec_message()),
            RelayError::Storage(e) => (e.spec_status(), e.spec_error_type(), e.spec_message()),
            RelayError::API(e) => (e.spec_status(), e.spec_error_type(), e.spec_message()),
            RelayError::Config(e) => (e.spec_status(), e.spec_error_type(), e.spec_message()),
            RelayError::Security(e) => (e.spec_status(), e.spec_error_type(), e.spec_message()),
            RelayError::Compression(e) => (e.spec_status(), e.spec_error_type(), e.spec_message()),
            RelayError::Auth(e) => (e.spec_status(), e.spec_error_type(), e.spec_message()),
            RelayError::Monitoring(e) => (e.spec_status(), e.spec_error_type(), e.spec_message()),
            RelayError::Recovery(e) => (e.spec_status(), e.spec_error_type(), e.spec_message()),
            RelayError::CircuitBreaker(e) => (e.spec_status(), e.spec_error_type(), e.spec_message()),
            RelayError::Generic(m) => (500, "Internal server error"@, m@),
        }
    }

    /// The text that this error displays.
    pub fn message(&self) -> (r: String)
        ensures
            r@ == self.spec_message(),
    {
        match self {
            RelayError::Blockchain(e) => concat2("Blockchain error: ", e.message().as_str()),
            RelayError::BLE(e) => concat2("BLE error: ", e.message().as_str()),
            RelayError::Validation(e) => concat2("Validation error: ", e.message().as_str()),
            RelayError::Storage(e) => concat2("Storage error: ", e.message().as_str()),
            RelayError::API(e) => concat2("API error: ", e.message().as_str()),
            RelayError::Config(e) => concat2("Configuration error: ", e.message().as_str()),
            RelayError::Security(e) => concat2("Security error: ", e.message().as_str()),
            RelayError::Compression(e) => concat2("Compression error: ", e.message().as_str()),
            RelayError::Auth(e) => concat2("Authentication error: ", e.message().as_str()),
            RelayError::Monitoring(e) => concat2("Monitoring error: ", e.message().as_str()),
            RelayError::Recovery(e) => concat2("Recovery error: ", e.message().as_str()),
            RelayError::CircuitBreaker(e) => concat2("Circuit breaker error: ", e.message().as_str()),
            RelayError::Generic(m) => concat2("Error: ", m.as_str()),
        }
    }

    /// The status, kind and message of the HTTP answer to this error.
    pub fn to_http_response(&self) -> (r: HttpErrorInfo)
        ensures
            (r.status, r.error@, r.message@) == self.spec_http(),
    {
        match self {
            RelayError::Blockchain(e) => e.to_http_response(),
            RelayError::BLE(e) => e.to_http_response(),
            RelayError::Validation(e) => e.to_http_response(),
            RelayError::Storage(e) => e.to_http_response(),
            RelayError::API(e) => e.to_http_response(),
            RelayError::Config(e) => e.to_http_response(),
            RelayError::Security(e) => e.to_http_response(),
            RelayError::Compression(e) => e.to_http_response(),
            RelayError::Auth(e) => e.to_http_response(),
            RelayError::Monitoring(e) => e.to_http_response(),
            RelayError::Recovery(e) => e.to_http_response(),
            RelayError::CircuitBreaker(e) => e.to_http_response(),
            RelayError::Generic(m) => HttpErrorInfo {
                status: 500,
                error: owned("Internal server error"),
                message: owned(m.as_str()),
            },
        }
    }

    /// An error is worth retrying when it is transient: network, RPC and
    /// explicitly retryable blockchain errors; BLE connection, scan, hardware
    /// and timeout errors; storage I/O errors; and unavailable or timed-out
    /// upstream services.
    pub open spec fn spec_retryable(&self) -> bool {
        match self {
            RelayError::Blockchain(BlockchainError::NetworkError(_)) => true,
            RelayError::Blockchain(BlockchainError::RPCError(_)) => true,
            RelayError::Blockchain(BlockchainError::RetryableError(_)) => true,
            RelayError::BLE(BLEError::ConnectionFailed(_)) => true,
            RelayError::BLE(BLEError::ScanFailed(_)) => true,
            RelayError::BLE(BLEError::HardwareError(_)) => true,
            RelayError::BLE(BLEError::Timeout(_)) => true,
            RelayError::Storage(StorageError::IO(_)) => true,
            RelayError::API(APIError::ServiceUnavailable(_)) => true,
            RelayError::API(APIError::GatewayTimeout(_)) => true,
            _ => false,
        }
    }

    /// Whether a retry loop should try again after this error.
    pub fn is_retryable_error(&self) -> (r: bool)
        ensures
            r == self.spec_retryable(),
    {
        match self {
            RelayError::Blockchain(BlockchainError::NetworkError(_)) => true,
            RelayError::Blockchain(BlockchainError::RPCError(_)) => true,
            RelayError::Blockchain(BlockchainError::RetryableError(_)) => true,
            RelayError::BLE(BLEError::ConnectionFailed(_)) => true,
            RelayError::BLE(BLEError::ScanFailed(_)) => true,
            RelayError::BLE(BLEError::HardwareError(_)) => true,
            RelayError::BLE(BLEError::Timeout(_)) => true,
            RelayError::Storage(StorageError::IO(_)) => true,
            RelayError::API(APIError::ServiceUnavailable(_)) => true,
            RelayError::API(APIError::GatewayTimeout(_)) => true,
            _ => false,
        }
    }
}

impl BlockchainError {
    /// Network, RPC and explicitly retryable errors are worth retrying.
    pub fn is_retryable(&self) -> (r: bool)
        ensures
            r == (self is NetworkError || self is RPCError || self is RetryableError),
    {
        match self {
            BlockchainError::NetworkError(_) => true,
            BlockchainError::RPCError(_) => true,
            BlockchainError::RetryableError(_) => true,
            _ => false,
        }
    }
}

/// `Err` with the message `prefix` followed by `detail`.
fn prefixed_err<T>(prefix: &str, detail: String) -> (r: Result<T, String>)
    ensures
        r matches Err(m) && m@ == prefix@ + detail@,
{
    Err(concat2(prefix, detail.as_str()))
}

/// Fails with "Blockchain error: " and the error's text.
pub fn blockchain_error<T>(error: BlockchainError) -> (r: Result<T, String>)
    ensures
        r matches Err(m) && m@ == "Blockchain error: "@ + error.spec_message(),
{
    prefixed_err("Blockchain error: ", error.message())
}

/// Fails with "BLE error: " and the error's text.
pub fn ble_error<T>(error: BLEError) -> (r: Result<T, String>)
    ensures
        r matches Err(m) && m@ == "BLE error: "@ + error.spec_message(),
{
    prefixed_err("BLE error: ", error.message())
}

/// Fails with "Validation error: " and the error's text.
pub fn validation_error<T>(error: ValidationError) -> (r: Result<T, String>)
    ensures
        r matches Err(m) && m@ == "Validation error: "@ + error.spec_message(),
{
    prefixed_err("Validation error: ", error.message())
}

/// Fails with "Storage error: " and the error's text.
pub fn storage_error<T>(error: StorageError) -> (r: Result<T, String>)
    ensures
        r matches Err(m) && m@ == "Storage error: "@ + error.spec_message(),
{
    prefixed_err("Storage error: ", error.message())
}

/// Fails with "API error: " and the error's text.
pub fn api_error<T>(error: APIError) -> (r: Result<T, String>)
    ensures
        r matches Err(m) && m@ == "API error: "@ + error.spec_message(),
{
    prefixed_err("API error: ", error.message())
}

/// Fails with "Configuration error: " and the error's text.
pub fn config_error<T>(error: ConfigError) -> (r: Result<T, String>)
    ensures
        r matches Err(m) && m@ == "Configuration error: "@ + error.spec_message(),
{
    prefixed_err("Configuration error: ", error.message())
}

/// Fails with "Security error: " and the error's text.
pub fn security_error<T>(error: SecurityError) -> (r: Result<T, String>)
    ensures
        r matches Err(m) && m@ == "Security error: "@ + error.spec_message(),
{
    prefixed_err("Security error: ", error.message())
}

/// Fails with "Compression error: " and the error's text.
pub fn compression_error<T>(error: CompressionError) -> (r: Result<T, String>)
    ensures
        r matches Err(m) && m@ == "Compression error: "@ + error.spec_message(),
{
    prefixed_err("Compression error: ", error.message())
}

/// Fails with "Authentication error: " and the error's text.
pub fn auth_error<T>(error: AuthError) -> (r: Result<T, String>)
    ensures
        r matches Err(m) && m@ == "Authentication error: "@ + error.spec_message(),
{
    prefixed_err("Authentication error: ", error.message())
}

/// Fails with "Monitoring error: " and the error's text.
pub fn monitoring_error<T>(error: MonitoringError) -> (r: Result<T, String>)
    ensures
        r matches Err(m) && m@ == "Monitoring error: "@ + error.spec_message(),
{
    prefixed_err("Monitoring error: ", error.message())
}

/// Fails with "Recovery error: " and the error's text.
pub fn recovery_error<T>(error: RecoveryError) -> (r: Result<T, String>)
    ensures
        r matches Err(m) && m@ == "Recovery error: "@ + error.spec_message(),
{
    prefixed_err("Recovery error: ", error.message())
}

/// Fails with "Circuit breaker error: " and the error's text.
pub fn circuit_breaker_error<T>(error: CircuitBreakerError) -> (r: Result<T, String>)
    ensures
        r matches Err(m) && m@ == "Circuit breaker error: "@ + error.spec_message(),
{
    prefixed_err("Circuit breaker error: ", error.message())
}

/// Errors raised while recovering from a failure.
#[derive(Debug, Clone)]
pub enum RecoveryError {
    RetryExhausted(String),
    FallbackFailed(String),
    CircuitBreakerOpen(String),
    RecoveryTimeout(String),
    PartialRecovery(String),
    DegradedMode(String),
}

impl RecoveryError {
    /// The text that this error displays.
    pub open spec fn spec_message(&self) -> Seq<char> {
        match self {
            RecoveryError::RetryExhausted(x) => "Retry exhausted: "@ + x@,
            RecoveryError::FallbackFailed(x) => "Fallback failed: "@ + x@,
            RecoveryError::CircuitBreakerOpen(x) => "Circuit breaker open: "@ + x@,
            RecoveryError::RecoveryTimeout(x) => "Recovery timeout: "@ + x@,
            RecoveryError::PartialRecovery(x) => "Partial recovery: "@ + x@,
            RecoveryError::DegradedMode(x) => "Degraded mode: "@ + x@,
        }
    }

    /// The HTTP status code that answers this error.
    pub open spec fn spec_status(&self) -> u16 {
        match self {
            RecoveryError::RetryExhausted(_) => 503,
            RecoveryError::FallbackFailed(_) => 503,
            RecoveryError::CircuitBreakerOpen(_) => 503,
            RecoveryError::RecoveryTimeout(_) => 408,
            RecoveryError::PartialRecovery(_) => 206,
            RecoveryError::DegradedMode(_) => 503,
        }
    }

    /// The error kind reported in the HTTP answer.
    pub open spec fn spec_error_type(&self) -> Seq<char> {
        match self {
            RecoveryError::RetryExhausted(_) => "RETRY_EXHAUSTED"@,
            RecoveryError::FallbackFailed(_) => "FALLBACK_FAILED"@,
            RecoveryError::CircuitBreakerOpen(_) => "CIRCUIT_BREAKER_OPEN"@,
            RecoveryError::RecoveryTimeout(_) => "RECOVERY_TIMEOUT"@,
            RecoveryError::PartialRecovery(_) => "PARTIAL_RECOVERY"@,
            RecoveryError::DegradedMode(_) => "DEGRADED_MODE"@,
        }
    }

    /// The text that this error displays.
    pub fn message(&self) -> (r: String)
        ensures
            r@ == self.spec_message(),
    {
        match self {
            RecoveryError::RetryExhausted(x) => concat2("Retry exhausted: ", x.as_str()),
            RecoveryError::FallbackFailed(x) => concat2("Fallback failed: ", x.as_str()),
            RecoveryError::CircuitBreakerOpen(x) => concat2("Circuit breaker open: ", x.as_str()),
            RecoveryError::RecoveryTimeout(x) => concat2("Recovery timeout: ", x.as_str()),
            RecoveryError::PartialRecovery(x) => concat2("Partial recovery: ", x.as_str()),
            RecoveryError::DegradedMode(x) => concat2("Degraded mode: ", x.as_str()),
        }
    }

    /// The status, kind and message of the HTTP answer to this error.
    pub fn to_http_response(&self) -> (r: HttpErrorInfo)
        ensures
            r.status == self.spec_status(),
            r.error@ == self.spec_error_type(),
            r.message@ == self.spec_message(),
    {
        let (status, error): (u16, &str) = match self {
            RecoveryError::RetryExhausted(_) => (503, "RETRY_EXHAUSTED"),
            RecoveryError::FallbackFailed(_) => (503, "FALLBACK_FAILED"),
            RecoveryError::CircuitBreakerOpen(_) => (503, "CIRCUIT_BREAKER_OPEN"),
            RecoveryError::RecoveryTimeout(_) => (408, "RECOVERY_TIMEOUT"),
            RecoveryError::PartialRecovery(_) => (206, "PARTIAL_RECOVERY"),
            RecoveryError::DegradedMode(_) => (503, "DEGRADED_MODE"),
        };
        HttpErrorInfo { status, error: owned(error), message: self.message() }
    }
}

/// Errors raised by a circuit breaker.
#[derive(Debug, Clone)]
pub enum CircuitBreakerError {
    Open(String),
    HalfOpen(String),
    ThresholdExceeded(String),
    Timeout(String),
}

impl CircuitBreakerError {
    /// The text that this error displays.
    pub open spec fn spec_message(&self) -> Seq<char> {
        match self {
            CircuitBreakerError::Open(x) => "Circuit breaker open: "@ + x@,
            CircuitBreakerError::HalfOpen(x) => "Circuit breaker half-open: "@ + x@,
            CircuitBreakerError::ThresholdExceeded(x) => "Threshold exceeded: "@ + x@,
            CircuitBreakerError::Timeout(x) => "Circuit breaker timeout: "@ + x@,
        }
    }

    /// The HTTP status code that answers this error.
    pub open spec fn spec_status(&self) -> u16 {
        match self {
            CircuitBreakerError::Open(_) => 503,
            CircuitBreakerError::HalfOpen(_) => 503,
            CircuitBreakerError::ThresholdExceeded(_) => 503,
            CircuitBreakerError::Timeout(_) => 408,
        }
    }

    /// The error kind reported in the HTTP answer.
    pub open spec fn spec_error_type(&self) -> Seq<char> {
        match self {
            CircuitBreakerError::Open(_) => "CIRCUIT_BREAKER_OPEN"@,
            CircuitBreakerError::HalfOpen(_) => "CIRCUIT_BREAKER_HALF_OPEN"@,
            CircuitBreakerError::ThresholdExceeded(_) => "THRESHOLD_EXCEEDED"@,
            CircuitBreakerError::Timeout(_) => "CIRCUIT_BREAKER_TIMEOUT"@,
        }
    }

    /// The text that this error displays.
    pub fn message(&self) -> (r: String)
        ensures
            r@ == self.spec_message(),
    {
        match self {
            CircuitBreakerError::Open(x) => concat2("Circuit breaker open: ", x.as_str()),
            CircuitBreakerError::HalfOpen(x) => concat2("Circuit breaker half-open: ", x.as_str()),
            CircuitBreakerError::ThresholdExceeded(x) => concat2("Threshold exceeded: ", x.as_str()),
            CircuitBreakerError::Timeout(x) => concat2("Circuit breaker timeout: ", x.as_str()),
        }
    }

    /// The status, kind and message of the HTTP answer to this error.
    pub fn to_http_response(&self) -> (r: HttpErrorInfo)
        ensures
            r.status == self.spec_status(),
            r.error@ == self.spec_error_type(),
            r.message@ == self.spec_message(),
    {
        let (status, error): (u16, &str) = match self {
            CircuitBreakerError::Open(_) => (503, "CIRCUIT_BREAKER_OPEN"),
            CircuitBreakerError::HalfOpen(_) => (503, "CIRCUIT_BREAKER_HALF_OPEN"),
            CircuitBreakerError::ThresholdExceeded(_) => (503, "THRESHOLD_EXCEEDED"),
            CircuitBreakerError::Timeout(_) => (408, "CIRCUIT_BREAKER_TIMEOUT"),
        };
        HttpErrorInfo { status, error: owned(error), message: self.message() }
    }
}

/// Errors from the blockchain side.
#[derive(Debug, Clone)]
pub enum BlockchainError {
    InvalidChainId(u64),
    UnsupportedChain(u64),
    InvalidAddress(String),
    InvalidTransactionHash(String),
    TransactionFailed(String),
    NetworkError(String),
    RPCError(String),
    GasEstimationFailed(String),
    NonceError(String),
    BalanceInsufficient(String),
    ContractError(String),
    ProviderNotFound(u64),
    RetryableError(String),
    NonRetryableError(String),
}

impl BlockchainError {
    /// The text that this error displays.
    pub open spec fn spec_message(&self) -> Seq<char> {
        match self {
            BlockchainError::InvalidChainId(x) => "Invalid chain ID: "@ + decimal(*x as nat),
            BlockchainError::UnsupportedChain(x) => "Unsupported chain: "@ + decimal(*x as nat),
            BlockchainError::InvalidAddress(x) => "Invalid address: "@ + x@,
            BlockchainError::InvalidTransactionHash(x) => "Invalid transaction hash: "@ + x@,
            BlockchainError::TransactionFailed(x) => "Transaction failed: "@ + x@,
            BlockchainError::NetworkError(x) => "Network error: "@ + x@,
            BlockchainError::RPCError(x) => "RPC error: "@ + x@,
            BlockchainError::GasEstimationFailed(x) => "Gas estimation failed: "@ + x@,
            BlockchainError::NonceError(x) => "Nonce error: "@ + x@,
            BlockchainError::BalanceInsufficient(x) => "Insufficient balance: "@ + x@,
            BlockchainError::ContractError(x) => "Contract error: "@ + x@,
            BlockchainError::ProviderNotFound(x) => "Provider not found for chain: "@ + decimal(*x as nat),
            BlockchainError::RetryableError(x) => "Retryable error: "@ + x@,
            BlockchainError::NonRetryableError(x) => "Non-retryable error: "@ + x@,
        }
    }

    /// The HTTP status code that answers this error.
    pub open spec fn spec_status(&self) -> u16 {
        match self {
            BlockchainError::InvalidChainId(_) => 400,
            BlockchainError::UnsupportedChain(_) => 400,
            BlockchainError::InvalidAddress(_) => 400,
            BlockchainError::InvalidTransactionHash(_) => 400,
            BlockchainError::TransactionFailed(_) => 503,
            BlockchainError::NetworkError(_) => 503,
            BlockchainError::RPCError(_) => 503,
            BlockchainError::GasEstimationFailed(_) => 500,
            BlockchainError::NonceError(_) => 500,
            BlockchainError::BalanceInsufficient(_) => 400,
            BlockchainError::ContractError(_) => 500,
            BlockchainError::ProviderNotFound(_) => 500,
            BlockchainError::RetryableError(_) => 503,
            BlockchainError::NonRetryableError(_) => 400,
        }
    }

    /// The error kind reported in the HTTP answer.
    pub open spec fn spec_error_type(&self) -> Seq<char> {
        match self {
            BlockchainError::InvalidChainId(_) => "INVALID_CHAIN"@,
            BlockchainError::UnsupportedChain(_) => "INVALID_CHAIN"@,
            BlockchainError::InvalidAddress(_) => "INVALID_INPUT"@,
            BlockchainError::InvalidTransactionHash(_) => "INVALID_INPUT"@,
            BlockchainError::TransactionFailed(_) => "BLOCKCHAIN_ERROR"@,
            BlockchainError::NetworkError(_) => "BLOCKCHAIN_ERROR"@,
            BlockchainError::RPCError(_) => "BLOCKCHAIN_ERROR"@,
            BlockchainError::GasEstimationFailed(_) => "BLOCKCHAIN_ERROR"@,
            BlockchainError::NonceError(_) => "BLOCKCHAIN_ERROR"@,
            BlockchainError::BalanceInsufficient(_) => "INSUFFICIENT_BALANCE"@,
            BlockchainError::ContractError(_) => "BLOCKCHAIN_ERROR"@,
            BlockchainError::ProviderNotFound(_) => "BLOCKCHAIN_ERROR"@,
            BlockchainError::RetryableError(_) => "RETRYABLE_ERROR"@,
            BlockchainError::NonRetryableError(_) => "NON_RETRYABLE_ERROR"@,
        }
    }

    /// The text that this error displays.
    pub fn message(&self) -> (r: String)
        ensures
            r@ == self.spec_message(),
    {
        match self {
            BlockchainError::InvalidChainId(x) => concat2("Invalid chain ID: ", u64_to_string(*x).as_str()),
            BlockchainError::UnsupportedChain(x) => concat2("Unsupported chain: ", u64_to_string(*x).as_str()),
            BlockchainError::InvalidAddress(x) => concat2("Invalid address: ", x.as_str()),
            BlockchainError::InvalidTransactionHash(x) => concat2("Invalid transaction hash: ", x.as_str()),
            BlockchainError::TransactionFailed(x) => concat2("Transaction failed: ", x.as_str()),
            BlockchainError::NetworkError(x) => concat2("Network error: ", x.as_str()),
            BlockchainError::RPCError(x) => concat2("RPC error: ", x.as_str()),
            BlockchainError::GasEstimationFailed(x) => concat2("Gas estimation failed: ", x.as_str()),
            BlockchainError::NonceError(x) => concat2("Nonce error: ", x.as_str()),
            BlockchainError::BalanceInsufficient(x) => concat2("Insufficient balance: ", x.as_str()),
            BlockchainError::ContractError(x) => concat2("Contract error: ", x.as_str()),
            BlockchainError::ProviderNotFound(x) => concat2("Provider not found for chain: ", u64_to_string(*x).as_str()),
            BlockchainError::RetryableError(x) => concat2("Retryable error: ", x.as_str()),
            BlockchainError::NonRetryableError(x) => concat2("Non-retryable error: ", x.as_str()),
        }
    }

    /// The status, kind and message of the HTTP answer to this error.
    pub fn to_http_response(&self) -> (r: HttpErrorInfo)
        ensures
            r.status == self.spec_status(),
            r.error@ == self.spec_error_type(),
            r.message@ == self.spec_message(),
    {
        let (status, error): (u16, &str) = match self {
            BlockchainError::InvalidChainId(_) => (400, "INVALID_CHAIN"),
            BlockchainError::UnsupportedChain(_) => (400, "INVALID_CHAIN"),
            BlockchainError::InvalidAddress(_) => (400, "INVALID_INPUT"),
            BlockchainError::InvalidTransactionHash(_) => (400, "INVALID_INPUT"),
            BlockchainError::TransactionFailed(_) => (503, "BLOCKCHAIN_ERROR"),
            BlockchainError::NetworkError(_) => (503, "BLOCKCHAIN_ERROR"),
            BlockchainError::RPCError(_) => (503, "BLOCKCHAIN_ERROR"),
            BlockchainError::GasEstimationFailed(_) => (500, "BLOCKCHAIN_ERROR"),
            BlockchainError::NonceError(_) => (500, "BLOCKCHAIN_ERROR"),
            BlockchainError::BalanceInsufficient(_) => (400, "INSUFFICIENT_BALANCE"),
            BlockchainError::ContractError(_) => (500, "BLOCKCHAIN_ERROR"),
            BlockchainError::ProviderNotFound(_) => (500, "BLOCKCHAIN_ERROR"),
            BlockchainError::RetryableError(_) => (503, "RETRYABLE_ERROR"),
            BlockchainError::NonRetryableError(_) => (400, "NON_RETRYABLE_ERROR"),
        };
        HttpErrorInfo { status, error: owned(error), message: self.message() }
    }
}

/// Errors from Bluetooth Low Energy handling.
#[derive(Debug, Clone)]
pub enum BLEError {
    DeviceNotFound(String),
    ConnectionFailed(String),
    ScanFailed(String),
    AuthenticationFailed(String),
    DeviceDisconnected(String),
    InvalidDeviceId(String),
    PermissionDenied(String),
    HardwareError(String),
    Timeout(String),
    InvalidData(String),
}

impl BLEError {
    /// The text that this error displays.
    pub open spec fn spec_message(&self) -> Seq<char> {
        match self {
            BLEError::DeviceNotFound(x) => "BLE device not found: "@ + x@,
            BLEError::ConnectionFailed(x) => "BLE connection failed: "@ + x@,
            BLEError::ScanFailed(x) => "BLE scan failed: "@ + x@,
            BLEError::AuthenticationFailed(x) => "BLE authentication failed: "@ + x@,
            BLEError::DeviceDisconnected(x) => "BLE device disconnected: "@ + x@,
            BLEError::InvalidDeviceId(x) => "Invalid BLE device ID: "@ + x@,
            BLEError::PermissionDenied(x) => "BLE permission denied: "@ + x@,
            BLEError::HardwareError(x) => "BLE hardware error: "@ + x@,
            BLEError::Timeout(x) => "BLE timeout: "@ + x@,
            BLEError::InvalidData(x) => "Invalid BLE data: "@ + x@,
        }
    }

    /// The HTTP status code that answers this error.
    pub open spec fn spec_status(&self) -> u16 {
        match self {
            BLEError::DeviceNotFound(_) => 404,
            BLEError::ConnectionFailed(_) => 503,
            BLEError::ScanFailed(_) => 503,
            BLEError::AuthenticationFailed(_) => 401,
            BLEError::DeviceDisconnected(_) => 400,
            BLEError::InvalidDeviceId(_) => 404,
            BLEError::PermissionDenied(_) => 403,
            BLEError::HardwareError(_) => 503,
            BLEError::Timeout(_) => 408,
            BLEError::InvalidData(_) => 400,
        }
    }

    /// The error kind reported in the HTTP answer.
    pub open spec fn spec_error_type(&self) -> Seq<char> {
        match self {
            BLEError::DeviceNotFound(_) => "DEVICE_NOT_FOUND"@,
            BLEError::ConnectionFailed(_) => "BLE_ERROR"@,
            BLEError::ScanFailed(_) => "BLE_ERROR"@,
            BLEError::AuthenticationFailed(_) => "AUTH_FAILED"@,
            BLEError::DeviceDisconnected(_) => "BLE_ERROR"@,
            BLEError::InvalidDeviceId(_) => "DEVICE_NOT_FOUND"@,
            BLEError::PermissionDenied(_) => "PERMISSION_DENIED"@,
            BLEError::HardwareError(_) => "BLE_ERROR"@,
            BLEError::Timeout(_) => "TIMEOUT"@,
            BLEError::InvalidData(_) => "BLE_ERROR"@,
        }
    }

    /// The text that this error displays.
    pub fn message(&self) -> (r: String)
        ensures
            r@ == self.spec_message(),
    {
        match self {
            BLEError::DeviceNotFound(x) => concat2("BLE device not found: ", x.as_str()),
            BLEError::ConnectionFailed(x) => concat2("BLE connection failed: ", x.as_str()),
            BLEError::ScanFailed(x) => concat2("BLE scan failed: ", x.as_str()),
            BLEError::AuthenticationFailed(x) => concat2("BLE authentication failed: ", x.as_str()),
            BLEError::DeviceDisconnected(x) => concat2("BLE device disconnected: ", x.as_str()),
            BLEError::InvalidDeviceId(x) => concat2("Invalid BLE device ID: ", x.as_str()),
            BLEError::PermissionDenied(x) => concat2("BLE permission denied: ", x.as_str()),
            BLEError::HardwareError(x) => concat2("BLE hardware error: ", x.as_str()),
            BLEError::Timeout(x) => concat2("BLE timeout: ", x.as_str()),
            BLEError::InvalidData(x) => concat2("Invalid BLE data: ", x.as_str()),
        }
    }

    /// The status, kind and message of the HTTP answer to this error.
    pub fn to_http_response(&self) -> (r: HttpErrorInfo)
        ensures
            r.status == self.spec_status(),
            r.error@ == self.spec_error_type(),
            r.message@ == self.spec_message(),
    {
        let (status, error): (u16, &str) = match self {
            BLEError::DeviceNotFound(_) => (404, "DEVICE_NOT_FOUND"),
            BLEError::ConnectionFailed(_) => (503, "BLE_ERROR"),
            BLEError::ScanFailed(_) => (503, "BLE_ERROR"),
            BLEError::AuthenticationFailed(_) => (401, "AUTH_FAILED"),
            BLEError::DeviceDisconnected(_) => (400, "BLE_ERROR"),
            BLEError::InvalidDeviceId(_) => (404, "DEVICE_NOT_FOUND"),
            BLEError::PermissionDenied(_) => (403, "PERMISSION_DENIED"),
            BLEError::HardwareError(_) => (503, "BLE_ERROR"),
            BLEError::Timeout(_) => (408, "TIMEOUT"),
            BLEError::InvalidData(_) => (400, "BLE_ERROR"),
        };
        HttpErrorInfo { status, error: owned(error), message: self.message() }
    }
}

/// Errors found while validating input.
#[derive(Debug, Clone)]
pub enum ValidationError {
    InvalidInput(String),
    MissingField(String),
    InvalidFormat(String),
    InvalidHex(String),
    InvalidJson(String),
    InvalidSignature(String),
    InvalidTransaction(String),
    InvalidDeviceId(String),
    InvalidChainId(String),
    InvalidAddress(String),
    InvalidAmount(String),
    InvalidNonce(String),
    InvalidGasLimit(String),
    InvalidGasPrice(String),
    PayloadTooLarge(usize),
    PayloadTooSmall(usize),
    InvalidContentType(String),
    XSSAttempt(String),
    SQLInjectionAttempt(String),
}

impl ValidationError {
    /// The text that this error displays.
    pub open spec fn spec_message(&self) -> Seq<char> {
        match self {
            ValidationError::InvalidInput(x) => "Invalid input: "@ + x@,
            ValidationError::MissingField(x) => "Missing required field: "@ + x@,
            ValidationError::InvalidFormat(x) => "Invalid format: "@ + x@,
            ValidationError::InvalidHex(x) => "Invalid hex: "@ + x@,
            ValidationError::InvalidJson(x) => "Invalid JSON: "@ + x@,
            ValidationError::InvalidSignature(x) => "Invalid signature: "@ + x@,
            ValidationError::InvalidTransaction(x) => "Invalid transaction: "@ + x@,
            ValidationError::InvalidDeviceId(x) => "Invalid device ID: "@ + x@,
            ValidationError::InvalidChainId(x) => "Invalid chain ID: "@ + x@,
            ValidationError::InvalidAddress(x) => "Invalid address: "@ + x@,
            ValidationError::InvalidAmount(x) => "Invalid amount: "@ + x@,
            ValidationError::InvalidNonce(x) => "Invalid nonce: "@ + x@,
            ValidationError::InvalidGasLimit(x) => "Invalid gas limit: "@ + x@,
            ValidationError::InvalidGasPrice(x) => "Invalid gas price: "@ + x@,
            ValidationError::PayloadTooLarge(x) => "Payload too large: "@ + decimal(*x as nat) + " bytes"@,
            ValidationError::PayloadTooSmall(x) => "Payload too small: "@ + decimal(*x as nat) + " bytes"@,
            ValidationError::InvalidContentType(x) => "Invalid content type: "@ + x@,
            ValidationError::XSSAttempt(x) => "XSS attempt detected: "@ + x@,
            ValidationError::SQLInjectionAttempt(x) => "SQL injection attempt detected: "@ + x@,
        }
    }

    /// The HTTP status code that answers this error.
    pub open spec fn spec_status(&self) -> u16 {
        match self {
            ValidationError::InvalidInput(_) => 400,
            ValidationError::MissingField(_) => 400,
            ValidationError::InvalidFormat(_) => 400,
            ValidationError::InvalidHex(_) => 400,
            ValidationError::InvalidJson(_) => 400,
            ValidationError::InvalidSignature(_) => 400,
            ValidationError::InvalidTransaction(_) => 400,
            ValidationError::InvalidDeviceId(_) => 400,
            ValidationError::InvalidChainId(_) => 400,
            ValidationError::InvalidAddress(_) => 400,
            ValidationError::InvalidAmount(_) => 400,
            ValidationError::InvalidNonce(_) => 400,
            ValidationError::InvalidGasLimit(_) => 400,
            ValidationError::InvalidGasPrice(_) => 400,
            ValidationError::PayloadTooLarge(_) => 413,
            ValidationError::PayloadTooSmall(_) => 413,
            ValidationError::InvalidContentType(_) => 400,
            ValidationError::XSSAttempt(_) => 403,
            ValidationError::SQLInjectionAttempt(_) => 403,
        }
    }

    /// The error kind reported in the HTTP answer.
    pub open spec fn spec_error_type(&self) -> Seq<char> {
        match self {
            ValidationError::InvalidInput(_) => "VALIDATION_ERROR"@,
            ValidationError::MissingField(_) => "VALIDATION_ERROR"@,
            ValidationError::InvalidFormat(_) => "VALIDATION_ERROR"@,
            ValidationError::InvalidHex(_) => "VALIDATION_ERROR"@,
            ValidationError::InvalidJson(_) => "VALIDATION_ERROR"@,
            ValidationError::InvalidSignature(_) => "VALIDATION_ERROR"@,
            ValidationError::InvalidTransaction(_) => "VALIDATION_ERROR"@,
            ValidationError::InvalidDeviceId(_) => "VALIDATION_ERROR"@,
            ValidationError::InvalidChainId(_) => "VALIDATION_ERROR"@,
            ValidationError::InvalidAddress(_) => "VALIDATION_ERROR"@,
            ValidationError::InvalidAmount(_) => "VALIDATION_ERROR"@,
            ValidationError::InvalidNonce(_) => "VALIDATION_ERROR"@,
            ValidationError::InvalidGasLimit(_) => "VALIDATION_ERROR"@,
            ValidationError::InvalidGasPrice(_) => "VALIDATION_ERROR"@,
            ValidationError::PayloadTooLarge(_) => "PAYLOAD_ERROR"@,
            ValidationError::PayloadTooSmall(_) => "PAYLOAD_ERROR"@,
            ValidationError::InvalidContentType(_) => "VALIDATION_ERROR"@,
            ValidationError::XSSAttempt(_) => "SECURITY_VIOLATION"@,
            ValidationError::SQLInjectionAttempt(_) => "SECURITY_VIOLATION"@,
        }
    }

    /// The text that this error displays.
    pub fn message(&self) -> (r: String)
        ensures
            r@ == self.spec_message(),
    {
        match self {
            ValidationError::InvalidInput(x) => concat2("Invalid input: ", x.as_str()),
            ValidationError::MissingField(x) => concat2("Missing required field: ", x.as_str()),
            ValidationError::InvalidFormat(x) => concat2("Invalid format: ", x.as_str()),
            ValidationError::InvalidHex(x) => concat2("Invalid hex: ", x.as_str()),
            ValidationError::InvalidJson(x) => concat2("Invalid JSON: ", x.as_str()),
            ValidationError::InvalidSignature(x) => concat2("Invalid signature: ", x.as_str()),
            ValidationError::InvalidTransaction(x) => concat2("Invalid transaction: ", x.as_str()),
            ValidationError::InvalidDeviceId(x) => concat2("Invalid device ID: ", x.as_str()),
            ValidationError::InvalidChainId(x) => concat2("Invalid chain ID: ", x.as_str()),
            ValidationError::InvalidAddress(x) => concat2("Invalid address: ", x.as_str()),
            ValidationError::InvalidAmount(x) => concat2("Invalid amount: ", x.as_str()),
            ValidationError::InvalidNonce(x) => concat2("Invalid nonce: ", x.as_str()),
            ValidationError::InvalidGasLimit(x) => concat2("Invalid gas limit: ", x.as_str()),
            ValidationError::InvalidGasPrice(x) => concat2("Invalid gas price: ", x.as_str()),
            ValidationError::PayloadTooLarge(x) => concat3("Payload too large: ", u64_to_string(*x as u64).as_str(), " bytes"),
            ValidationError::PayloadTooSmall(x) => concat3("Payload too small: ", u64_to_string(*x as u64).as_str(), " bytes"),
            ValidationError::InvalidContentType(x) => concat2("Invalid content type: ", x.as_str()),
            ValidationError::XSSAttempt(x) => concat2("XSS attempt detected: ", x.as_str()),
            ValidationError::SQLInjectionAttempt(x) => concat2("SQL injection attempt detected: ", x.as_str()),
        }
    }

    /// The status, kind and message of the HTTP answer to this error.
    pub fn to_http_response(&self) -> (r: HttpErrorInfo)
        ensures
            r.status == self.spec_status(),
            r.error@ == self.spec_error_type(),
            r.message@ == self.spec_message(),
    {
        let (status, error): (u16, &str) = match self {
            ValidationError::InvalidInput(_) => (400, "VALIDATION_ERROR"),
            ValidationError::MissingField(_) => (400, "VALIDATION_ERROR"),
            ValidationError::InvalidFormat(_) => (400, "VALIDATION_ERROR"),
            ValidationError::InvalidHex(_) => (400, "VALIDATION_ERROR"),
            ValidationError::InvalidJson(_) => (400, "VALIDATION_ERROR"),
            ValidationError::InvalidSignature(_) => (400, "VALIDATION_ERROR"),
            ValidationError::InvalidTransaction(_) => (400, "VALIDATION_ERROR"),
            ValidationError::InvalidDeviceId(_) => (400, "VALIDATION_ERROR"),
            ValidationError::InvalidChainId(_) => (400, "VALIDATION_ERROR"),
            ValidationError::InvalidAddress(_) => (400, "VALIDATION_ERROR"),
            ValidationError::InvalidAmount(_) => (400, "VALIDATION_ERROR"),
            ValidationError::InvalidNonce(_) => (400, "VALIDATION_ERROR"),
            ValidationError::InvalidGasLimit(_) => (400, "VALIDATION_ERROR"),
            ValidationError::InvalidGasPrice(_) => (400, "VALIDATION_ERROR"),
            ValidationError::PayloadTooLarge(_) => (413, "PAYLOAD_ERROR"),
            ValidationError::PayloadTooSmall(_) => (413, "PAYLOAD_ERROR"),
            ValidationError::InvalidContentType(_) => (400, "VALIDATION_ERROR"),
            ValidationError::XSSAttempt(_) => (403, "SECURITY_VIOLATION"),
            ValidationError::SQLInjectionAttempt(_) => (403, "SECURITY_VIOLATION"),
        };
        HttpErrorInfo { status, error: owned(error), message: self.message() }
    }
}

/// Errors from the storage layer.
#[derive(Debug, Clone)]
pub enum StorageError {
    FileNotFound(String),
    IO(String),
    Serialization(String),
    Deserialization(String),
    DatabaseError(String),
    TransactionNotFound(String),
    DeviceNotFound(String),
    DuplicateEntry(String),
    StorageFull(String),
    PermissionDenied(String),
    CorruptedData(String),
}

impl StorageError {
    /// The text that this error displays.
    pub open spec fn spec_message(&self) -> Seq<char> {
        match self {
            StorageError::FileNotFound(x) => "File not found: "@ + x@,
            StorageError::IO(x) => "IO error: "@ + x@,
            StorageError::Serialization(x) => "Serialization error: "@ + x@,
            StorageError::Deserialization(x) => "Deserialization error: "@ + x@,
            StorageError::DatabaseError(x) => "Database error: "@ + x@,
            StorageError::TransactionNotFound(x) => "Transaction not found: "@ + x@,
            StorageError::DeviceNotFound(x) => "Device not found: "@ + x@,
            StorageError::DuplicateEntry(x) => "Duplicate entry: "@ + x@,
            StorageError::StorageFull(x) => "Storage full: "@ + x@,
            StorageError::PermissionDenied(x) => "Permission denied: "@ + x@,
            StorageError::CorruptedData(x) => "Corrupted data: "@ + x@,
        }
    }

    /// The HTTP status code that answers this error.
    pub open spec fn spec_status(&self) -> u16 {
        match self {
            StorageError::FileNotFound(_) => 500,
            StorageError::IO(_) => 500,
            StorageError::Serialization(_) => 500,
            StorageError::Deserialization(_) => 500,
            StorageError::DatabaseError(_) => 500,
            StorageError::TransactionNotFound(_) => 404,
            StorageError::DeviceNotFound(_) => 404,
            StorageError::DuplicateEntry(_) => 500,
            StorageError::StorageFull(_) => 503,
            StorageError::PermissionDenied(_) => 403,
            StorageError::CorruptedData(_) => 500,
        }
    }

    /// The error kind reported in the HTTP answer.
    pub open spec fn spec_error_type(&self) -> Seq<char> {
        match self {
            StorageError::FileNotFound(_) => "STORAGE_ERROR"@,
            StorageError::IO(_) => "STORAGE_ERROR"@,
            StorageError::Serialization(_) => "STORAGE_ERROR"@,
            StorageError::Deserialization(_) => "STORAGE_ERROR"@,
            StorageError::DatabaseError(_) => "STORAGE_ERROR"@,
            StorageError::TransactionNotFound(_) => "NOT_FOUND"@,
            StorageError::DeviceNotFound(_) => "NOT_FOUND"@,
            StorageError::DuplicateEntry(_) => "STORAGE_ERROR"@,
            StorageError::StorageFull(_) => "STORAGE_FULL"@,
            StorageError::PermissionDenied(_) => "PERMISSION_DENIED"@,
            StorageError::CorruptedData(_) => "STORAGE_ERROR"@,
        }
    }

    /// The text that this error displays.
    pub fn message(&self) -> (r: String)
        ensures
            r@ == self.spec_message(),
    {
        match self {
            StorageError::FileNotFound(x) => concat2("File not found: ", x.as_str()),
            StorageError::IO(x) => concat2("IO error: ", x.as_str()),
            StorageError::Serialization(x) => concat2("Serialization error: ", x.as_str()),
            StorageError::Deserialization(x) => concat2("Deserialization error: ", x.as_str()),
            StorageError::DatabaseError(x) => concat2("Database error: ", x.as_str()),
            StorageError::TransactionNotFound(x) => concat2("Transaction not found: ", x.as_str()),
            StorageError::DeviceNotFound(x) => concat2("Device not found: ", x.as_str()),
            StorageError::DuplicateEntry(x) => concat2("Duplicate entry: ", x.as_str()),
            StorageError::StorageFull(x) => concat2("Storage full: ", x.as_str()),
            StorageError::PermissionDenied(x) => concat2("Permission denied: ", x.as_str()),
            StorageError::CorruptedData(x) => concat2("Corrupted data: ", x.as_str()),
        }
    }

    /// The status, kind and message of the HTTP answer to this error.
    pub fn to_http_response(&self) -> (r: HttpErrorInfo)
        ensures
            r.status == self.spec_status(),
            r.error@ == self.spec_error_type(),
            r.message@ == self.spec_message(),
    {
        let (status, error): (u16, &str) = match self {
            StorageError::FileNotFound(_) => (500, "STORAGE_ERROR"),
            StorageError::IO(_) => (500, "STORAGE_ERROR"),
            StorageError::Serialization(_) => (500, "STORAGE_ERROR"),
            StorageError::Deserialization(_) => (500, "STORAGE_ERROR"),
            StorageError::DatabaseError(_) => (500, "STORAGE_ERROR"),
            StorageError::TransactionNotFound(_) => (404, "NOT_FOUND"),
            StorageError::DeviceNotFound(_) => (404, "NOT_FOUND"),
            StorageError::DuplicateEntry(_) => (500, "STORAGE_ERROR"),
            StorageError::StorageFull(_) => (503, "STORAGE_FULL"),
            StorageError::PermissionDenied(_) => (403, "PERMISSION_DENIED"),
            StorageError::CorruptedData(_) => (500, "STORAGE_ERROR"),
        };
        HttpErrorInfo { status, error: owned(error), message: self.message() }
    }
}

/// Errors answered at the HTTP API.
#[derive(Debug, Clone)]
pub enum APIError {
    BadRequest(String),
    Unauthorized(String),
    Forbidden(String),
    NotFound(String),
    MethodNotAllowed(String),
    RequestTimeout(String),
    TooManyRequests(String),
    InternalServerError(String),
    ServiceUnavailable(String),
    GatewayTimeout(String),
}

impl APIError {
    /// The text that this error displays.
    pub open spec fn spec_message(&self) -> Seq<char> {
        match self {
            APIError::BadRequest(x) => "Bad request: "@ + x@,
            APIError::Unauthorized(x) => "Unauthorized: "@ + x@,
            APIError::Forbidden(x) => "Forbidden: "@ + x@,
            APIError::NotFound(x) => "Not found: "@ + x@,
            APIError::MethodNotAllowed(x) => "Method not allowed: "@ + x@,
            APIError::RequestTimeout(x) => "Request timeout: "@ + x@,
            APIError::TooManyRequests(x) => "Too many requests: "@ + x@,
            APIError::InternalServerError(x) => "Internal server error: "@ + x@,
            APIError::ServiceUnavailable(x) => "Service unavailable: "@ + x@,
            APIError::GatewayTimeout(x) => "Gateway timeout: "@ + x@,
        }
    }

    /// The HTTP status code that answers this error.
    pub open spec fn spec_status(&self) -> u16 {
        match self {
            APIError::BadRequest(_) => 400,
            APIError::Unauthorized(_) => 401,
            APIError::Forbidden(_) => 403,
            APIError::NotFound(_) => 404,
            APIError::MethodNotAllowed(_) => 405,
            APIError::RequestTimeout(_) => 408,
            APIError::TooManyRequests(_) => 429,
            APIError::InternalServerError(_) => 500,
            APIError::ServiceUnavailable(_) => 503,
            APIError::GatewayTimeout(_) => 504,
        }
    }

    /// The error kind reported in the HTTP answer.
    pub open spec fn spec_error_type(&self) -> Seq<char> {
        match self {
            APIError::BadRequest(_) => "API_ERROR"@,
            APIError::Unauthorized(_) => "API_ERROR"@,
            APIError::Forbidden(_) => "API_ERROR"@,
            APIError::NotFound(_) => "API_ERROR"@,
            APIError::MethodNotAllowed(_) => "API_ERROR"@,
            APIError::RequestTimeout(_) => "API_ERROR"@,
            APIError::TooManyRequests(_) => "API_ERROR"@,
            APIError::InternalServerError(_) => "API_ERROR"@,
            APIError::ServiceUnavailable(_) => "API_ERROR"@,
            APIError::GatewayTimeout(_) => "API_ERROR"@,
        }
    }

    /// The text that this error displays.
    pub fn message(&self) -> (r: String)
        ensures
            r@ == self.spec_message(),
    {
        match self {
            APIError::BadRequest(x) => concat2("Bad request: ", x.as_str()),
            APIError::Unauthorized(x) => concat2("Unauthorized: ", x.as_str()),
            APIError::Forbidden(x) => concat2("Forbidden: ", x.as_str()),
            APIError::NotFound(x) => concat2("Not found: ", x.as_str()),
            APIError::MethodNotAllowed(x) => concat2("Method not allowed: ", x.as_str()),
            APIError::RequestTimeout(x) => concat2("Request timeout: ", x.as_str()),
            APIError::TooManyRequests(x) => concat2("Too many requests: ", x.as_str()),
            APIError::InternalServerError(x) => concat2("Internal server error: ", x.as_str()),
            APIError::ServiceUnavailable(x) => concat2("Service unavailable: ", x.as_str()),
            APIError::GatewayTimeout(x) => concat2("Gateway timeout: ", x.as_str()),
        }
    }

    /// The status, kind and message of the HTTP answer to this error.
    pub fn to_http_response(&self) -> (r: HttpErrorInfo)
        ensures
            r.status == self.spec_status(),
            r.error@ == self.spec_error_type(),
            r.message@ == self.spec_message(),
    {
        let (status, error): (u16, &str) = match self {
            APIError::BadRequest(_) => (400, "API_ERROR"),
            APIError::Unauthorized(_) => (401, "API_ERROR"),
            APIError::Forbidden(_) => (403, "API_ERROR"),
            APIError::NotFound(_) => (404, "API_ERROR"),
            APIError::MethodNotAllowed(_) => (405, "API_ERROR"),
            APIError::RequestTimeout(_) => (408, "API_ERROR"),
            APIError::TooManyRequests(_) => (429, "API_ERROR"),
            APIError::InternalServerError(_) => (500, "API_ERROR"),
            APIError::ServiceUnavailable(_) => (503, "API_ERROR"),
            APIError::GatewayTimeout(_) => (504, "API_ERROR"),
        };
        HttpErrorInfo { status, error: owned(error), message: self.message() }
    }
}

/// Errors in the relay's configuration.
#[derive(Debug, Clone)]
pub enum ConfigError {
    MissingEnvironmentVariable(String),
    InvalidConfiguration(String),
    InvalidChainConfig(String),
    InvalidRPCUrl(String),
    InvalidContractAddress(String),
    InvalidPrivateKey(String),
    InvalidPort(String),
    InvalidLogLevel(String),
    InvalidSecurityConfig(String),
}

impl ConfigError {
    /// The text that this error displays.
    pub open spec fn spec_message(&self) -> Seq<char> {
        match self {
            ConfigError::MissingEnvironmentVariable(x) => "Missing environment variable: "@ + x@,
            ConfigError::InvalidConfiguration(x) => "Invalid configuration: "@ + x@,
            ConfigError::InvalidChainConfig(x) => "Invalid chain configuration: "@ + x@,
            ConfigError::InvalidRPCUrl(x) => "Invalid RPC URL: "@ + x@,
            ConfigError::InvalidContractAddress(x) => "Invalid contract address: "@ + x@,
            ConfigError::InvalidPrivateKey(x) => "Invalid private key: "@ + x@,
            ConfigError::InvalidPort(x) => "Invalid port: "@ + x@,
            ConfigError::InvalidLogLevel(x) => "Invalid log level: "@ + x@,
            ConfigError::InvalidSecurityConfig(x) => "Invalid security configuration: "@ + x@,
        }
    }

    /// The HTTP status code that answers this error.
    pub open spec fn spec_status(&self) -> u16 {
        match self {
            ConfigError::MissingEnvironmentVariable(_) => 500,
            ConfigError::InvalidConfiguration(_) => 500,
            ConfigError::InvalidChainConfig(_) => 500,
            ConfigError::InvalidRPCUrl(_) => 500,
            ConfigError::InvalidContractAddress(_) => 500,
            ConfigError::InvalidPrivateKey(_) => 500,
            ConfigError::InvalidPort(_) => 500,
            ConfigError::InvalidLogLevel(_) => 500,
            ConfigError::InvalidSecurityConfig(_) => 500,
        }
    }

    /// The error kind reported in the HTTP answer.
    pub open spec fn spec_error_type(&self) -> Seq<char> {
        match self {
            ConfigError::MissingEnvironmentVariable(_) => "CONFIG_ERROR"@,
            ConfigError::InvalidConfiguration(_) => "CONFIG_ERROR"@,
            ConfigError::InvalidChainConfig(_) => "CONFIG_ERROR"@,
            ConfigError::InvalidRPCUrl(_) => "CONFIG_ERROR"@,
            ConfigError::InvalidContractAddress(_) => "CONFIG_ERROR"@,
            ConfigError::InvalidPrivateKey(_) => "CONFIG_ERROR"@,
            ConfigError::InvalidPort(_) => "CONFIG_ERROR"@,
            ConfigError::InvalidLogLevel(_) => "CONFIG_ERROR"@,
            ConfigError::InvalidSecurityConfig(_) => "CONFIG_ERROR"@,
        }
    }

    /// The text that this error displays.
    pub fn message(&self) -> (r: String)
        ensures
            r@ == self.spec_message(),
    {
        match self {
            ConfigError::MissingEnvironmentVariable(x) => concat2("Missing environment variable: ", x.as_str()),
            ConfigError::InvalidConfiguration(x) => concat2("Invalid configuration: ", x.as_str()),
            ConfigError::InvalidChainConfig(x) => concat2("Invalid chain configuration: ", x.as_str()),
            ConfigError::InvalidRPCUrl(x) => concat2("Invalid RPC URL: ", x.as_str()),
            ConfigError::InvalidContractAddress(x) => concat2("Invalid contract address: ", x.as_str()),
            ConfigError::InvalidPrivateKey(x) => concat2("Invalid private key: ", x.as_str()),
            ConfigError::InvalidPort(x) => concat2("Invalid port: ", x.as_str()),
            ConfigError::InvalidLogLevel(x) => concat2("Invalid log level: ", x.as_str()),
            ConfigError::InvalidSecurityConfig(x) => concat2("Invalid security configuration: ", x.as_str()),
        }
    }

    /// The status, kind and message of the HTTP answer to this error.
    pub fn to_http_response(&self) -> (r: HttpErrorInfo)
        ensures
            r.status == self.spec_status(),
            r.error@ == self.spec_error_type(),
            r.message@ == self.spec_message(),
    {
        let (status, error): (u16, &str) = match self {
            ConfigError::MissingEnvironmentVariable(_) => (500, "CONFIG_ERROR"),
            ConfigError::InvalidConfiguration(_) => (500, "CONFIG_ERROR"),
            ConfigError::InvalidChainConfig(_) => (500, "CONFIG_ERROR"),
            ConfigError::InvalidRPCUrl(_) => (500, "CONFIG_ERROR"),
            ConfigError::InvalidContractAddress(_) => (500, "CONFIG_ERROR"),
            ConfigError::InvalidPrivateKey(_) => (500, "CONFIG_ERROR"),
            ConfigError::InvalidPort(_) => (500, "CONFIG_ERROR"),
            ConfigError::InvalidLogLevel(_) => (500, "CONFIG_ERROR"),
            ConfigError::InvalidSecurityConfig(_) => (500, "CONFIG_ERROR"),
        };
        HttpErrorInfo { status, error: owned(error), message: self.message() }
    }
}

/// Errors from security checks.
#[derive(Debug, Clone)]
pub enum SecurityError {
    AuthenticationFailed(String),
    AuthorizationFailed(String),
    InvalidToken(String),
    TokenExpired(String),
    InvalidSignature(String),
    InvalidHash(String),
    SecurityViolation(String),
    RateLimitExceeded(String),
    IPBlocked(String),
    MaliciousRequest(String),
}

impl SecurityError {
    /// The text that this error displays.
    pub open spec fn spec_message(&self) -> Seq<char> {
        match self {
            SecurityError::AuthenticationFailed(x) => "Authentication failed: "@ + x@,
            SecurityError::AuthorizationFailed(x) => "Authorization failed: "@ + x@,
            SecurityError::InvalidToken(x) => "Invalid token: "@ + x@,
            SecurityError::TokenExpired(x) => "Token expired: "@ + x@,
            SecurityError::InvalidSignature(x) => "Invalid signature: "@ + x@,
            SecurityError::InvalidHash(x) => "Invalid hash: "@ + x@,
            SecurityError::SecurityViolation(x) => "Security violation: "@ + x@,
            SecurityError::RateLimitExceeded(x) => "Rate limit exceeded: "@ + x@,
            SecurityError::IPBlocked(x) => "IP blocked: "@ + x@,
            SecurityError::MaliciousRequest(x) => "Malicious request: "@ + x@,
        }
    }

    /// The HTTP status code that answers this error.
    pub open spec fn spec_status(&self) -> u16 {
        match self {
            SecurityError::AuthenticationFailed(_) => 401,
            SecurityError::AuthorizationFailed(_) => 403,
            SecurityError::InvalidToken(_) => 401,
            SecurityError::TokenExpired(_) => 401,
            SecurityError::InvalidSignature(_) => 403,
            SecurityError::InvalidHash(_) => 403,
            SecurityError::SecurityViolation(_) => 403,
            SecurityError::RateLimitExceeded(_) => 429,
            SecurityError::IPBlocked(_) => 403,
            SecurityError::MaliciousRequest(_) => 403,
        }
    }

    /// The error kind reported in the HTTP answer.
    pub open spec fn spec_error_type(&self) -> Seq<char> {
        match self {
            SecurityError::AuthenticationFailed(_) => "AUTH_FAILED"@,
            SecurityError::AuthorizationFailed(_) => "AUTHZ_FAILED"@,
            SecurityError::InvalidToken(_) => "INVALID_TOKEN"@,
            SecurityError::TokenExpired(_) => "INVALID_TOKEN"@,
            SecurityError::InvalidSignature(_) => "SECURITY_VIOLATION"@,
            SecurityError::InvalidHash(_) => "SECURITY_VIOLATION"@,
            SecurityError::SecurityViolation(_) => "SECURITY_VIOLATION"@,
            SecurityError::RateLimitExceeded(_) => "RATE_LIMIT"@,
            SecurityError::IPBlocked(_) => "IP_BLOCKED"@,
            SecurityError::MaliciousRequest(_) => "SECURITY_VIOLATION"@,
        }
    }

    /// The text that this error displays.
    pub fn message(&self) -> (r: String)
        ensures
            r@ == self.spec_message(),
    {
        match self {
            SecurityError::AuthenticationFailed(x) => concat2("Authentication failed: ", x.as_str()),
            SecurityError::AuthorizationFailed(x) => concat2("Authorization failed: ", x.as_str()),
            SecurityError::InvalidToken(x) => concat2("Invalid token: ", x.as_str()),
            SecurityError::TokenExpired(x) => concat2("Token expired: ", x.as_str()),
            SecurityError::InvalidSignature(x) => concat2("Invalid signature: ", x.as_str()),
            SecurityError::InvalidHash(x) => concat2("Invalid hash: ", x.as_str()),
            SecurityError::SecurityViolation(x) => concat2("Security violation: ", x.as_str()),
            SecurityError::RateLimitExceeded(x) => concat2("Rate limit exceeded: ", x.as_str()),
            SecurityError::IPBlocked(x) => concat2("IP blocked: ", x.as_str()),
            SecurityError::MaliciousRequest(x) => concat2("Malicious request: ", x.as_str()),
        }
    }

    /// The status, kind and message of the HTTP answer to this error.
    pub fn to_http_response(&self) -> (r: HttpErrorInfo)
        ensures
            r.status == self.spec_status(),
            r.error@ == self.spec_error_type(),
            r.message@ == self.spec_message(),
    {
        let (status, error): (u16, &str) = match self {
            SecurityError::AuthenticationFailed(_) => (401, "AUTH_FAILED"),
            SecurityError::AuthorizationFailed(_) => (403, "AUTHZ_FAILED"),
            SecurityError::InvalidToken(_) => (401, "INVALID_TOKEN"),
            SecurityError::TokenExpired(_) => (401, "INVALID_TOKEN"),
            SecurityError::InvalidSignature(_) => (403, "SECURITY_VIOLATION"),
            SecurityError::InvalidHash(_) => (403, "SECURITY_VIOLATION"),
            SecurityError::SecurityViolation(_) => (403, "SECURITY_VIOLATION"),
            SecurityError::RateLimitExceeded(_) => (429, "RATE_LIMIT"),
            SecurityError::IPBlocked(_) => (403, "IP_BLOCKED"),
            SecurityError::MaliciousRequest(_) => (403, "SECURITY_VIOLATION"),
        };
        HttpErrorInfo { status, error: owned(error), message: self.message() }
    }
}

/// Errors from payload compression.
#[derive(Debug, Clone)]
pub enum CompressionError {
    CompressionFailed(String),
    DecompressionFailed(String),
    InvalidFormat(String),
    UnsupportedAlgorithm(String),
    DataCorrupted(String),
    MemoryError(String),
    InvalidPayload(String),
}

impl CompressionError {
    /// The text that this error displays.
    pub open spec fn spec_message(&self) -> Seq<char> {
        match self {
            CompressionError::CompressionFailed(x) => "Compression failed: "@ + x@,
            CompressionError::DecompressionFailed(x) => "Decompression failed: "@ + x@,
            CompressionError::InvalidFormat(x) => "Invalid format: "@ + x@,
            CompressionError::UnsupportedAlgorithm(x) => "Unsupported algorithm: "@ + x@,
            CompressionError::DataCorrupted(x) => "Data corrupted: "@ + x@,
            CompressionError::MemoryError(x) => "Memory error: "@ + x@,
            CompressionError::InvalidPayload(x) => "Invalid payload: "@ + x@,
        }
    }

    /// The HTTP status code that answers this error.
    pub open spec fn spec_status(&self) -> u16 {
        match self {
            CompressionError::CompressionFailed(_) => 400,
            CompressionError::DecompressionFailed(_) => 400,
            CompressionError::InvalidFormat(_) => 400,
            CompressionError::UnsupportedAlgorithm(_) => 400,
            CompressionError::DataCorrupted(_) => 400,
            CompressionError::MemoryError(_) => 400,
            CompressionError::InvalidPayload(_) => 400,
        }
    }

    /// The error kind reported in the HTTP answer.
    pub open spec fn spec_error_type(&self) -> Seq<char> {
        match self {
            CompressionError::CompressionFailed(_) => "COMPRESSION_ERROR"@,
            CompressionError::DecompressionFailed(_) => "COMPRESSION_ERROR"@,
            CompressionError::InvalidFormat(_) => "COMPRESSION_ERROR"@,
            CompressionError::UnsupportedAlgorithm(_) => "COMPRESSION_ERROR"@,
            CompressionError::DataCorrupted(_) => "COMPRESSION_ERROR"@,
            CompressionError::MemoryError(_) => "COMPRESSION_ERROR"@,
            CompressionError::InvalidPayload(_) => "COMPRESSION_ERROR"@,
        }
    }

    /// The text that this error displays.
    pub fn message(&self) -> (r: String)
        ensures
            r@ == self.spec_message(),
    {
        match self {
            CompressionError::CompressionFailed(x) => concat2("Compression failed: ", x.as_str()),
            CompressionError::DecompressionFailed(x) => concat2("Decompression failed: ", x.as_str()),
            CompressionError::InvalidFormat(x) => concat2("Invalid format: ", x.as_str()),
            CompressionError::UnsupportedAlgorithm(x) => concat2("Unsupported algorithm: ", x.as_str()),
            CompressionError::DataCorrupted(x) => concat2("Data corrupted: ", x.as_str()),
            CompressionError::MemoryError(x) => concat2("Memory error: ", x.as_str()),
            CompressionError::InvalidPayload(x) => concat2("Invalid payload: ", x.as_str()),
        }
    }

    /// The status, kind and message of the HTTP answer to this error.
    pub fn to_http_response(&self) -> (r: HttpErrorInfo)
        ensures
            r.status == self.spec_status(),
            r.error@ == self.spec_error_type(),
            r.message@ == self.spec_message(),
    {
        let (status, error): (u16, &str) = match self {
            CompressionError::CompressionFailed(_) => (400, "COMPRESSION_ERROR"),
            CompressionError::DecompressionFailed(_) => (400, "COMPRESSION_ERROR"),
            CompressionError::InvalidFormat(_) => (400, "COMPRESSION_ERROR"),
            CompressionError::UnsupportedAlgorithm(_) => (400, "COMPRESSION_ERROR"),
            CompressionError::DataCorrupted(_) => (400, "COMPRESSION_ERROR"),
            CompressionError::MemoryError(_) => (400, "COMPRESSION_ERROR"),
            CompressionError::InvalidPayload(_) => (400, "COMPRESSION_ERROR"),
        };
        HttpErrorInfo { status, error: owned(error), message: self.message() }
    }
}

/// Errors from authentication.
#[derive(Debug, Clone)]
pub enum AuthError {
    InvalidCredentials(String),
    UserNotFound(String),
    AccountLocked(String),
    PasswordExpired(String),
    TooManyAttempts(String),
    InvalidDevice(String),
    SessionExpired(String),
    InvalidChallenge(String),
}

impl AuthError {
    /// The text that this error displays.
    pub open spec fn spec_message(&self) -> Seq<char> {
        match self {
            AuthError::InvalidCredentials(x) => "Invalid credentials: "@ + x@,
            AuthError::UserNotFound(x) => "User not found: "@ + x@,
            AuthError::AccountLocked(x) => "Account locked: "@ + x@,
            AuthError::PasswordExpired(x) => "Password expired: "@ + x@,
            AuthError::TooManyAttempts(x) => "Too many attempts: "@ + x@,
            AuthError::InvalidDevice(x) => "Invalid device: "@ + x@,
            AuthError::SessionExpired(x) => "Session expired: "@ + x@,
            AuthError::InvalidChallenge(x) => "Invalid challenge: "@ + x@,
        }
    }

    /// The HTTP status code that answers this error.
    pub open spec fn spec_status(&self) -> u16 {
        match self {
            AuthError::InvalidCredentials(_) => 401,
            AuthError::UserNotFound(_) => 401,
            AuthError::AccountLocked(_) => 403,
            AuthError::PasswordExpired(_) => 401,
            AuthError::TooManyAttempts(_) => 429,
            AuthError::InvalidDevice(_) => 401,
            AuthError::SessionExpired(_) => 401,
            AuthError::InvalidChallenge(_) => 401,
        }
    }

    /// The error kind reported in the HTTP answer.
    pub open spec fn spec_error_type(&self) -> Seq<char> {
        match self {
            AuthError::InvalidCredentials(_) => "INVALID_CREDENTIALS"@,
            AuthError::UserNotFound(_) => "INVALID_CREDENTIALS"@,
            AuthError::AccountLocked(_) => "ACCOUNT_LOCKED"@,
            AuthError::PasswordExpired(_) => "AUTH_ERROR"@,
            AuthError::TooManyAttempts(_) => "TOO_MANY_ATTEMPTS"@,
            AuthError::InvalidDevice(_) => "AUTH_ERROR"@,
            AuthError::SessionExpired(_) => "AUTH_ERROR"@,
            AuthError::InvalidChallenge(_) => "AUTH_ERROR"@,
        }
    }

    /// The text that this error displays.
    pub fn message(&self) -> (r: String)
        ensures
            r@ == self.spec_message(),
    {
        match self {
            AuthError::InvalidCredentials(x) => concat2("Invalid credentials: ", x.as_str()),
            AuthError::UserNotFound(x) => concat2("User not found: ", x.as_str()),
            AuthError::AccountLocked(x) => concat2("Account locked: ", x.as_str()),
            AuthError::PasswordExpired(x) => concat2("Password expired: ", x.as_str()),
            AuthError::TooManyAttempts(x) => concat2("Too many attempts: ", x.as_str()),
            AuthError::InvalidDevice(x) => concat2("Invalid device: ", x.as_str()),
            AuthError::SessionExpired(x) => concat2("Session expired: ", x.as_str()),
            AuthError::InvalidChallenge(x) => concat2("Invalid challenge: ", x.as_str()),
        }
    }

    /// The status, kind and message of the HTTP answer to this error.
    pub fn to_http_response(&self) -> (r: HttpErrorInfo)
        ensures
            r.status == self.spec_status(),
            r.error@ == self.spec_error_type(),
            r.message@ == self.spec_message(),
    {
        let (status, error): (u16, &str) = match self {
            AuthError::InvalidCredentials(_) => (401, "INVALID_CREDENTIALS"),
            AuthError::UserNotFound(_) => (401, "INVALID_CREDENTIALS"),
            AuthError::AccountLocked(_) => (403, "ACCOUNT_LOCKED"),
            AuthError::PasswordExpired(_) => (401, "AUTH_ERROR"),
            AuthError::TooManyAttempts(_) => (429, "TOO_MANY_ATTEMPTS"),
            AuthError::InvalidDevice(_) => (401, "AUTH_ERROR"),
            AuthError::SessionExpired(_) => (401, "AUTH_ERROR"),
            AuthError::InvalidChallenge(_) => (401, "AUTH_ERROR"),
        };
        HttpErrorInfo { status, error: owned(error), message: self.message() }
    }
}

/// Errors from monitoring.
#[derive(Debug, Clone)]
pub enum MonitoringError {
    MetricsError(String),
    HealthCheckFailed(String),
    AlertError(String),
    PrometheusError(String),
    LoggingError(String),
    PerformanceError(String),
}

impl MonitoringError {
    /// The text that this error displays.
    pub open spec fn spec_message(&self) -> Seq<char> {
        match self {
            MonitoringError::MetricsError(x) => "Metrics error: "@ + x@,
            MonitoringError::HealthCheckFailed(x) => "Health check failed: "@ + x@,
            MonitoringError::AlertError(x) => "Alert error: "@ + x@,
            MonitoringError::PrometheusError(x) => "Prometheus error: "@ + x@,
            MonitoringError::LoggingError(x) => "Logging error: "@ + x@,
            MonitoringError::PerformanceError(x) => "Performance error: "@ + x@,
        }
    }

    /// The HTTP status code that answers this error.
    pub open spec fn spec_status(&self) -> u16 {
        match self {
            MonitoringError::MetricsError(_) => 500,
            MonitoringError::HealthCheckFailed(_) => 500,
            MonitoringError::AlertError(_) => 500,
            MonitoringError::PrometheusError(_) => 500,
            MonitoringError::LoggingError(_) => 500,
            MonitoringError::PerformanceError(_) => 500,
        }
    }

    /// The error kind reported in the HTTP answer.
    pub open spec fn spec_error_type(&self) -> Seq<char> {
        match self {
            MonitoringError::MetricsError(_) => "MONITORING_ERROR"@,
            MonitoringError::HealthCheckFailed(_) => "MONITORING_ERROR"@,
            MonitoringError::AlertError(_) => "MONITORING_ERROR"@,
            MonitoringError::PrometheusError(_) => "MONITORING_ERROR"@,
            MonitoringError::LoggingError(_) => "MONITORING_ERROR"@,
            MonitoringError::PerformanceError(_) => "MONITORING_ERROR"@,
        }
    }

    /// The text that this error displays.
    pub fn message(&self) -> (r: String)
        ensures
            r@ == self.spec_message(),
    {
        match self {
            MonitoringError::MetricsError(x) => concat2("Metrics error: ", x.as_str()),
            MonitoringError::HealthCheckFailed(x) => concat2("Health check failed: ", x.as_str()),
            MonitoringError::AlertError(x) => concat2("Alert error: ", x.as_str()),
            MonitoringError::PrometheusError(x) => concat2("Prometheus error: ", x.as_str()),
            MonitoringError::LoggingError(x) => concat2("Logging error: ", x.as_str()),
            MonitoringError::PerformanceError(x) => concat2("Performance error: ", x.as_str()),
        }
    }

    /// The status, kind and message of the HTTP answer to this error.
    pub fn to_http_response(&self) -> (r: HttpErrorInfo)
        ensures
            r.status == self.spec_status(),
            r.error@ == self.spec_error_type(),
            r.message@ == self.spec_message(),
    {
        let (status, error): (u16, &str) = match self {
            MonitoringError::MetricsError(_) => (500, "MONITORING_ERROR"),
            MonitoringError::HealthCheckFailed(_) => (500, "MONITORING_ERROR"),
            MonitoringError::AlertError(_) => (500, "MONITORING_ERROR"),
            MonitoringError::PrometheusError(_) => (500, "MONITORING_ERROR"),
            MonitoringError::LoggingError(_) => (500, "MONITORING_ERROR"),
            MonitoringError::PerformanceError(_) => (500, "MONITORING_ERROR"),
        };
        HttpErrorInfo { status, error: owned(error), message: self.message() }
    }
}
} // verus!
