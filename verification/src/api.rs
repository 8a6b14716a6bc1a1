//! The checks that the API's transaction endpoints make before anything is
//! stored or broadcast: the order of the field checks and their answers,
//! the payload kinds of compressed submissions, and the decoding of a
//! signed transaction's hexadecimal text.
use vstd::prelude::*;
use crate::sanitizer::{chain_id_verdict, device_id_verdict, hash_verdict, string_verdict, InputSanitizer};
use crate::auth::{issued_token, AuthManager, TOKEN_LIFETIME_SECS};
use crate::monitoring::{Alert, AlertSeverity, PrometheusMetrics};
use crate::text::{chars_of, chars_range, concat2, concat3, owned, str_eq, u64_to_string, decimal};
use base64::Engine;

verus! {

/// A refused request: the status, the error text and the field at fault.
pub struct ApiRejection {
    pub status: u16,
    pub error: String,
    pub field: Option<String>,
}

/// `r` is the 400 answer with this error text and field.
pub open spec fn rejects(r: ApiRejection, error: Seq<char>, field: Seq<char>) -> bool {
    r.status == 400 && r.error@ == error && r.field is Some && r.field->0@ == field
}

fn reject(error: &str, field: &str) -> (r: ApiRejection)
    ensures
        rejects(r, error@, field@),
{
    ApiRejection { status: 400, error: owned(error), field: Some(owned(field)) }
}

/// A transaction submission: a signed transaction in hexadecimal, the
/// node to broadcast it to, the chain, and optionally the device it came from.
pub struct SendTxRequest {
    pub signed_tx: String,
    pub rpc_url: String,
    pub chain_id: u64,
    pub device_id: Option<String>,
}

/// The checks of a transaction submission, in order: the signed
/// transaction must be a hash, the chain identifier valid, and the device
/// identifier, when given, valid.
pub fn check_send_tx_request(sanitizer: &InputSanitizer, req: &SendTxRequest) -> (r: Result<(), ApiRejection>)
    ensures
        hash_verdict(req.signed_tx@) is Some ==> r is Err
            && rejects(r->Err_0, "Invalid signed transaction format"@, "signed_tx"@),
        hash_verdict(req.signed_tx@) is None && chain_id_verdict(decimal(req.chain_id as nat)) is Some ==> r is Err
            && rejects(r->Err_0, "Invalid chain ID"@, "chain_id"@),
        hash_verdict(req.signed_tx@) is None && chain_id_verdict(decimal(req.chain_id as nat)) is None ==> match req.device_id {
            Some(d) => if device_id_verdict(d@) is Some {
                    r is Err && rejects(r->Err_0, "Invalid device ID format"@, "device_id"@)
                } else {
                    r is Ok
                },
            None => r is Ok,
        },
{
    let signed_tx = req.signed_tx.as_str();
    let chain_id = req.chain_id;
    if sanitizer.sanitize_hash(signed_tx).is_err() {
        return Err(reject("Invalid signed transaction format", "signed_tx"));
    }
    if sanitizer.sanitize_chain_id(u64_to_string(chain_id).as_str()).is_err() {
        return Err(reject("Invalid chain ID", "chain_id"));
    }
    if let Some(d) = &req.device_id {
        if sanitizer.sanitize_device_id(d.as_str()).is_err() {
            return Err(reject("Invalid device ID format", "device_id"));
        }
    }
    Ok(())
}

/// One metric in the Prometheus text format: its help line, its type line,
/// its sample, and a blank line.
pub open spec fn metric_block(name: Seq<char>, help: Seq<char>, kind: Seq<char>, value: u64) -> Seq<char> {
    "# HELP "@ + name + " "@ + help + "\n# TYPE "@ + name + " "@ + kind + "\n"@ + name + " "@ + decimal(value as nat) + "\n\n"@
}

/// The metrics endpoint's text for the integer counters, in the endpoint's
/// order; the floating-point gauges (uptime, CPU) are left to the server.
pub open spec fn prometheus_text(m: PrometheusMetrics) -> Seq<char> {
    metric_block("airchainpay_transactions_received_total"@, "Total number of transactions received"@, "counter"@, m.transactions_received) +
        metric_block("airchainpay_transactions_processed_total"@, "Total number of transactions processed"@, "counter"@, m.transactions_processed) +
        metric_block("airchainpay_transactions_failed_total"@, "Total number of transactions failed"@, "counter"@, m.transactions_failed) +
        metric_block("airchainpay_transactions_broadcasted_total"@, "Total number of transactions broadcasted"@, "counter"@, m.transactions_broadcasted) +
        metric_block("airchainpay_ble_connections_total"@, "Total number of BLE connections"@, "counter"@, m.ble_connections) +
        metric_block("airchainpay_ble_disconnections_total"@, "Total number of BLE disconnections"@, "counter"@, m.ble_disconnections) +
        metric_block("airchainpay_ble_authentications_total"@, "Total number of BLE authentications"@, "counter"@, m.ble_authentications) +
        metric_block("airchainpay_ble_key_exchanges_total"@, "Total number of BLE key exchanges"@, "counter"@, m.ble_key_exchanges) +
        metric_block("airchainpay_rpc_errors_total"@, "Total number of RPC errors"@, "counter"@, m.rpc_errors) +
        metric_block("airchainpay_auth_failures_total"@, "Total number of authentication failures"@, "counter"@, m.auth_failures) +
        metric_block("airchainpay_rate_limit_hits_total"@, "Total number of rate limit hits"@, "counter"@, m.rate_limit_hits) +
        metric_block("airchainpay_blocked_devices_total"@, "Total number of blocked devices"@, "counter"@, m.blocked_devices) +
        metric_block("airchainpay_gas_price_updates_total"@, "Total number of gas price updates"@, "counter"@, m.gas_price_updates) +
        metric_block("airchainpay_contract_events_total"@, "Total number of contract events"@, "counter"@, m.contract_events) +
        metric_block("airchainpay_memory_usage_bytes"@, "Memory usage in bytes"@, "gauge"@, m.memory_usage_bytes)
}

/// One metric block (see `metric_block`).
fn metric_block_text(name: &str, help: &str, kind: &str, value: u64) -> (r: String)
    ensures
        r@ == metric_block(name@, help@, kind@, value),
{
    let a = concat3("# HELP ", name, " ");
    let b = concat3(a.as_str(), help, "\n# TYPE ");
    let c = concat3(b.as_str(), name, " ");
    let d = concat3(c.as_str(), kind, "\n");
    let e = concat3(d.as_str(), name, " ");
    let f = concat3(e.as_str(), u64_to_string(value).as_str(), "\n\n");
    f
}

/// The integer counters in the Prometheus text format (see `prometheus_text`).
pub fn prometheus_metrics_text(m: &PrometheusMetrics) -> (r: String)
    ensures
        r@ == prometheus_text(*m),
{
    let out = metric_block_text("airchainpay_transactions_received_total", "Total number of transactions received", "counter", m.transactions_received);
    let out = concat2(out.as_str(), metric_block_text("airchainpay_transactions_processed_total", "Total number of transactions processed", "counter", m.transactions_processed).as_str());
    let out = concat2(out.as_str(), metric_block_text("airchainpay_transactions_failed_total", "Total number of transactions failed", "counter", m.transactions_failed).as_str());
    let out = concat2(out.as_str(), metric_block_text("airchainpay_transactions_broadcasted_total", "Total number of transactions broadcasted", "counter", m.transactions_broadcasted).as_str());
    let out = concat2(out.as_str(), metric_block_text("airchainpay_ble_connections_total", "Total number of BLE connections", "counter", m.ble_connections).as_str());
    let out = concat2(out.as_str(), metric_block_text("airchainpay_ble_disconnections_total", "Total number of BLE disconnections", "counter", m.ble_disconnections).as_str());
    let out = concat2(out.as_str(), metric_block_text("airchainpay_ble_authentications_total", "Total number of BLE authentications", "counter", m.ble_authentications).as_str());
    let out = concat2(out.as_str(), metric_block_text("airchainpay_ble_key_exchanges_total", "Total number of BLE key exchanges", "counter", m.ble_key_exchanges).as_str());
    let out = concat2(out.as_str(), metric_block_text("airchainpay_rpc_errors_total", "Total number of RPC errors", "counter", m.rpc_errors).as_str());
    let out = concat2(out.as_str(), metric_block_text("airchainpay_auth_failures_total", "Total number of authentication failures", "counter", m.auth_failures).as_str());
    let out = concat2(out.as_str(), metric_block_text("airchainpay_rate_limit_hits_total", "Total number of rate limit hits", "counter", m.rate_limit_hits).as_str());
    let out = concat2(out.as_str(), metric_block_text("airchainpay_blocked_devices_total", "Total number of blocked devices", "counter", m.blocked_devices).as_str());
    let out = concat2(out.as_str(), metric_block_text("airchainpay_gas_price_updates_total", "Total number of gas price updates", "counter", m.gas_price_updates).as_str());
    let out = concat2(out.as_str(), metric_block_text("airchainpay_contract_events_total", "Total number of contract events", "counter", m.contract_events).as_str());
    let out = concat2(out.as_str(), metric_block_text("airchainpay_memory_usage_bytes", "Memory usage in bytes", "gauge", m.memory_usage_bytes).as_str());
    out
}

/// The kinds of compressed payload.
#[derive(Debug, Clone, Copy, PartialEq, Eq, Structural)]
pub enum PayloadKind {
    Transaction,
    Ble,
    Qr,
}

/// The kind named by a payload type, if it names one.
pub open spec fn payload_kind_of(t: Seq<char>) -> Option<PayloadKind> {
    if t == "transaction"@ { Some(PayloadKind::Transaction) }
    else if t == "ble"@ { Some(PayloadKind::Ble) }
    else if t == "qr"@ { Some(PayloadKind::Qr) }
    else { None }
}

/// A compressed submission: the payload in base64, what it holds, the node
/// to broadcast to, the chain, and optionally the device it came from.
pub struct CompressedPayloadRequest {
    pub compressed_data: String,
    pub payload_type: String,
    pub rpc_url: String,
    pub chain_id: u64,
    pub device_id: Option<String>,
}

/// The bytes that the standard base64 alphabet, with padding, decodes from
/// `s`, or nothing when `s` is not such base64 text.
pub uninterp spec fn base64_bytes(s: Seq<char>) -> Option<Seq<u8>>;

/// Decodes standard base64 text with `base64`'s `STANDARD` engine; the
/// result is named `base64_bytes` and nothing more is claimed of it.
#[verifier::external_body]
fn base64_decode(s: &str) -> (r: Option<Vec<u8>>)
    ensures
        match r {
            Some(v) => base64_bytes(s@) == Some(v@),
            None => base64_bytes(s@) is None,
        },
{
    base64::engine::general_purpose::STANDARD.decode(s).ok()
}

/// What a compressed submission whose fields passed their checks comes to,
/// given its payload type and what its base64 text decoded to: undecodable
/// text is refused first, then a payload type that names no kind; otherwise
/// the kind and the decoded bytes.
pub fn compressed_payload_verdict(payload_type: &str, decoded: Option<Vec<u8>>) -> (r: Result<(PayloadKind, Vec<u8>), ApiRejection>)
    ensures
        match decoded {
            None => r is Err && rejects(r->Err_0, "Invalid base64 encoded compressed data"@, "compressed_data"@),
            Some(bytes) => match payload_kind_of(payload_type@) {
                Some(k) => r is Ok && r->Ok_0.0 == k && r->Ok_0.1@ == bytes@,
                None => r is Err && rejects(r->Err_0,
                    "Invalid payload type. Must be 'transaction', 'ble', or 'qr'"@, "payload_type"@),
            },
        },
{
    let bytes = match decoded {
        Some(b) => b,
        None => { return Err(reject("Invalid base64 encoded compressed data", "compressed_data")); }
    };
    if str_eq(payload_type, "transaction") {
        Ok((PayloadKind::Transaction, bytes))
    } else if str_eq(payload_type, "ble") {
        Ok((PayloadKind::Ble, bytes))
    } else if str_eq(payload_type, "qr") {
        Ok((PayloadKind::Qr, bytes))
    } else {
        Err(reject("Invalid payload type. Must be 'transaction', 'ble', or 'qr'", "payload_type"))
    }
}

/// The checks of a compressed submission, in order: the chain identifier,
/// the device identifier when given, the payload type (at most 20
/// characters), the base64 text of the payload, then the payload type's
/// kind. A submission that passes comes to its kind and decoded bytes.
pub fn check_compressed_request(sanitizer: &InputSanitizer, req: &CompressedPayloadRequest) -> (r: Result<(PayloadKind, Vec<u8>), ApiRejection>)
    ensures
        chain_id_verdict(decimal(req.chain_id as nat)) is Some ==> r is Err && rejects(r->Err_0, "Invalid chain ID"@, "chain_id"@),
        chain_id_verdict(decimal(req.chain_id as nat)) is None && req.device_id is Some && device_id_verdict(req.device_id->0@) is Some
            ==> r is Err && rejects(r->Err_0, "Invalid device ID format"@, "device_id"@),
        chain_id_verdict(decimal(req.chain_id as nat)) is None && (req.device_id is None || device_id_verdict(req.device_id->0@) is None) ==> {
            if string_verdict(req.payload_type@, 20) is Some {
                r is Err && rejects(r->Err_0, "Invalid payload type"@, "payload_type"@)
            } else {
                match base64_bytes(req.compressed_data@) {
                    None => r is Err && rejects(r->Err_0, "Invalid base64 encoded compressed data"@, "compressed_data"@),
                    Some(bytes) => match payload_kind_of(req.payload_type@) {
                        Some(k) => r is Ok && r->Ok_0.0 == k && r->Ok_0.1@ == bytes,
                        None => r is Err && rejects(r->Err_0,
                            "Invalid payload type. Must be 'transaction', 'ble', or 'qr'"@, "payload_type"@),
                    },
                }
            }
        },
{
    let chain_id = req.chain_id;
    let payload_type = req.payload_type.as_str();
    if sanitizer.sanitize_chain_id(u64_to_string(chain_id).as_str()).is_err() {
        return Err(reject("Invalid chain ID", "chain_id"));
    }
    if let Some(d) = &req.device_id {
        if sanitizer.sanitize_device_id(d.as_str()).is_err() {
            return Err(reject("Invalid device ID format", "device_id"));
        }
    }
    if sanitizer.sanitize_string(payload_type, Some(20)).is_err() {
        return Err(reject("Invalid payload type", "payload_type"));
    }
    let decoded = base64_decode(req.compressed_data.as_str());
    compressed_payload_verdict(payload_type, decoded)
}

/// `s` with every leading `0x` removed, as std's `trim_start_matches("0x")` does.
pub open spec fn strip_hex_prefix(s: Seq<char>) -> Seq<char>
    decreases s.len(),
{
    if s.len() >= 2 && s[0] == '0' && s[1] == 'x' { strip_hex_prefix(s.subrange(2, s.len() as int)) } else { s }
}

/// Removes every leading `0x` (see `strip_hex_prefix`).
pub fn trim_hex_prefix(s: &str) -> (r: String)
    ensures
        r@ == strip_hex_prefix(s@),
{
    let cs = chars_of(s);
    let mut start: usize = 0;
    assert(cs@.subrange(0, cs@.len() as int) =~= cs@);
    while start < cs.len() && cs.len() - start >= 2 && cs[start] == '0' && cs[start + 1] == 'x'
        invariant
            cs@ == s@,
            start <= cs.len(),
            strip_hex_prefix(s@) == strip_hex_prefix(cs@.subrange(start as int, cs@.len() as int)),
        decreases cs.len() - start,
    {
        let ghost rest = cs@.subrange(start as int, cs@.len() as int);
        assert(rest.subrange(2, rest.len() as int) =~= cs@.subrange(start + 2, cs@.len() as int));
        start = start + 2;
    }
    proof {
        let rest = cs@.subrange(start as int, cs@.len() as int);
        assert(!(rest.len() >= 2 && rest[0] == '0' && rest[1] == 'x'));
    }
    crate::text::string_from_chars(&chars_range(&cs, start, cs.len()))
}

/// The value of a hexadecimal digit (upper or lower case), or -1.
pub open spec fn hex_value(c: char) -> int {
    if '0' <= c && c <= '9' { c as int - '0' as int }
    else if 'a' <= c && c <= 'f' { c as int - 'a' as int + 10 }
    else if 'A' <= c && c <= 'F' { c as int - 'A' as int + 10 }
    else { -1 }
}

/// The bytes written in `s`, two hexadecimal digits each: none unless `s`
/// has an even number of characters, all hexadecimal digits.
pub open spec fn hex_bytes(s: Seq<char>) -> Option<Seq<u8>> {
    if s.len() % 2 == 0 && forall|i: int| 0 <= i < s.len() ==> hex_value(#[trigger] s[i]) >= 0 {
        Some(Seq::new(s.len() / 2, |i: int| (hex_value(s[2 * i]) * 16 + hex_value(s[2 * i + 1])) as u8))
    } else {
        None
    }
}

/// Calls `hex::decode`: it fails on an odd length or a character that is not
/// a hexadecimal digit, and otherwise gives the bytes, high digit first.
#[verifier::external_body]
fn hex_decode(s: &str) -> (r: Option<Vec<u8>>)
    ensures
        match r {
            Some(v) => hex_bytes(s@) == Some(v@),
            None => hex_bytes(s@) is None,
        },
{
    hex::decode(s).ok()
}

/// The bytes of a signed transaction written in hexadecimal after any
/// number of `0x` prefixes.
pub fn signed_tx_bytes(signed_tx: &str) -> (r: Option<Vec<u8>>)
    ensures
        match r {
            Some(v) => hex_bytes(strip_hex_prefix(signed_tx@)) == Some(v@),
            None => hex_bytes(strip_hex_prefix(signed_tx@)) is None,
        },
{
    let body = trim_hex_prefix(signed_tx);
    hex_decode(body.as_str())
}

/// The health answer's fixed parts: status, version and message.
pub fn health_status() -> (r: (String, String, String))
    ensures
        r.0@ == "healthy"@,
        r.1@ == crate::logger::package_version(),
        r.2@ == "AirChainPay Relay Server is running"@,
{
    (owned("healthy"), owned("0.1.0"), owned("AirChainPay Relay Server is running"))
}

/// The unresolved alerts of `severity` among `alerts`.
pub open spec fn unresolved_count(alerts: Seq<Alert>, severity: AlertSeverity) -> nat
    decreases alerts.len(),
{
    if alerts.len() == 0 {
        0
    } else {
        unresolved_count(alerts.drop_last(), severity)
            + if !alerts.last().resolved && alerts.last().severity == severity { 1nat } else { 0nat }
    }
}

/// The resolved alerts among `alerts`.
pub open spec fn resolved_count(alerts: Seq<Alert>) -> nat
    decreases alerts.len(),
{
    if alerts.len() == 0 {
        0
    } else {
        resolved_count(alerts.drop_last()) + if alerts.last().resolved { 1nat } else { 0nat }
    }
}

/// Counts the unresolved alerts of `severity`.
pub fn count_unresolved(alerts: &Vec<Alert>, severity: AlertSeverity) -> (n: usize)
    ensures
        n == unresolved_count(alerts@, severity),
{
    let mut n: usize = 0;
    let mut i: usize = 0;
    while i < alerts.len()
        invariant
            i <= alerts@.len(),
            n <= i,
            n == unresolved_count(alerts@.subrange(0, i as int), severity),
        decreases alerts.len() - i,
    {
        assert(alerts@.subrange(0, i + 1).drop_last() =~= alerts@.subrange(0, i as int));
        if !alerts[i].resolved && alerts[i].severity == severity {
            n = n + 1;
        }
        i = i + 1;
    }
    assert(alerts@.subrange(0, alerts@.len() as int) =~= alerts@);
    n
}

/// Counts the resolved alerts.
pub fn count_resolved(alerts: &Vec<Alert>) -> (n: usize)
    ensures
        n == resolved_count(alerts@),
{
    let mut n: usize = 0;
    let mut i: usize = 0;
    while i < alerts.len()
        invariant
            i <= alerts@.len(),
            n <= i,
            n == resolved_count(alerts@.subrange(0, i as int)),
        decreases alerts.len() - i,
    {
        assert(alerts@.subrange(0, i + 1).drop_last() =~= alerts@.subrange(0, i as int));
        if alerts[i].resolved {
            n = n + 1;
        }
        i = i + 1;
    }
    assert(alerts@.subrange(0, alerts@.len() as int) =~= alerts@);
    n
}

/// The health endpoint's overall status: `unhealthy` while a critical alert
/// is unresolved, else `degraded` while the database or the chain is
/// unhealthy, else `healthy`.
pub open spec fn health_status_of(alerts: Seq<Alert>, db_healthy: bool, chain_healthy: bool) -> Seq<char> {
    if unresolved_count(alerts, AlertSeverity::Critical) > 0 {
        "unhealthy"@
    } else if !db_healthy || !chain_healthy {
        "degraded"@
    } else {
        "healthy"@
    }
}

/// The overall status of the health endpoint (see `health_status_of`).
pub fn overall_health(alerts: &Vec<Alert>, db_healthy: bool, chain_healthy: bool) -> (s: String)
    ensures
        s@ == health_status_of(alerts@, db_healthy, chain_healthy),
{
    if count_unresolved(alerts, AlertSeverity::Critical) > 0 {
        owned("unhealthy")
    } else if !db_healthy || !chain_healthy {
        owned("degraded")
    } else {
        owned("healthy")
    }
}

/// The alerts of the detailed health answer, counted: all of them, the
/// unresolved ones by severity, and the resolved ones.
pub struct AlertBreakdown {
    pub total: usize,
    pub critical: usize,
    pub warnings: usize,
    pub info: usize,
    pub resolved: usize,
}

/// Counts the alerts for the detailed health answer.
pub fn alert_breakdown(alerts: &Vec<Alert>) -> (b: AlertBreakdown)
    ensures
        b.total == alerts@.len(),
        b.critical == unresolved_count(alerts@, AlertSeverity::Critical),
        b.warnings == unresolved_count(alerts@, AlertSeverity::Warning),
        b.info == unresolved_count(alerts@, AlertSeverity::Info),
        b.resolved == resolved_count(alerts@),
{
    AlertBreakdown {
        total: alerts.len(),
        critical: count_unresolved(alerts, AlertSeverity::Critical),
        warnings: count_unresolved(alerts, AlertSeverity::Warning),
        info: count_unresolved(alerts, AlertSeverity::Info),
        resolved: count_resolved(alerts),
    }
}

/// The yes-or-no health checks of the health answer.
pub struct HealthChecks {
    pub system: bool,
    pub database: bool,
    pub blockchain: bool,
    pub ble: bool,
    pub configuration: bool,
}

/// The parts of the health answer that the relay decides: the overall
/// status, the alert counts and the health checks.
pub struct HealthReport {
    pub status: String,
    pub alerts: AlertBreakdown,
    pub health_checks: HealthChecks,
}

/// The health answer for the recent `alerts` and the state of the
/// database, the chain, the BLE radio and the configuration: the status of
/// `health_status_of`, the alerts counted, and the checks, where the system
/// check holds exactly when the status is `healthy` and the BLE check when
/// BLE is both enabled and initialized.
pub fn health_report(
    alerts: &Vec<Alert>,
    db_healthy: bool,
    chain_healthy: bool,
    ble_enabled: bool,
    ble_initialized: bool,
    config_valid: bool,
) -> (r: HealthReport)
    ensures
        r.status@ == health_status_of(alerts@, db_healthy, chain_healthy),
        r.alerts.total == alerts@.len(),
        r.alerts.critical == unresolved_count(alerts@, AlertSeverity::Critical),
        r.alerts.warnings == unresolved_count(alerts@, AlertSeverity::Warning),
        r.alerts.info == unresolved_count(alerts@, AlertSeverity::Info),
        r.alerts.resolved == resolved_count(alerts@),
        r.health_checks.system == (r.status@ == "healthy"@),
        r.health_checks.database == db_healthy,
        r.health_checks.blockchain == chain_healthy,
        r.health_checks.ble == (ble_enabled && ble_initialized),
        r.health_checks.configuration == config_valid,
{
    let status = overall_health(alerts, db_healthy, chain_healthy);
    let system = str_eq(status.as_str(), "healthy");
    HealthReport {
        status,
        alerts: alert_breakdown(alerts),
        health_checks: HealthChecks {
            system,
            database: db_healthy,
            blockchain: chain_healthy,
            ble: ble_enabled && ble_initialized,
            configuration: config_valid,
        },
    }
}

/// The detailed health endpoint's overall status: `critical` while a
/// critical alert is unresolved, else `degraded` while the database or the
/// chain is unhealthy, else `warning` while a warning is unresolved, else
/// `healthy`.
pub open spec fn detailed_status_of(critical: nat, warnings: nat, db_healthy: bool, chain_healthy: bool) -> Seq<char> {
    if critical > 0 {
        "critical"@
    } else if !db_healthy || !chain_healthy {
        "degraded"@
    } else if warnings > 0 {
        "warning"@
    } else {
        "healthy"@
    }
}

/// The overall status of the detailed health answer (see `detailed_status_of`).
pub fn detailed_health_status(b: &AlertBreakdown, db_healthy: bool, chain_healthy: bool) -> (s: String)
    ensures
        s@ == detailed_status_of(b.critical as nat, b.warnings as nat, db_healthy, chain_healthy),
{
    if b.critical > 0 {
        owned("critical")
    } else if !db_healthy || !chain_healthy {
        owned("degraded")
    } else if b.warnings > 0 {
        owned("warning")
    } else {
        owned("healthy")
    }
}

/// The overall health score of a status: 100 when healthy, 75 on a warning,
/// 50 when degraded, 25 otherwise.
pub open spec fn status_score(status: Seq<char>) -> u32 {
    if status == "healthy"@ { 100 } else if status == "warning"@ { 75 } else if status == "degraded"@ { 50 } else { 25 }
}

/// The overall health score (see `status_score`).
pub fn health_score(status: &str) -> (n: u32)
    ensures
        n == status_score(status@),
{
    if str_eq(status, "healthy") { 100 } else if str_eq(status, "warning") { 75 } else if str_eq(status, "degraded") { 50 } else { 25 }
}

/// A component's score: 100 when healthy, 25 otherwise.
pub fn component_score(healthy: bool) -> (n: u32)
    ensures
        n == if healthy { 100u32 } else { 25u32 },
{
    if healthy { 100 } else { 25 }
}

/// A component's status word.
pub fn component_status(healthy: bool) -> (s: String)
    ensures
        s@ == if healthy { "healthy"@ } else { "unhealthy"@ },
{
    if healthy { owned("healthy") } else { owned("unhealthy") }
}

/// The components whose health can be asked for one by one.
#[derive(Debug, Clone, Copy, PartialEq, Eq, Structural)]
pub enum HealthComponent {
    System,
    Database,
    Blockchain,
    Ble,
    Configuration,
}

/// The component a name asks for, if it names one.
pub open spec fn component_named(name: Seq<char>) -> Option<HealthComponent> {
    if name == "system"@ { Some(HealthComponent::System) }
    else if name == "database"@ { Some(HealthComponent::Database) }
    else if name == "blockchain"@ { Some(HealthComponent::Blockchain) }
    else if name == "ble"@ { Some(HealthComponent::Ble) }
    else if name == "configuration"@ { Some(HealthComponent::Configuration) }
    else { None }
}

/// The component a request asks for; an unknown name is answered 404 with
/// "Unknown component: {name}".
pub fn health_component(name: &str) -> (r: Result<HealthComponent, String>)
    ensures
        match component_named(name@) {
            Some(c) => r == Ok::<HealthComponent, String>(c),
            None => r is Err && r->Err_0@ == "Unknown component: "@ + name@,
        },
{
    if str_eq(name, "system") { Ok(HealthComponent::System) }
    else if str_eq(name, "database") { Ok(HealthComponent::Database) }
    else if str_eq(name, "blockchain") { Ok(HealthComponent::Blockchain) }
    else if str_eq(name, "ble") { Ok(HealthComponent::Ble) }
    else if str_eq(name, "configuration") { Ok(HealthComponent::Configuration) }
    else { Err(concat2("Unknown component: ", name)) }
}

/// A client token: issued for `api-client` with type `relay` when the
/// given API key is the expected one, refused with 401 "Invalid API key"
/// otherwise.
pub fn generate_token(secret: &str, api_key: &str, expected_api_key: &str) -> (r: Result<String, ApiRejection>)
    ensures
        api_key@ != expected_api_key@ ==> r is Err && r->Err_0.status == 401 && r->Err_0.error@ == "Invalid API key"@
            && r->Err_0.field is None,
        api_key@ == expected_api_key@ ==> r is Ok && exists|now: i64|
            now <= i64::MAX - TOKEN_LIFETIME_SECS && r->Ok_0@ == #[trigger] issued_token(secret@, "api-client"@, "relay"@, now),
{
    if !str_eq(api_key, expected_api_key) {
        return Err(ApiRejection { status: 401, error: owned("Invalid API key"), field: None });
    }
    Ok(AuthManager::generate_jwt_token(secret, "api-client", "relay"))
}

} // verus!
