use airchainpay_relay::api::{
    alert_breakdown, check_compressed_request, check_send_tx_request, compressed_payload_verdict, component_score, component_status,
    count_resolved, count_unresolved, detailed_health_status, generate_token, health_component, health_report, health_score, health_status, prometheus_metrics_text,
    overall_health, signed_tx_bytes, trim_hex_prefix, CompressedPayloadRequest, HealthComponent, PayloadKind,
    SendTxRequest,
};
use airchainpay_relay::auth::{verify_jwt_token, AuthManager};
use airchainpay_relay::monitoring::{Alert, AlertSeverity, PrometheusMetrics};
use airchainpay_relay::sanitizer::InputSanitizer;

fn send(signed_tx: &str, chain_id: u64, device_id: Option<&str>) -> SendTxRequest {
    SendTxRequest {
        signed_tx: signed_tx.to_string(),
        rpc_url: "https://rpc".to_string(),
        chain_id,
        device_id: device_id.map(|d| d.to_string()),
    }
}

fn compressed(chain_id: u64, device_id: Option<&str>, payload_type: &str) -> CompressedPayloadRequest {
    CompressedPayloadRequest {
        compressed_data: "AAAA".to_string(),
        payload_type: payload_type.to_string(),
        rpc_url: "https://rpc".to_string(),
        chain_id,
        device_id: device_id.map(|d| d.to_string()),
    }
}

fn alert(severity: AlertSeverity, resolved: bool) -> Alert {
    Alert {
        id: "id".to_string(),
        name: "n".to_string(),
        severity,
        message: "m".to_string(),
        timestamp: 0,
        resolved,
        metrics: PrometheusMetrics::new(),
    }
}

#[test]
fn send_tx_checks_in_order() {
    let s = InputSanitizer::new();
    assert!(check_send_tx_request(&s, &send("0xdeadbeef", 84532, Some("device-1"))).is_ok());
    let e = check_send_tx_request(&s, &send("deadbeef", 0, None)).err().unwrap();
    assert_eq!((e.status, e.error.as_str(), e.field.as_deref()), (400, "Invalid signed transaction format", Some("signed_tx")));
    let e = check_send_tx_request(&s, &send("0xab", 0, None)).err().unwrap();
    assert_eq!((e.error.as_str(), e.field.as_deref()), ("Invalid chain ID", Some("chain_id")));
    let e = check_send_tx_request(&s, &send("0xab", 1, Some("bad id!"))).err().unwrap();
    assert_eq!((e.error.as_str(), e.field.as_deref()), ("Invalid device ID format", Some("device_id")));
}

#[test]
fn compressed_requests_name_their_kind() {
    let s = InputSanitizer::new();
    assert_eq!(check_compressed_request(&s, &compressed(1, None, "ble")).ok(), Some((PayloadKind::Ble, vec![0, 0, 0])));
    assert_eq!(check_compressed_request(&s, &compressed(1, Some("dev"), "qr")).ok().map(|p| p.0), Some(PayloadKind::Qr));
    let e = check_compressed_request(&s, &compressed(1, None, "sms")).err().unwrap();
    assert_eq!(e.error, "Invalid payload type. Must be 'transaction', 'ble', or 'qr'");
    let e = check_compressed_request(&s, &compressed(1, None, &"t".repeat(21))).err().unwrap();
    assert_eq!(e.error, "Invalid payload type");
    let e = check_compressed_request(&s, &compressed(0, None, "ble")).err().unwrap();
    assert_eq!(e.field.as_deref(), Some("chain_id"));
}

#[test]
fn compressed_requests_need_base64_data() {
    let s = InputSanitizer::new();
    let mut req = compressed(1, None, "sms");
    req.compressed_data = "not base64!".to_string();
    let e = check_compressed_request(&s, &req).err().unwrap();
    assert_eq!((e.status, e.error.as_str(), e.field.as_deref()), (400, "Invalid base64 encoded compressed data", Some("compressed_data")));
    req.compressed_data = "aGVsbG8=".to_string();
    req.payload_type = "transaction".to_string();
    assert_eq!(check_compressed_request(&s, &req).ok(), Some((PayloadKind::Transaction, b"hello".to_vec())));
    let e = compressed_payload_verdict("ble", None).err().unwrap();
    assert_eq!(e.field.as_deref(), Some("compressed_data"));
    let e = compressed_payload_verdict("sms", Some(vec![1])).err().unwrap();
    assert_eq!(e.field.as_deref(), Some("payload_type"));
    assert_eq!(compressed_payload_verdict("qr", Some(vec![7, 8])).ok(), Some((PayloadKind::Qr, vec![7, 8])));
}

#[test]
fn signed_transactions_decode_from_hex() {
    assert_eq!(trim_hex_prefix("0x0xab"), "ab");
    assert_eq!(trim_hex_prefix("ab"), "ab");
    assert_eq!(signed_tx_bytes("0xdeAD01"), Some(vec![0xde, 0xad, 0x01]));
    assert_eq!(signed_tx_bytes("0xabc"), None);
    assert_eq!(signed_tx_bytes("0xzz"), None);
    assert_eq!(signed_tx_bytes(""), Some(vec![]));
}

#[test]
fn health_status_by_alerts_and_components() {
    let (status, version, message) = health_status();
    assert_eq!((status.as_str(), version.as_str(), message.as_str()), ("healthy", "0.1.0", "AirChainPay Relay Server is running"));
    let alerts = vec![
        alert(AlertSeverity::Critical, true),
        alert(AlertSeverity::Warning, false),
        alert(AlertSeverity::Info, false),
        alert(AlertSeverity::Warning, false),
    ];
    assert_eq!(count_unresolved(&alerts, AlertSeverity::Warning), 2);
    assert_eq!(count_unresolved(&alerts, AlertSeverity::Critical), 0);
    assert_eq!(count_resolved(&alerts), 1);
    assert_eq!(overall_health(&alerts, true, true), "healthy");
    assert_eq!(overall_health(&alerts, true, false), "degraded");
    let mut with_critical = alerts;
    with_critical.push(alert(AlertSeverity::Critical, false));
    assert_eq!(overall_health(&with_critical, false, false), "unhealthy");
    let b = alert_breakdown(&with_critical);
    assert_eq!((b.total, b.critical, b.warnings, b.info, b.resolved), (5, 1, 2, 1, 1));
    assert_eq!(detailed_health_status(&b, true, true), "critical");
    let calm = alert_breakdown(&vec![alert(AlertSeverity::Warning, false)]);
    assert_eq!(detailed_health_status(&calm, false, true), "degraded");
    assert_eq!(detailed_health_status(&calm, true, true), "warning");
    assert_eq!(health_score("warning"), 75);
    assert_eq!(health_score("critical"), 25);
    assert_eq!((component_score(true), component_score(false)), (100, 25));
    assert_eq!(component_status(false), "unhealthy");
    assert_eq!(health_component("ble"), Ok(HealthComponent::Ble));
    assert_eq!(health_component("disk"), Err("Unknown component: disk".to_string()));
}

#[test]
fn health_report_counts_alerts_and_checks() {
    let alerts = vec![alert(AlertSeverity::Warning, false), alert(AlertSeverity::Info, true)];
    let r = health_report(&alerts, true, true, true, false, true);
    assert_eq!(r.status, "healthy");
    assert!(r.health_checks.system && r.health_checks.database && r.health_checks.blockchain);
    assert!(!r.health_checks.ble && r.health_checks.configuration);
    assert_eq!((r.alerts.total, r.alerts.critical, r.alerts.warnings, r.alerts.info), (2, 0, 1, 0));
    let r = health_report(&alerts, false, true, true, true, false);
    assert_eq!(r.status, "degraded");
    assert!(!r.health_checks.system && r.health_checks.ble && !r.health_checks.configuration);
}

#[test]
fn token_revocation_line() {
    let m = AuthManager::new(Some("secret".to_string()));
    assert_eq!(m.revoke_device_token("dev-9"), "Token revoked for device: dev-9");
}

#[test]
fn client_tokens_need_the_api_key() {
    let e = generate_token("secret", "wrong", "dev_api_key").err().unwrap();
    assert_eq!((e.status, e.error.as_str()), (401, "Invalid API key"));
    let token = generate_token("secret", "dev_api_key", "dev_api_key").ok().unwrap();
    let claims = verify_jwt_token("secret", &token).unwrap();
    assert_eq!((claims.sub.as_str(), claims.typ.as_str()), ("api-client", "relay"));
    assert_eq!(claims.exp - claims.iat, 86400);
}

#[test]
fn prometheus_text_lists_the_counters() {
    let mut m = PrometheusMetrics::new();
    m.transactions_received = 7;
    m.memory_usage_bytes = 1024;
    let t = prometheus_metrics_text(&m);
    assert!(t.starts_with("# HELP airchainpay_transactions_received_total Total number of transactions received\n# TYPE airchainpay_transactions_received_total counter\nairchainpay_transactions_received_total 7\n\n"));
    assert!(t.contains("airchainpay_rpc_errors_total 0\n"));
    assert!(t.ends_with("# TYPE airchainpay_memory_usage_bytes gauge\nairchainpay_memory_usage_bytes 1024\n\n"));
    assert_eq!(t.matches("# HELP ").count(), 15);
}
