use airchainpay_relay::ble::manager::{
    AuthStatus, BLEManager, DeviceStatus, KeyExchangeStatus, RateLimitTracker, ScannedPeripheral, TransactionStatus,
};

fn peripheral(id: &str, name: Option<&str>) -> ScannedPeripheral {
    ScannedPeripheral { id: id.to_string(), local_name: name.map(|n| n.to_string()), rssi: Some(-40) }
}

#[test]
fn key_pairs_are_hex() {
    let (private_key, public_key) = BLEManager::generate_key_pair();
    assert_eq!(private_key.len(), 64);
    assert_eq!(public_key.len(), 64);
    assert!(private_key.chars().all(|c| c.is_ascii_hexdigit() && !c.is_ascii_uppercase()));
}

#[test]
fn scan_keeps_relay_peripherals() {
    let mut m = BLEManager::new(0);
    let found = m.record_scan(
        vec![
            peripheral("a", Some("AirChainPay-1")),
            peripheral("b", Some("Headphones")),
            peripheral("c", None),
            peripheral("d", Some("my AirChainPay wallet")),
        ],
        5_000,
        120,
    );
    let ids: Vec<&str> = found.iter().map(|d| d.id.as_str()).collect();
    assert_eq!(ids, vec!["a", "d"]);
    assert_eq!(found[0].last_seen, 5);
    assert_eq!(found[0].status, DeviceStatus::Disconnected);
    assert_eq!(found[0].auth_status, AuthStatus::Pending);
    let stored = m.devices.get("d").unwrap();
    assert!(!stored.is_connected);
    assert_eq!(stored.status, DeviceStatus::Disconnected);
    assert_eq!(stored.name.as_deref(), Some("my AirChainPay wallet"));
    assert_eq!(stored.last_seen, 5);
    assert!(m.devices.get("b").is_none());
    assert_eq!(m.status.total_devices_discovered, 2);
    assert_eq!(m.status.last_scan_time, Some(5_000));
    assert_eq!(m.get_status().scan_duration_ms, 120);
}

#[test]
fn connections_are_rate_limited_and_blocked_devices_refused() {
    let mut m = BLEManager::new(0);
    for i in 0..5 {
        assert!(m.prepare_connect("dev", i).is_ok());
    }
    assert_eq!(m.prepare_connect("dev", 6).unwrap_err(), "Connection rate limit exceeded for device");
    assert!(m.prepare_connect("dev", 60_006).is_ok());
    m.block_device("other", "abuse", 1_000);
    assert!(m.is_device_blocked("other", 1_000));
    assert_eq!(m.prepare_connect("other", 2_000).unwrap_err(), "Device is blocked");
    assert!(!m.is_device_blocked("other", 301_000));
    m.unblock_device("other");
    assert!(m.prepare_connect("other", 3_000).is_ok());
    assert_eq!(m.status.blocked_devices, 0);
}

#[test]
fn finishing_a_connection_updates_the_device_and_counters() {
    let mut m = BLEManager::new(0);
    let _ = m.record_scan(vec![peripheral("a", Some("AirChainPay"))], 1_000, 1);
    assert!(m.finish_connect("a", true, 9_000).is_ok());
    assert_eq!(m.status.connected_devices, 1);
    assert_eq!(m.status.active_connections, 1);
    assert_eq!(m.finish_connect("a", false, 9_000).unwrap_err(), "Failed to establish connection");
    assert_eq!(m.status.failed_connections, 1);
    assert_eq!(m.get_connected_devices(), vec!["a".to_string()]);
}

#[test]
fn transactions_need_authentication() {
    let mut m = BLEManager::new(0);
    assert_eq!(m.send_transaction("dev", "data", 0).unwrap_err(), "Device not authenticated");
    let r = m.authenticate_device("dev", "pk", 0);
    assert!(r.is_ok());
    assert!(m.is_device_authenticated("dev"));
    assert_eq!(m.auth_challenges.get("dev").unwrap().challenge.len(), 64);
    let id = m.send_transaction("dev", "data", 1_000).unwrap();
    assert_eq!(m.get_transaction_status(&id), Some(TransactionStatus::Pending));
    assert_eq!(m.get_transaction_status("nope"), None);
    let id2 = m.send_transaction_with("dev", "more", 2_000, "tx-2".to_string()).unwrap();
    assert_eq!(id2, "tx-2");
    assert_eq!(m.transactions.get("tx-2").unwrap().timestamp, 2);
}

#[test]
fn authentication_outcomes_are_recorded() {
    let mut m = BLEManager::new(0);
    assert_eq!(m.authenticate_device_with("d", "pk", 0, "c".repeat(64), false), Ok(false));
    assert_eq!(m.authenticate_device_with("e", "pk", 0, "c".repeat(64), true), Ok(true));
    m.block_device("f", "x", 0);
    assert_eq!(m.authenticate_device_with("f", "pk", 10, "c".to_string(), true).unwrap_err(), "Device is blocked");
}

#[test]
fn key_exchange_follows_authentication() {
    let mut m = BLEManager::new(0);
    assert_eq!(m.initiate_key_exchange("dev", 0).unwrap_err(), "Device not authenticated");
    assert_eq!(m.complete_key_exchange("dev", "pk").unwrap_err(), "No key exchange in progress");
    let _ = m.authenticate_device_with("dev", "pk", 0, "c".to_string(), true);
    assert_eq!(m.initiate_key_exchange("dev", 5), Ok(true));
    assert_eq!(m.get_key_exchange_status("dev"), Some(KeyExchangeStatus::Pending));
    let ours = m.key_exchange_state.get("dev").unwrap().dh_public_key.clone();
    assert_eq!(m.complete_key_exchange("dev", "theirs"), Ok(true));
    assert_eq!(m.get_key_exchange_status("dev"), Some(KeyExchangeStatus::Completed));
    let expected = m.derive_session_key(&ours, "theirs", "dev");
    assert_eq!(m.session_keys.get("dev").unwrap(), &expected);
    assert_eq!(expected.len(), 64);
    assert!(m.rotate_session_key("dev"));
    assert_ne!(m.session_keys.get("dev").unwrap(), &expected);
}

#[test]
fn tracker_admits_within_the_window() {
    let mut t = RateLimitTracker::new(2, 1_000);
    assert!(t.check_and_record(0));
    assert!(t.check_and_record(10));
    assert!(!t.check_and_record(20));
    assert!(t.check_and_record(1_001));
}

#[test]
fn errors_are_kept_on_the_status() {
    let mut m = BLEManager::new(0);
    m.record_error("adapter lost".to_string());
    assert_eq!(m.get_status().last_error.as_deref(), Some("adapter lost"));
    assert!(!m.is_connection_cap_reached());
}
