use airchainpay_relay::blockchain::{next_receipt_action, receipt_timeout_message, BlockchainManager, ReceiptAction};
use airchainpay_relay::collections::StrMap;
use airchainpay_relay::config::{Config, Deployment};
use airchainpay_relay::storage::{Device, Storage, Transaction};

fn env(pairs: &[(&str, &str)]) -> StrMap<String> {
    let mut m = StrMap::new();
    for (k, v) in pairs {
        m.insert(k.to_string(), v.to_string());
    }
    m
}

fn tx(id: &str, device: Option<&str>) -> Transaction {
    Transaction::assemble(
        "0xabc".to_string(),
        1,
        device.map(|d| d.to_string()),
        id.to_string(),
        "2024-01-01T00:00:00Z".to_string(),
        "relay".to_string(),
    )
}

#[test]
fn development_config_uses_defaults() {
    let c = Config::new(&env(&[])).ok().unwrap();
    assert_eq!(c.chain_id, 84532);
    assert_eq!(c.port, 4000);
    assert_eq!(c.log_level, "debug");
    assert_eq!(c.api_key, "dev_api_key");
    assert_eq!(c.rate_limits.max_requests, 1000);
    assert_eq!(c.rate_limits.window_ms, 900_000);
    assert!(c.debug);
    assert_eq!(c.supported_chains.len(), 5);
    assert_eq!(c.get_chain_config(1114).unwrap().currency_symbol.as_deref(), Some("TCORE2"));
    assert!(c.get_chain_config(1).is_none());
}

#[test]
fn config_rejects_bad_numbers() {
    let e = Config::new(&env(&[("PORT", "70000")])).err().unwrap();
    assert_eq!(e, "Invalid value for PORT");
    let e = Config::new(&env(&[("CHAIN_ID", "abc")])).err().unwrap();
    assert_eq!(e, "Invalid value for CHAIN_ID");
}

#[test]
fn staging_and_production_require_secrets() {
    let e = Config::new(&env(&[("RUST_ENV", "staging")])).err().unwrap();
    assert_eq!(e, "API_KEY required in staging");
    let e = Config::new(&env(&[("RUST_ENV", "staging"), ("API_KEY", ""), ("JWT_SECRET", "s")])).err().unwrap();
    assert_eq!(e, "API_KEY is required in staging environment");
    let ok = Config::new(&env(&[("RUST_ENV", "staging"), ("API_KEY", "k"), ("JWT_SECRET", "s")])).ok().unwrap();
    assert_eq!(ok.log_level, "info");
    assert_eq!(ok.rate_limits.max_requests, 500);
    let e = Config::new(&env(&[("RUST_ENV", "production")])).err().unwrap();
    assert_eq!(e, "RPC_URL required in production");
    let full = [
        ("RUST_ENV", "production"),
        ("RPC_URL", "https://rpc"),
        ("CHAIN_ID", "1114"),
        ("CONTRACT_ADDRESS", ""),
        ("API_KEY", "k"),
        ("JWT_SECRET", "s"),
    ];
    let e = Config::new(&env(&full)).err().unwrap();
    assert_eq!(e, "CONTRACT_ADDRESS is required in production environment");
    let mut good = full.to_vec();
    good[3] = ("CONTRACT_ADDRESS", "0x1");
    good.push(("ENABLE_CORS", "false"));
    let c = Config::new(&env(&good)).ok().unwrap();
    assert_eq!(c.chain_id, 1114);
    assert_eq!(c.log_level, "warn");
    assert!(!c.enable_cors);
    assert!(c.enable_rate_limiting);
    assert!(c.validate(Deployment::Production).is_ok());
    assert_eq!(c.get_chain_config(1114).unwrap().rpc_url, "https://rpc");
}

#[test]
fn transaction_hash_covers_tx_chain_and_device() {
    let t = tx("a", Some("dev"));
    assert_eq!(t.status, "pending");
    assert!(t.tx_hash.is_none());
    assert_eq!(t.security.hash, "869f09ad196e50640a4ae4b3bb1c1fc123f25eaf18777164325b9088ee07a8fa");
    let fresh = Transaction::new("0xabc".to_string(), 84532, None, "relay".to_string());
    assert_eq!(fresh.security.hash, "e7fe2f7b2506b849ca7bf9bfe1cdf6683c2eb422304d874c4d5b7c0e4da1a27b");
    assert_eq!(fresh.security.created_at, fresh.timestamp);
    assert_eq!(fresh.id.len(), 36);
}

#[test]
fn storage_reads_back_what_it_saved() {
    let mut s = Storage::new("now".to_string());
    s.save_transaction(tx("a", Some("d1")));
    s.save_transaction(tx("b", Some("d2")));
    s.save_transaction(tx("c", Some("d1")));
    assert_eq!(s.get_transaction("b").unwrap().device_id.as_deref(), Some("d2"));
    assert!(s.get_transaction("zz").is_none());
    let newest: Vec<String> = s.get_transactions(2).into_iter().map(|t| t.id).collect();
    assert_eq!(newest, vec!["c", "b"]);
    let pending: Vec<String> = s.get_pending_transactions_for_device("d1").into_iter().map(|t| t.id).collect();
    assert_eq!(pending, vec!["a", "c"]);
    assert!(s.save_transaction_hash("a", "0xhash"));
    assert_eq!(s.get_transaction("a").unwrap().tx_hash.as_deref(), Some("0xhash"));
    assert!(!s.save_transaction_hash("zz", "0x"));
    let mut done = tx("c", Some("d1"));
    done.status = "confirmed".to_string();
    assert!(s.update_transaction(done));
    let pending: Vec<String> = s.get_pending_transactions_for_device("d1").into_iter().map(|t| t.id).collect();
    assert_eq!(pending, vec!["a"]);
    s.save_device(Device::new("d1".to_string(), "now".to_string()));
    assert_eq!(s.get_device("d1").unwrap().id, "d1");
    assert!(s.get_device("d9").is_none());
}

#[test]
fn storage_keeps_the_newest_thousand() {
    let mut s = Storage::new("now".to_string());
    for i in 0..1005 {
        s.save_transaction(tx(&i.to_string(), None));
    }
    let all = s.get_all_transactions();
    assert_eq!(all.len(), 1000);
    assert_eq!(all[0].id, "5");
    assert_eq!(all[999].id, "1004");
}

#[test]
fn storage_counters() {
    let mut s = Storage::new("now".to_string());
    assert!(s.update_metrics("transactions_received", 2).is_ok());
    assert!(s.update_metrics("transactions_received", 3).is_ok());
    assert_eq!(s.get_metrics().transactions_received, 5);
    assert_eq!(s.update_metrics("bogus", 1).unwrap_err(), "Unknown metric field: bogus");
}

#[test]
fn receipt_polling_gives_up_after_sixty_queries() {
    assert_eq!(next_receipt_action(0, true), ReceiptAction::Done);
    assert_eq!(next_receipt_action(0, false), ReceiptAction::WaitThenPoll(1));
    assert_eq!(next_receipt_action(59, false), ReceiptAction::WaitThenGiveUp);
    assert_eq!(receipt_timeout_message(), "Transaction receipt not found after 60 attempts");
    let m = BlockchainManager::new(Config::new(&env(&[])).ok().unwrap());
    assert_eq!(m.get_network_status(), ("healthy".to_string(), 5));
    assert_eq!(BlockchainManager::missing_provider_message(7), "No provider found for chain ID: 7");
    assert_eq!(m.get_chain_config(84532).unwrap().name, "Base Sepolia");
}
