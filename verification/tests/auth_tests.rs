use base64::Engine;
use airchainpay_relay::auth::{verify_jwt_token, AuthManager, AuthRequest};

const TEST_SECRET: &str = "relay_test_secret";

#[test]
fn test_jwt_secret_generation() {
    let secret1 = AuthManager::generate_jwt_secret();
    let secret2 = AuthManager::generate_jwt_secret();

    assert_eq!(secret1.len(), 128);
    assert_ne!(secret1, secret2);
}

#[test]
fn test_jwt_token_generation_and_verification() {
    let token = AuthManager::generate_jwt_token(TEST_SECRET, "test_device", "device");
    assert!(!token.is_empty());

    let claims = AuthManager::verify_jwt_token(TEST_SECRET, &token).unwrap();
    assert_eq!(claims.sub, "test_device");
    assert_eq!(claims.typ, "device");
}

#[test]
fn test_api_key_generation() {
    let api_key1 = AuthManager::generate_api_key();
    let api_key2 = AuthManager::generate_api_key();

    assert_eq!(api_key1.len(), 64);
    assert_ne!(api_key1, api_key2);
}

#[test]
fn test_production_secrets_generation() {
    let secrets = AuthManager::generate_production_secrets();

    assert!(secrets.contains_key("JWT_SECRET"));
    assert!(secrets.contains_key("API_KEY"));
    assert!(secrets.contains_key("DATABASE_PASSWORD"));
    assert!(secrets.contains_key("REDIS_PASSWORD"));
    assert!(secrets.contains_key("ENCRYPTION_KEY"));

    assert_eq!(secrets.get("JWT_SECRET").unwrap().len(), 128);
    assert_eq!(secrets.get("API_KEY").unwrap().len(), 64);
    assert_eq!(secrets.get("DATABASE_PASSWORD").unwrap().len(), 16);
    assert_eq!(secrets.get("REDIS_PASSWORD").unwrap().len(), 16);
    assert_eq!(secrets.get("ENCRYPTION_KEY").unwrap().len(), 32);
}

#[test]
fn token_round_trip_keeps_claims() {
    let token = AuthManager::generate_jwt_token_at(TEST_SECRET, "device-7", "device", 4_000_000_000);
    let claims = verify_jwt_token(TEST_SECRET, &token).unwrap();
    assert_eq!(claims.sub, "device-7");
    assert_eq!(claims.typ, "device");
    assert_eq!(claims.iat, 4_000_000_000);
    assert_eq!(claims.exp, 4_000_086_400);
}

#[test]
fn token_from_another_secret_is_refused() {
    let token = AuthManager::generate_jwt_token("one_secret", "device-7", "device");
    assert!(verify_jwt_token("another_secret", &token).is_err());
}

#[test]
fn expired_token_is_refused() {
    let token = AuthManager::generate_jwt_token_at(TEST_SECRET, "device-7", "device", 1_000_000);
    assert!(verify_jwt_token(TEST_SECRET, &token).is_err());
}

#[test]
fn device_claims_checks_type_then_expiry() {
    let manager = AuthManager::new(Some(TEST_SECRET.to_string()));
    let token = AuthManager::generate_jwt_token(TEST_SECRET, "device-9", "device");
    assert_eq!(manager.validate_device_token(&token).unwrap(), "device-9");

    let user_token = AuthManager::generate_jwt_token(TEST_SECRET, "someone", "user");
    assert_eq!(manager.validate_device_token(&user_token).unwrap_err(), "Invalid token type");

    let claims = AuthManager::verify_jwt_token(TEST_SECRET, &token).unwrap();
    assert_eq!(AuthManager::check_device_claims(&claims, claims.exp + 1).unwrap_err(), "Token expired");
    assert_eq!(AuthManager::check_device_claims(&claims, claims.exp).unwrap(), "device-9");
}

#[test]
fn authentication_requires_both_fields() {
    let manager = AuthManager::new(Some(TEST_SECRET.to_string()));
    let missing_device = AuthRequest { device_id: String::new(), public_key: "key".to_string() };
    assert_eq!(manager.authenticate_device(&missing_device).err().unwrap(), "Device ID is required");
    let missing_key = AuthRequest { device_id: "device-1".to_string(), public_key: String::new() };
    assert_eq!(manager.authenticate_device(&missing_key).err().unwrap(), "Public key is required");
    let ok = AuthRequest { device_id: "device-1".to_string(), public_key: "key".to_string() };
    let response = manager.authenticate_device(&ok).unwrap();
    assert_eq!(response.status, "authenticated");
    let claims = verify_jwt_token(TEST_SECRET, &response.token).unwrap();
    assert_eq!(claims.sub, "device-1");
    assert_eq!(claims.exp - claims.iat, 86400);
}

#[test]
fn refresh_keeps_the_device() {
    let manager = AuthManager::new(Some(TEST_SECRET.to_string()));
    let token = AuthManager::generate_jwt_token(TEST_SECRET, "device-3", "device");
    let refreshed = manager.refresh_device_token(&token).unwrap();
    assert_eq!(refreshed.status, "refreshed");
    assert_eq!(manager.get_token_info(&refreshed.token).unwrap().sub, "device-3");
}

#[test]
fn secrets_are_lowercase_hex_and_passwords_alphanumeric() {
    let secret = AuthManager::generate_jwt_secret();
    assert!(secret.chars().all(|c| c.is_ascii_hexdigit() && !c.is_ascii_uppercase()));
    let password = AuthManager::generate_random_string(40);
    assert_eq!(password.chars().count(), 40);
    assert!(password.chars().all(|c| c.is_ascii_alphanumeric()));
}

#[test]
fn configured_secret_and_key_are_used() {
    let manager = AuthManager::new(Some("configured".to_string()));
    assert_eq!(manager.jwt_secret, "configured");
    assert_eq!(AuthManager::get_or_generate_api_key(Some("k1".to_string())), "k1");
    assert_eq!(AuthManager::get_or_generate_api_key(None).len(), 64);
    assert!(manager.validate_api_key("dev_api_key", "dev_api_key"));
    assert!(!manager.validate_api_key("other", "dev_api_key"));
}

#[test]
fn tokens_have_three_parts_and_malformed_ones_are_refused() {
    let t = AuthManager::generate_jwt_token(TEST_SECRET, "dev", "device");
    assert_eq!(t.matches('.').count(), 2);
    assert!(verify_jwt_token(TEST_SECRET, "not-a-token").is_err());
    assert!(verify_jwt_token(TEST_SECRET, "a.b").is_err());
    assert!(verify_jwt_token(TEST_SECRET, &format!("{t}.extra")).is_err());
    let m = AuthManager::new(None);
    assert!(m.jwt_secret.chars().all(|c| c.is_ascii_hexdigit() && !c.is_ascii_uppercase()));
}

#[test]
fn verification_at_a_given_time_allows_a_minute_of_leeway() {
    let t = AuthManager::generate_jwt_token_at(TEST_SECRET, "dev-9", "device", 1_000);
    let c = AuthManager::verify_jwt_token_at(TEST_SECRET, &t, 87_460).unwrap();
    assert_eq!((c.sub.as_str(), c.exp, c.iat, c.typ.as_str()), ("dev-9", 87_400, 1_000, "device"));
    let e = AuthManager::verify_jwt_token_at(TEST_SECRET, &t, 87_461).err().unwrap();
    assert_eq!(e, "ExpiredSignature");
    assert!(AuthManager::verify_jwt_token_at("other", &t, 2_000).is_err());
    let m = AuthManager::new(Some(TEST_SECRET.to_string()));
    let info = m.get_token_info_at(&t, 2_000).unwrap();
    assert_eq!((info.sub, info.exp), ("dev-9".to_string(), 87_400));
    assert_eq!(m.get_token_info_at(&t, 90_000).err(), Some("ExpiredSignature".to_string()));
}

#[test]
fn device_tokens_are_checked_at_a_given_time() {
    let m = AuthManager::new(Some(TEST_SECRET.to_string()));
    let t = AuthManager::generate_jwt_token_at(TEST_SECRET, "dev-3", "device", 1_000);
    assert_eq!(m.validate_device_token_at(&t, 87_400), Ok("dev-3".to_string()));
    assert_eq!(m.validate_device_token_at(&t, 87_430), Err("Token expired".to_string()));
    assert_eq!(m.validate_device_token_at(&t, 90_000), Err("ExpiredSignature".to_string()));
    let api = AuthManager::generate_jwt_token_at(TEST_SECRET, "dev-3", "api", 1_000);
    assert_eq!(m.validate_device_token_at(&api, 2_000), Err("Invalid token type".to_string()));
}

#[test]
fn token_claims_are_written_in_struct_order() {
    let t = AuthManager::generate_jwt_token_at(TEST_SECRET, "dev", "device", 5);
    let payload = t.split('.').nth(1).unwrap();
    let json = base64::engine::general_purpose::URL_SAFE_NO_PAD.decode(payload).unwrap();
    assert_eq!(String::from_utf8(json).unwrap(), r#"{"sub":"dev","exp":86405,"iat":5,"typ":"device"}"#);
}
