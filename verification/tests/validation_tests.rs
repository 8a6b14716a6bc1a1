use airchainpay_relay::collections::StrMap;
use airchainpay_relay::middleware::input_validation::{
    query_pairs, validate_auth_request, validate_ble_request, validate_compressed_payload_request,
    validate_request, validate_transaction_request, InputValidationMiddleware, ValidationConfig,
};
use airchainpay_relay::sanitizer::{InputSanitizer, JsonValue};

#[test]
fn test_validation_config_default() {
    let config = ValidationConfig::default();
    assert!(config.required_fields.is_empty());
    assert!(config.field_types.is_empty());
}

#[test]
fn test_input_validation_middleware_builder() {
    let middleware = InputValidationMiddleware::new(ValidationConfig::default())
        .with_required_fields(vec!["test".to_string()])
        .with_field_types({
            let mut types = StrMap::new();
            types.insert("test".to_string(), "string".to_string());
            types
        });

    assert_eq!(middleware.config.required_fields.len(), 1);
    assert_eq!(middleware.config.field_types.len(), 1);
}

#[test]
fn test_validate_transaction_request() {
    let middleware = validate_transaction_request();
    assert!(middleware.config.required_fields.contains(&"signed_tx".to_string()));
    assert!(middleware.config.required_fields.contains(&"chain_id".to_string()));
}

#[test]
fn test_validate_ble_request() {
    let middleware = validate_ble_request();
    assert!(middleware.config.required_fields.contains(&"device_id".to_string()));
}

#[test]
fn test_validate_auth_request() {
    let middleware = validate_auth_request();
    assert!(middleware.config.required_fields.contains(&"device_id".to_string()));
    assert!(middleware.config.required_fields.contains(&"public_key".to_string()));
}

fn body(pairs: &[(&str, JsonValue)]) -> StrMap<JsonValue> {
    let mut m = StrMap::new();
    for (k, v) in pairs {
        m.insert(k.to_string(), v.clone());
    }
    m
}

#[test]
fn transaction_request_accepts_a_good_body() {
    let m = validate_transaction_request().into_service();
    let b = body(&[
        ("signed_tx", JsonValue::Str("0xabcdef01".to_string())),
        ("chain_id", JsonValue::Str("84532".to_string())),
        ("device_id", JsonValue::Str("device-1".to_string())),
    ]);
    let r = m.validate(&b, &StrMap::new(), &StrMap::new());
    assert!(r.valid, "{:?}", r.errors);
    assert!(r.errors.is_empty());
}

#[test]
fn transaction_request_reports_errors_in_check_order() {
    let m = validate_transaction_request().into_service();
    let b = body(&[
        ("signed_tx", JsonValue::Str("zz".to_string())),
        ("device_id", JsonValue::Str("bad device".to_string())),
    ]);
    let r = m.validate(&b, &StrMap::new(), &StrMap::new());
    assert!(!r.valid);
    assert_eq!(
        r.errors,
        vec![
            "Missing required field: chain_id".to_string(),
            "Invalid type for field signed_tx: Invalid hash format".to_string(),
            "Invalid type for field device_id: Invalid device ID format".to_string(),
            "Invalid transaction hash: signed_tx".to_string(),
            "Invalid device ID: device_id".to_string(),
        ]
    );
}

#[test]
fn required_fields_may_come_from_path_or_query() {
    let m = validate_ble_request().into_service();
    let mut params = StrMap::new();
    params.insert("device_id".to_string(), "device_9".to_string());
    let r = m.validate(&StrMap::new(), &params, &StrMap::new());
    assert!(r.valid, "{:?}", r.errors);
    let r = m.validate(&StrMap::new(), &StrMap::new(), &StrMap::new());
    assert_eq!(r.errors, vec!["Missing required field: device_id".to_string()]);
}

#[test]
fn types_number_and_boolean_and_lengths() {
    let mut types = StrMap::new();
    types.insert("amount".to_string(), "number".to_string());
    types.insert("flag".to_string(), "boolean".to_string());
    types.insert("who".to_string(), "address".to_string());
    let mut lengths = StrMap::new();
    lengths.insert("note".to_string(), 3usize);
    let m = InputValidationMiddleware::new(ValidationConfig::default())
        .with_field_types(types)
        .with_field_lengths(lengths)
        .into_service();
    let b = body(&[
        ("amount", JsonValue::Bool(true)),
        ("flag", JsonValue::Str("yes".to_string())),
        ("who", JsonValue::Str("0x1234".to_string())),
        ("note", JsonValue::Str("héllo".to_string())),
    ]);
    let r = m.validate(&b, &StrMap::new(), &StrMap::new());
    assert_eq!(
        r.errors,
        vec![
            "Invalid type for field amount: Field is not a number".to_string(),
            "Invalid type for field flag: Invalid boolean value".to_string(),
            "Invalid type for field who: Invalid Ethereum address format".to_string(),
            "Field note too long (max: 3)".to_string(),
        ]
    );
    let good = body(&[
        ("amount", JsonValue::Number),
        ("flag", JsonValue::Bool(false)),
        ("who", JsonValue::Str(format!("0x{}", "a".repeat(40)))),
        ("note", JsonValue::Str("abc".to_string())),
    ]);
    assert!(m.validate(&good, &StrMap::new(), &StrMap::new()).valid);
}

#[test]
fn injection_is_found_in_every_part_of_a_request() {
    let m = validate_compressed_payload_request().into_service();
    let b = body(&[
        ("compressed_data", JsonValue::Str("abc".to_string())),
        ("payload_type", JsonValue::Str("<script>".to_string())),
        ("chain_id", JsonValue::Str("1".to_string())),
    ]);
    let mut query = StrMap::new();
    query.insert("q".to_string(), "a;b".to_string());
    let r = validate_request(&m.sanitizer, &m.config, &b, &StrMap::new(), &query);
    assert_eq!(
        r.errors,
        vec![
            "Suspicious input in field payload_type: SQL injection pattern detected: SCRIPT".to_string(),
            "Suspicious input in field q: Command injection detected: ;".to_string(),
        ]
    );
}

#[test]
fn chain_id_must_be_positive() {
    let s = InputSanitizer::new();
    assert!(s.sanitize_chain_id("0").is_err());
    assert!(s.sanitize_chain_id("+7").is_ok());
    assert!(s.sanitize_chain_id("18446744073709551616").is_err());
    assert_eq!(s.sanitize_string("abcd", Some(3)).unwrap_err(), "String exceeds maximum length of 3");
    assert_eq!(s.sanitize_number("12", Some(20), None).unwrap_err(), "Number out of range");
}

#[test]
fn query_string_pairs() {
    let m = query_pairs("a=1&b=2=3&c&a=4");
    assert_eq!(m.len(), 2);
    assert_eq!(m.get("a").unwrap(), "4");
    assert_eq!(m.get("b").unwrap(), "2");
    assert!(m.get("c").is_none());
}
