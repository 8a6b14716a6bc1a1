use airchainpay_relay::security::validate_device_id;

#[test]
fn test_device_id_validation() {
    assert!(validate_device_id("device-123"));
    assert!(validate_device_id("device_123"));
    assert!(!validate_device_id("device@123"));
    assert!(!validate_device_id(""));
}

#[test]
fn device_id_length_counts_bytes() {
    assert!(validate_device_id(&"a".repeat(100)));
    assert!(!validate_device_id(&"a".repeat(101)));
    assert!(validate_device_id(&"é".repeat(50)));
    assert!(!validate_device_id(&"é".repeat(51)));
}
