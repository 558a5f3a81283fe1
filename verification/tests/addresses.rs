use identity_core::device::DeviceId;

#[test]
fn create_delivery_address_returns_prefix_at_server() {
    let mut device = DeviceId::generate();
    let addr = device.create_delivery_address("chat.example.com");
    // 16 random bytes hex-encoded: 32 lowercase hex digits, then '@server'.
    assert_eq!(addr.len(), 32 + 1 + "chat.example.com".len());
    let (prefix, rest) = addr.split_at(32);
    assert!(prefix.chars().all(|c| c.is_ascii_hexdigit() && !c.is_ascii_uppercase()));
    assert_eq!(rest, "@chat.example.com");
    assert_eq!(device.active_addresses(), vec![addr]);
}

#[test]
fn deactivated_address_never_reappears_in_active_queries() {
    let mut device = DeviceId::generate();
    let server = "chat.example.com".to_string();
    let a1 = device.create_delivery_address(&server);
    let a2 = device.create_delivery_address(&server);
    let a3 = device.create_delivery_address("other.example.org");
    assert_eq!(device.active_addresses(), vec![a1.clone(), a2.clone(), a3.clone()]);

    device.burn_address(&a2);
    assert_eq!(device.active_addresses(), vec![a1.clone(), a3.clone()]);
    assert_eq!(device.active_addresses_for_server(&server), vec![a1.clone()]);

    // Deactivation is idempotent and silent on a miss.
    device.burn_address(&a2);
    device.burn_address(&"unknown@nowhere.example".to_string());
    assert_eq!(device.active_addresses(), vec![a1.clone(), a3.clone()]);

    // Later operations never resurrect the burned address.
    let a4 = device.create_delivery_address(&server);
    assert_eq!(device.active_addresses(), vec![a1.clone(), a3.clone(), a4.clone()]);
    assert_eq!(device.active_addresses_for_server(&server), vec![a1, a4]);
    assert!(!device.active_addresses().contains(&a2));
}

#[test]
fn active_addresses_for_server_filters_and_keeps_insertion_order() {
    let mut device = DeviceId::generate();
    let s1 = "one.example".to_string();
    let s2 = "two.example".to_string();
    let a = device.create_delivery_address(&s1);
    let b = device.create_delivery_address(&s2);
    let c = device.create_delivery_address(&s1);
    assert_eq!(device.active_addresses_for_server(&s1), vec![a.clone(), c.clone()]);
    assert_eq!(device.active_addresses_for_server(&s2), vec![b.clone()]);
    assert_eq!(device.active_addresses(), vec![a, b, c]);
    assert!(device.active_addresses_for_server(&"three.example".to_string()).is_empty());
}

#[test]
fn device_id_verification_survives_address_operations() {
    let mut device = DeviceId::generate();
    assert!(device.verify_device_id());
    let addr = device.create_delivery_address("chat.example.com");
    assert!(device.verify_device_id());
    device.burn_address(&addr);
    assert!(device.verify_device_id());
    let _ = device.active_addresses();
    let _ = device.active_addresses_for_server(&"chat.example.com".to_string());
    assert!(device.verify_device_id());
    device.set_display_name("Alice's Phone".to_string());
    assert!(device.verify_device_id());
    assert_eq!(device.display_name().as_deref(), Some("Alice's Phone"));
}

#[test]
fn full_address_concatenates_prefix_and_server() {
    let a = identity_core::device::DeliveryAddress {
        prefix: "abc123".to_string(),
        server: "s.example".to_string(),
        created_at: 0,
        active: true,
    };
    assert_eq!(a.full_address(), "abc123@s.example");
}
