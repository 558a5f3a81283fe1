use identity_core::device::DeliveryAddress;
use identity_core::device::DeviceId;
use identity_core::user::DevicePublicInfo;
use identity_core::user::UserId;
use sha2::Digest;
use sha2::Sha256;

fn some_address() -> DeliveryAddress {
    DeliveryAddress {
        prefix: "00112233445566778899aabbccddeeff".to_string(),
        server: "chat.example.com".to_string(),
        created_at: 1,
        active: true,
    }
}

#[test]
fn generated_device_id_is_the_sha256_of_the_public_key() {
    let device = DeviceId::generate();
    assert!(device.verify_device_id());
    assert_eq!(device.device_id_bytes().len(), 32);
    assert_eq!(device.public_key_bytes().len(), 32);
    let expected: [u8; 32] = Sha256::digest(device.public_key_bytes()).into();
    assert_eq!(device.device_id_bytes().as_slice(), &expected);
}

#[test]
fn hash_recomputation_is_deterministic_and_public_info_verifies() {
    let device = DeviceId::generate();
    // Two independent hash computations of the same public key agree.
    let once: [u8; 32] = Sha256::digest(device.public_key_bytes()).into();
    let twice: [u8; 32] = Sha256::digest(device.public_key_bytes()).into();
    assert_eq!(once, twice);
    // A projection built with device_id = hash(public_key) passes the same
    // verification check as the device identity itself.
    let info = DevicePublicInfo::new(
        device.public_key_bytes().clone(),
        some_address(),
        "kp.example.com".to_string(),
        7,
    );
    assert!(info.verify_device_id());
    assert_eq!(info.device_id.as_slice(), &once);
    // A corrupted identifier is reported as false, never a panic.
    let mut corrupted = info;
    corrupted.device_id[0] ^= 0xff;
    assert!(!corrupted.verify_device_id());
    // A truncated public key is also just a mismatch.
    let short = DevicePublicInfo {
        device_id: corrupted.device_id.clone(),
        public_key: vec![1, 2, 3],
        initial_delivery_address: some_address(),
        keypackage_server: "kp.example.com".to_string(),
        linked_at: 7,
    };
    assert!(!short.verify_device_id());
}

#[test]
fn device_and_user_signing_always_yield_64_byte_signatures() {
    let device = DeviceId::generate();
    let sig = device.sign(b"hello").unwrap();
    assert_eq!(sig.len(), 64);
    let sig2 = device.sign(b"hello").unwrap();
    // Ed25519 signing is deterministic for one keypair and message.
    assert_eq!(sig, sig2);
    let user = UserId::generate();
    assert_eq!(user.sign(&[]).unwrap().len(), 64);
    assert_eq!(user.sign(&[0u8; 100_000]).unwrap().len(), 64);
    // Independent keypairs: the device and root signatures differ.
    assert_ne!(device.sign(b"msg").unwrap(), user.sign(b"msg").unwrap());
}

#[test]
fn linked_devices_are_appended_and_removed_by_id() {
    let mut user = UserId::generate();
    assert_eq!(user.devices_len(), 0);
    let d1 = DeviceId::generate();
    let d2 = DeviceId::generate();
    let i1 = DevicePublicInfo::new(
        d1.public_key_bytes().clone(),
        some_address(),
        "kp.example.com".to_string(),
        1,
    );
    let i2 = DevicePublicInfo::new(
        d2.public_key_bytes().clone(),
        some_address(),
        "kp.example.com".to_string(),
        2,
    );
    user.add_linked_device(i1);
    user.add_linked_device(i2);
    assert_eq!(user.devices_len(), 2);
    assert_eq!(user.device_at(0).public_key.as_slice(), d1.public_key_bytes().as_slice());
    let d1_id = user.device_at(0).device_id.clone();
    user.remove_device(&d1_id);
    assert_eq!(user.devices_len(), 1);
    assert_eq!(user.device_at(0).public_key.as_slice(), d2.public_key_bytes().as_slice());
    // Removing an absent id is a no-op, not an error.
    user.remove_device(&d1_id);
    assert_eq!(user.devices_len(), 1);
}

#[test]
fn generated_user_has_fresh_id_and_seeded_default_persona() {
    let u1 = UserId::generate();
    let u2 = UserId::generate();
    assert_eq!(u1.user_id_bytes().len(), 32);
    assert_eq!(u1.public_key_bytes().len(), 32);
    assert_ne!(u1.user_id_bytes(), u2.user_id_bytes());
    assert_ne!(u1.public_key_bytes(), u2.public_key_bytes());
    assert_eq!(u1.default_persona().display_name, "My Name");
    assert!(u1.default_persona().profile_picture.is_none());
    assert!(u1.default_persona().bio.is_none());
    assert!(u1.default_persona().pronouns.is_none());
}
