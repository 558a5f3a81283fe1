use identity_core::device::DeliveryAddress;
use identity_core::device::DeviceId;
use identity_core::package::InfoPackageContent;
use identity_core::package::InfoPackageType;
use identity_core::package::IdentityInfoPackage;
use identity_core::package::InfoPackageUploadRequest;
use identity_core::persona::Persona;
use identity_core::persona::PersonaId;
use identity_core::persona::ProfilePicture;
use identity_core::user::DevicePublicInfo;
use identity_core::user::UserId;

fn persona(name: &str) -> Persona {
    Persona {
        display_name: name.to_string(),
        profile_picture: None,
        bio: Some("bio".to_string()),
        pronouns: Some("they/them".to_string()),
    }
}

fn content(request: &InfoPackageUploadRequest) -> &IdentityInfoPackage {
    match &request.content {
        InfoPackageContent::Identity(pkg) => pkg,
    }
}

#[test]
fn package_defaults_are_24_hours_and_100_uses() {
    let user = UserId::generate();
    let request = user.create_info_package();
    assert!(matches!(request.package_type, InfoPackageType::Identity));
    assert_eq!(request.ttl_seconds, 86400);
    assert_eq!(request.max_uses, Some(100));
}

#[test]
fn package_policy_is_caller_overridable() {
    let user = UserId::generate();
    let request = user.create_info_package_with_policy(None, 3600, None);
    assert_eq!(request.ttl_seconds, 3600);
    assert_eq!(request.max_uses, None);
    let pfp = ProfilePicture {
        mime_type: "image/png".to_string(),
        data: vec![1, 2, 3],
        uploaded_at: 9,
        signature: user.sign(&[1, 2, 3]).unwrap(),
    };
    let request = user.create_info_package_with_pfp(Some(pfp));
    let pkg = content(&request);
    assert_eq!(pkg.profile_picture.as_ref().unwrap().mime_type, "image/png");
    assert_eq!(pkg.profile_picture.as_ref().unwrap().data, vec![1, 2, 3]);
}

#[test]
fn snapshots_differ_only_in_devices_and_are_isolated_from_later_mutation() {
    let mut user = UserId::generate();
    let slot = user.add_persona(persona("work")).unwrap();

    let before = user.create_info_package();

    let device = DeviceId::generate();
    let info = DevicePublicInfo::new(
        device.public_key_bytes().clone(),
        DeliveryAddress {
            prefix: "00112233445566778899aabbccddeeff".to_string(),
            server: "chat.example.com".to_string(),
            created_at: 1,
            active: true,
        },
        "kp.example.com".to_string(),
        42,
    );
    user.add_linked_device(info);

    let after = user.create_info_package();

    let p1 = content(&before);
    let p2 = content(&after);
    // The device lists differ: that is the one mutation between the builds.
    assert_eq!(p1.devices.len(), 0);
    assert_eq!(p2.devices.len(), 1);
    assert_eq!(p2.devices[0].public_key.as_slice(), device.public_key_bytes().as_slice());
    // Everything else agrees between the two snapshots.
    assert_eq!(p1.user_id, p2.user_id);
    assert_eq!(p1.user_public_key, p2.user_public_key);
    assert_eq!(p1.default_persona.display_name, p2.default_persona.display_name);
    let w1 = p1.personas.get(PersonaId::Id(slot)).unwrap();
    let w2 = p2.personas.get(PersonaId::Id(slot)).unwrap();
    assert_eq!(w1.display_name, w2.display_name);
    assert_eq!(w1.bio, w2.bio);
    assert_eq!(w1.pronouns, w2.pronouns);

    // Mutating the live identity after building never changes a package.
    let extra = user.add_persona(persona("travel")).unwrap();
    user.remove_persona(slot).unwrap();
    let p2 = content(&after);
    assert!(p2.personas.get(PersonaId::Id(extra)).is_none());
    assert_eq!(p2.personas.get(PersonaId::Id(slot)).unwrap().display_name, "work");
    assert_eq!(p2.devices.len(), 1);
}

#[test]
fn package_snapshot_carries_the_users_public_state() {
    let mut user = UserId::generate();
    user.add_persona(persona("a")).unwrap();
    let request = user.create_info_package();
    let pkg = content(&request);
    assert_eq!(pkg.user_id.as_slice(), user.user_id_bytes().as_slice());
    assert_eq!(pkg.user_public_key.as_slice(), user.public_key_bytes().as_slice());
    assert_eq!(pkg.default_persona.display_name, "My Name");
    assert!(pkg.profile_picture.is_none());
    assert_eq!(pkg.personas.get(PersonaId::Id(1)).unwrap().display_name, "a");
}
