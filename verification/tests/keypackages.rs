use identity_core::device::DeviceId;
use openmls::prelude::BasicCredential;

#[test]
fn five_key_packages_have_distinct_ephemeral_keys_and_the_device_key() {
    let device = DeviceId::generate();
    let bundles = device.generate_key_packages(5).unwrap();
    assert_eq!(bundles.len(), 5);

    // Each package embeds a credential whose public key is the device's.
    for bundle in &bundles {
        let leaf = bundle.key_package().leaf_node();
        assert_eq!(leaf.signature_key().as_slice(), device.public_key_bytes().as_slice());
        let credential = BasicCredential::try_from(leaf.credential().clone()).unwrap();
        assert_eq!(credential.identity(), device.device_id_bytes().as_slice());
    }

    // Each package carries its own fresh ephemeral key material: the HPKE
    // init keys (whose private halves stay in the bundles) are all distinct.
    let init_keys: Vec<Vec<u8>> = bundles
        .iter()
        .map(|b| b.key_package().hpke_init_key().as_slice().to_vec())
        .collect();
    for i in 0..init_keys.len() {
        for j in 0..init_keys.len() {
            if i != j {
                assert_ne!(init_keys[i], init_keys[j]);
            }
        }
    }
}

#[test]
fn empty_batch_is_allowed_and_returns_no_bundles() {
    let device = DeviceId::generate();
    let bundles = device.generate_key_packages(0).unwrap();
    assert!(bundles.is_empty());
}
