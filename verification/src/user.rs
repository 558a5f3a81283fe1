//! User-level identity: the root keypair, the linked devices (public view),
//! and the persona store.
//!
//! The user identity is generated exactly once, at first-device setup.
//! Devices hold independent keypairs, not derived from the root key; the
//! association between user and devices is kept by copying small identifying
//! values, never by back-references.
use vstd::prelude::*;

use crate::Error;
use crate::crypto;
use crate::device::DeliveryAddress;
use crate::device::DeliveryAddressView;
use crate::device::device_id_matches;
use crate::persona::Persona;
use crate::persona::PersonaId;
use crate::persona::PersonaStore;
use crate::persona::PersonaView;
use crate::crypto::ed25519_sig_of;
use crate::signer::SignerAdapter;

verus! {

/// The public projection of a device, exchanged when linking devices.
/// Invariant: `device_id` must verify against `public_key` under the same
/// hash rule as the device identity itself.
#[derive(Debug)]
pub struct DevicePublicInfo {
    /// The device's identifier, the SHA-256 digest of its public key.
    pub device_id: Vec<u8>,
    /// The device's public key.
    pub public_key: Vec<u8>,
    /// Initial contact address.
    pub initial_delivery_address: DeliveryAddress,
    /// Host server for the device's key packages.
    pub keypackage_server: String,
    /// Unix timestamp of linking time.
    pub linked_at: u64,
}

/// Mathematical value of a [`DevicePublicInfo`].
#[verifier::ext_equal]
pub ghost struct DevicePublicInfoView {
    pub device_id: Seq<u8>,
    pub public_key: Seq<u8>,
    pub initial_delivery_address: DeliveryAddressView,
    pub keypackage_server: Seq<char>,
    pub linked_at: u64,
}

impl View for DevicePublicInfo {
    type V = DevicePublicInfoView;

    open spec fn view(&self) -> DevicePublicInfoView {
        DevicePublicInfoView {
            device_id: self.device_id@,
            public_key: self.public_key@,
            initial_delivery_address: self.initial_delivery_address@,
            keypackage_server: self.keypackage_server@,
            linked_at: self.linked_at,
        }
    }
}

impl Clone for DevicePublicInfo {
    fn clone(&self) -> (res: Self)
        ensures
            res@ == self@,
    {
        let res = DevicePublicInfo {
            device_id: crypto::clone_bytes(&self.device_id),
            public_key: crypto::clone_bytes(&self.public_key),
            initial_delivery_address: self.initial_delivery_address.clone(),
            keypackage_server: self.keypackage_server.clone(),
            linked_at: self.linked_at,
        };
        proof {
            assert(res@ =~= self@);
        }
        res
    }
}

/// An identifier derived as the digest of a public key passes the shared
/// verification rule. (Determinism is built into the model: `sha256_of` is a
/// function of the key bytes alone, so recomputing the digest of one key
/// always yields the same 32 bytes.)
pub proof fn lemma_derived_id_verifies(public_key: Seq<u8>)
    ensures
        device_id_matches(crate::crypto::sha256_of(public_key), public_key),
{
}

impl DevicePublicInfo {
    /// Build the public projection of a device, deriving the identifier from
    /// the public key so that it passes the shared verification rule.
    pub fn new(
        public_key: Vec<u8>,
        initial_delivery_address: DeliveryAddress,
        keypackage_server: String,
        linked_at: u64,
    ) -> (info: DevicePublicInfo)
        ensures
            device_id_matches(info@.device_id, info@.public_key),
            info@.public_key == public_key@,
            info@.initial_delivery_address == initial_delivery_address@,
            info@.keypackage_server == keypackage_server@,
            info@.linked_at == linked_at,
    {
        let device_id = crypto::sha256(public_key.as_slice());
        DevicePublicInfo {
            device_id,
            public_key,
            initial_delivery_address,
            keypackage_server,
            linked_at,
        }
    }

    /// Recompute the hash of the public key and compare it with the
    /// identifier: the same verification check as the device identity's.
    pub fn verify_device_id(&self) -> (ok: bool)
        ensures
            ok == device_id_matches(self@.device_id, self@.public_key),
    {
        let expected = crypto::sha256(self.public_key.as_slice());
        crypto::bytes_eq(self.device_id.as_slice(), expected.as_slice())
    }
}

/// The views of a sequence of device projections.
pub open spec fn device_views(s: Seq<DevicePublicInfo>) -> Seq<DevicePublicInfoView> {
    s.map_values(|d: DevicePublicInfo| d@)
}

/// The device sequence with every entry of one device identifier removed,
/// keeping the order of the rest.
pub open spec fn devices_without(s: Seq<DevicePublicInfoView>, id: Seq<u8>) -> Seq<
    DevicePublicInfoView,
>
    decreases s.len(),
{
    if s.len() == 0 {
        Seq::empty()
    } else {
        devices_without(s.drop_last(), id) + (if s.last().device_id == id {
            Seq::empty()
        } else {
            seq![s.last()]
        })
    }
}

/// User identity: root keypair, linked devices, and personas.
pub struct UserId {
    id: Vec<u8>,
    secret_key: Vec<u8>,
    public_key: Vec<u8>,
    devices: Vec<DevicePublicInfo>,
    personas: PersonaStore,
}

/// Mathematical value of a [`UserId`] (the root secret key stays out of the
/// view; contracts reach it only through `secret_key_view`).
#[verifier::ext_equal]
pub ghost struct UserIdView {
    pub id: Seq<u8>,
    pub public_key: Seq<u8>,
    pub devices: Seq<DevicePublicInfoView>,
    pub default_persona: PersonaView,
    pub personas: Map<u16, PersonaView>,
}

impl View for UserId {
    type V = UserIdView;

    closed spec fn view(&self) -> UserIdView {
        UserIdView {
            id: self.id@,
            public_key: self.public_key@,
            devices: device_views(self.devices@),
            default_persona: self.personas@.default_persona,
            personas: self.personas@.personas,
        }
    }
}

impl UserId {
    /// The root Ed25519 secret seed, visible to contracts alone.
    pub closed spec fn secret_key_view(self) -> Seq<u8> {
        self.secret_key@
    }

    /// Internal invariant: the persona store is well-formed and the root
    /// secret seed has Ed25519's fixed 32-byte shape.
    pub closed spec fn wf(self) -> bool {
        &&& self.personas.wf()
        &&& self.secret_key@.len() == 32
    }

    /// Generate a new user identity: a fresh random 32-byte account id, a
    /// fresh root keypair, no linked devices, a seeded default persona and
    /// no numbered personas. This is the exactly-once account bootstrap; the
    /// core cannot detect a second call for the same logical account — that
    /// is a higher-layer policy.
    pub fn generate() -> (user: UserId)
        ensures
            user.wf(),
            user@.id.len() == 32,
            user@.public_key.len() == 32,
            user@.devices.len() == 0,
            user@.personas == Map::<u16, PersonaView>::empty(),
            user@.default_persona.display_name == "My Name"@,
            user@.default_persona.profile_picture is None,
            user@.default_persona.bio is None,
            user@.default_persona.pronouns is None,
    {
        let id = crypto::secure_random_bytes(32);
        let (secret_key, public_key) = crypto::generate_signing_key();
        let default_persona = Persona {
            display_name: String::from_str("My Name"),
            profile_picture: None,
            bio: None,
            pronouns: None,
        };
        let user = UserId {
            id,
            secret_key,
            public_key,
            devices: Vec::new(),
            personas: PersonaStore::new(default_persona),
        };
        proof {
            assert(user@.devices =~= Seq::<DevicePublicInfoView>::empty());
        }
        user
    }

    /// The immutable 32-byte account identifier.
    pub fn user_id_bytes(&self) -> (id: &Vec<u8>)
        ensures
            id@ == self@.id,
    {
        &self.id
    }

    /// The root public key.
    pub fn public_key_bytes(&self) -> (key: &Vec<u8>)
        ensures
            key@ == self@.public_key,
    {
        &self.public_key
    }

    /// The number of linked devices.
    pub fn devices_len(&self) -> (n: usize)
        ensures
            n == self@.devices.len(),
    {
        self.devices.len()
    }

    /// The public projection of the linked device at one position.
    pub fn device_at(&self, i: usize) -> (device: &DevicePublicInfo)
        requires
            i < self@.devices.len(),
        ensures
            device@ == self@.devices[i as int],
    {
        &self.devices[i]
    }

    /// A value copy of the persona store, as of now.
    pub fn persona_store_snapshot(&self) -> (store: PersonaStore)
        ensures
            store@.personas == self@.personas,
            store@.default_persona == self@.default_persona,
    {
        self.personas.snapshot()
    }

    /// Add a persona at the smallest unused non-zero slot, or fail with
    /// [`Error::PersonasFull`] once all 65 535 numbered slots are occupied.
    /// Nothing but the persona map changes.
    pub fn add_persona(&mut self, persona: Persona) -> (result: Result<u16, Error>)
        requires
            old(self).wf(),
        ensures
            final(self).wf(),
            match result {
                Ok(slot) => {
                    &&& 1 <= slot
                    &&& !old(self)@.personas.dom().contains(slot)
                    &&& forall|j: u16| 1 <= j < slot ==> old(self)@.personas.dom().contains(j)
                    &&& final(self)@ == (UserIdView {
                        personas: old(self)@.personas.insert(slot, persona@),
                        ..old(self)@
                    })
                },
                Err(e) => {
                    &&& e == Error::PersonasFull
                    &&& forall|j: u16| 1 <= j ==> old(self)@.personas.dom().contains(j)
                    &&& final(self)@ == old(self)@
                },
            },
    {
        let result = self.personas.add(persona);
        proof {
            if result is Ok {
                assert(self@ =~= (UserIdView {
                    personas: old(self)@.personas.insert(result.unwrap(), persona@),
                    ..old(self)@
                }));
            } else {
                assert(self@ =~= old(self)@);
            }
        }
        result
    }

    /// Look up a persona: the default always resolves, a numbered slot only
    /// if it is occupied.
    pub fn persona_for(&self, id: PersonaId) -> (found: Option<&Persona>)
        ensures
            match id {
                PersonaId::Default => found matches Some(p) && p@ == self@.default_persona,
                PersonaId::Id(s) => {
                    if self@.personas.dom().contains(s) {
                        found matches Some(p) && p@ == self@.personas[s]
                    } else {
                        found is None
                    }
                },
            },
    {
        self.personas.get(id)
    }

    /// The default persona; it has no slot and can never be removed.
    pub fn default_persona(&self) -> (persona: &Persona)
        ensures
            persona@ == self@.default_persona,
    {
        self.personas.default_persona()
    }

    /// Remove and return the persona at a numbered slot, freeing the slot
    /// for reuse, or fail with [`Error::PersonaNotFound`] if the slot is not
    /// occupied. Nothing but the persona map changes.
    pub fn remove_persona(&mut self, id: u16) -> (result: Result<Persona, Error>)
        requires
            old(self).wf(),
        ensures
            final(self).wf(),
            match result {
                Ok(p) => {
                    &&& old(self)@.personas.dom().contains(id)
                    &&& p@ == old(self)@.personas[id]
                    &&& final(self)@ == (UserIdView {
                        personas: old(self)@.personas.remove(id),
                        ..old(self)@
                    })
                },
                Err(e) => {
                    &&& e == Error::PersonaNotFound
                    &&& !old(self)@.personas.dom().contains(id)
                    &&& final(self)@ == old(self)@
                },
            },
    {
        let result = self.personas.remove(id);
        proof {
            if result is Ok {
                assert(self@ =~= (UserIdView {
                    personas: old(self)@.personas.remove(id),
                    ..old(self)@
                }));
            } else {
                assert(self@ =~= old(self)@);
            }
        }
        result
    }

    /// Sign data with the root identity key, through the fallible adapter.
    /// This always succeeds, whatever the input size, and the signature is
    /// the deterministic 64-byte Ed25519 signature of the data under the
    /// root secret seed.
    pub fn sign(&self, data: &[u8]) -> (result: Result<Vec<u8>, Error>)
        requires
            self.wf(),
        ensures
            result matches Ok(sig) && sig@ == ed25519_sig_of(self.secret_key_view(), data@)
                && sig@.len() == 64,
    {
        SignerAdapter::new(&self.secret_key).try_sign(data)
    }

    /// Append a linked device to this account; nothing else changes.
    pub fn add_linked_device(&mut self, device_info: DevicePublicInfo)
        requires
            old(self).wf(),
        ensures
            final(self).wf(),
            final(self)@ == (UserIdView {
                devices: old(self)@.devices.push(device_info@),
                ..old(self)@
            }),
    {
        let ghost info_view = device_info@;
        self.devices.push(device_info);
        proof {
            assert(self@.devices =~= old(self)@.devices.push(info_view));
            assert(self@ =~= (UserIdView { devices: old(self)@.devices.push(info_view), ..old(self)@ }));
        }
    }

    /// Remove every device with the given identifier; a no-op — not an
    /// error — when no device carries it. Nothing else changes.
    #[verifier::loop_isolation(false)]
    pub fn remove_device(&mut self, device_id: &[u8])
        requires
            old(self).wf(),
        ensures
            final(self).wf(),
            final(self)@ == (UserIdView {
                devices: devices_without(old(self)@.devices, device_id@),
                ..old(self)@
            }),
    {
        let mut kept: Vec<DevicePublicInfo> = Vec::new();
        let mut i: usize = 0;
        while i < self.devices.len()
            invariant
                i <= self.devices@.len(),
                device_views(kept@) =~= devices_without(
                    device_views(self.devices@).take(i as int),
                    device_id@,
                ),
            decreases self.devices@.len() - i,
        {
            let entry = &self.devices[i];
            if !crypto::bytes_eq(entry.device_id.as_slice(), device_id) {
                kept.push(entry.clone());
            }
            i = i + 1;
            proof {
                let s = device_views(self.devices@);
                assert(s.take(i as int).drop_last() =~= s.take(i as int - 1));
                assert(s.take(i as int).last() == s[i as int - 1]);
                assert(device_views(kept@) =~= devices_without(s.take(i as int), device_id@));
            }
        }
        proof {
            assert(device_views(self.devices@).take(self.devices@.len() as int) =~= device_views(
                self.devices@,
            ));
        }
        self.devices = kept;
        proof {
            assert(self@ =~= (UserIdView {
                devices: devices_without(old(self)@.devices, device_id@),
                ..old(self)@
            }));
        }
    }
}

} // verus!
