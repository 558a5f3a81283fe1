//! Device-level identity: one device's keypair, its derived identifier, its
//! delivery addresses, and key-package issuance.
//!
//! Each device has its own independent keypair, even within one user
//! identity. The device identifier is the SHA-256 digest of the device's
//! public key — an invariant that is checked, not merely assumed.
use vstd::prelude::*;

use crate::Error;
use crate::crypto;
use crate::crypto::sha256_of;
use crate::crypto::hex_of;
use crate::crypto::ed25519_sig_of;
use crate::signer::SignerAdapter;
use openmls::prelude::CredentialWithKey;
use openmls::prelude::KeyPackageBundle;

verus! {

/// An ephemeral, revocable routing handle used to reach a device without
/// exposing its long-term identity. The externally visible address string is
/// the concatenation `prefix@server`.
#[derive(Debug)]
pub struct DeliveryAddress {
    /// Random hex identifier, e.g. "a1b2c3d4e5...".
    pub prefix: String,
    /// Routing domain, e.g. "chat.example.com".
    pub server: String,
    /// Unix timestamp of when the address was generated; immutable.
    pub created_at: u64,
    /// Activation state: can be deactivated, never deleted and never
    /// reactivated.
    pub active: bool,
}

/// Mathematical value of a [`DeliveryAddress`].
#[verifier::ext_equal]
pub ghost struct DeliveryAddressView {
    pub prefix: Seq<char>,
    pub server: Seq<char>,
    pub created_at: u64,
    pub active: bool,
}

impl View for DeliveryAddress {
    type V = DeliveryAddressView;

    open spec fn view(&self) -> DeliveryAddressView {
        DeliveryAddressView {
            prefix: self.prefix@,
            server: self.server@,
            created_at: self.created_at,
            active: self.active,
        }
    }
}

impl Clone for DeliveryAddress {
    fn clone(&self) -> (res: Self)
        ensures
            res@ == self@,
    {
        let res = DeliveryAddress {
            prefix: self.prefix.clone(),
            server: self.server.clone(),
            created_at: self.created_at,
            active: self.active,
        };
        proof {
            assert(res@ =~= self@);
        }
        res
    }
}

/// The externally visible address string of an entry: `prefix@server`.
pub open spec fn full_view(a: DeliveryAddressView) -> Seq<char> {
    a.prefix + seq!['@'] + a.server
}

/// Whether an entry belongs to the queried server (`None` queries all).
pub open spec fn matches_server(a: DeliveryAddressView, server: Option<Seq<char>>) -> bool {
    match server {
        None => true,
        Some(sv) => a.server == sv,
    }
}

/// The full addresses of the active entries that match the server filter, in
/// insertion order.
pub open spec fn active_full_views(s: Seq<DeliveryAddressView>, server: Option<Seq<char>>) -> Seq<
    Seq<char>,
>
    decreases s.len(),
{
    if s.len() == 0 {
        Seq::empty()
    } else {
        active_full_views(s.drop_last(), server) + (if s.last().active && matches_server(
            s.last(),
            server,
        ) {
            seq![full_view(s.last())]
        } else {
            Seq::empty()
        })
    }
}

/// The views of a sequence of delivery addresses.
pub open spec fn addr_views(s: Seq<DeliveryAddress>) -> Seq<DeliveryAddressView> {
    s.map_values(|a: DeliveryAddress| a@)
}

/// The views of a sequence of strings.
pub open spec fn string_views(s: Seq<String>) -> Seq<Seq<char>> {
    s.map_values(|x: String| x@)
}

/// Once no active entry carries an address, the address is not listed by the
/// active-address queries, whatever the server filter.
pub proof fn lemma_deactivated_never_listed(
    s: Seq<DeliveryAddressView>,
    server: Option<Seq<char>>,
    addr: Seq<char>,
)
    requires
        forall|i: int| 0 <= i < s.len() && full_view(s[i]) == addr ==> !s[i].active,
    ensures
        !active_full_views(s, server).contains(addr),
    decreases s.len(),
{
    if s.len() > 0 {
        lemma_deactivated_never_listed(s.drop_last(), server, addr);
        assert(forall|i: int|
            0 <= i < s.len() - 1 ==> s.drop_last()[i] == s[i]);
        if s.last().active && matches_server(s.last(), server) {
            assert(full_view(s.last()) != addr);
        }
    }
}

/// Deactivation is permanent: after a registry state in which every entry
/// carrying an address has been deactivated — exactly what deactivating that
/// address leaves behind — neither active-address query lists the address,
/// whatever the server filter. Later entries never flip an old entry back to
/// active, so this holds for every subsequent state whose old entries keep
/// their prefix and server and never regain activity.
pub proof fn lemma_burned_address_stays_unlisted(
    before: Seq<DeliveryAddressView>,
    after: Seq<DeliveryAddressView>,
    addr: Seq<char>,
    server: Option<Seq<char>>,
)
    requires
        after.len() == before.len(),
        forall|i: int|
            0 <= i < before.len() ==> {
                &&& #[trigger] after[i].prefix == before[i].prefix
                &&& after[i].server == before[i].server
                &&& (after[i].active ==> before[i].active && full_view(before[i]) != addr)
            },
    ensures
        !active_full_views(after, server).contains(addr),
{
    assert forall|i: int|
        0 <= i < after.len() && full_view(after[i]) == addr implies !after[i].active by {
        assert(full_view(after[i]) == full_view(before[i]));
    }
    lemma_deactivated_never_listed(after, server, addr);
}

impl DeliveryAddress {
    /// The externally visible address string `prefix@server`.
    pub fn full_address(&self) -> (addr: String)
        ensures
            addr@ == full_view(self@),
    {
        let mut addr: String = self.prefix.clone();
        addr.append("@");
        addr.append(self.server.as_str());
        proof {
            reveal_strlit("@");
            assert(("@")@ =~= seq!['@']);
            assert(addr@ =~= full_view(self@));
        }
        addr
    }
}

/// Whether a device identifier is correctly derived from a public key: it
/// must equal the SHA-256 digest of the key. This is the one verification
/// rule shared by [`DeviceId`] and the public device projection.
pub open spec fn device_id_matches(device_id: Seq<u8>, public_key: Seq<u8>) -> bool {
    device_id == sha256_of(public_key)
}

/// Whether a device identifier verifies is a function of the identifier and
/// the public key alone, so delivery-address operations — which never touch
/// either — cannot change it.
pub proof fn lemma_verification_unaffected_by_addresses(v1: DeviceIdView, v2: DeviceIdView)
    requires
        v2.device_id == v1.device_id,
        v2.public_key == v1.public_key,
    ensures
        device_id_matches(v2.device_id, v2.public_key) == device_id_matches(
            v1.device_id,
            v1.public_key,
        ),
{
}

/// Device-level identity. Each device owns its keypair exclusively; the
/// delivery-address sequence grows monotonically and entries are only ever
/// deactivated, never removed.
pub struct DeviceId {
    device_id: Vec<u8>,
    secret_key: Vec<u8>,
    public_key: Vec<u8>,
    delivery_addresses: Vec<DeliveryAddress>,
    created_timestamp: u64,
    display_name: Option<String>,
}

/// Mathematical value of a [`DeviceId`] (the secret key stays out of the
/// view; contracts reach it only through `secret_key_view`).
#[verifier::ext_equal]
pub ghost struct DeviceIdView {
    pub device_id: Seq<u8>,
    pub public_key: Seq<u8>,
    pub addresses: Seq<DeliveryAddressView>,
    pub created_timestamp: u64,
    pub display_name: Option<Seq<char>>,
}

impl View for DeviceId {
    type V = DeviceIdView;

    closed spec fn view(&self) -> DeviceIdView {
        DeviceIdView {
            device_id: self.device_id@,
            public_key: self.public_key@,
            addresses: addr_views(self.delivery_addresses@),
            created_timestamp: self.created_timestamp,
            display_name: crate::persona::opt_string_view(self.display_name),
        }
    }
}

impl DeviceId {
    /// The device's Ed25519 secret seed, visible to contracts alone.
    pub closed spec fn secret_key_view(self) -> Seq<u8> {
        self.secret_key@
    }

    /// Internal invariant: the secret seed has Ed25519's fixed 32-byte
    /// shape. Established by `generate`, preserved by every operation.
    pub closed spec fn wf(self) -> bool {
        self.secret_key@.len() == 32
    }

    /// Generate a new device identity: a fresh keypair, the device
    /// identifier derived as the SHA-256 digest of the public key, the
    /// current time as creation timestamp, no delivery addresses and no
    /// display name yet.
    pub fn generate() -> (device: DeviceId)
        ensures
            device.wf(),
            device_id_matches(device@.device_id, device@.public_key),
            device@.device_id.len() == 32,
            device@.public_key.len() == 32,
            device@.addresses.len() == 0,
            device@.display_name is None,
    {
        let (secret_key, public_key) = crypto::generate_signing_key();
        let device_id = crypto::sha256(public_key.as_slice());
        let created_timestamp = crypto::now_unix();
        let device = DeviceId {
            device_id,
            secret_key,
            public_key,
            delivery_addresses: Vec::new(),
            created_timestamp,
            display_name: None,
        };
        proof {
            assert(device@.addresses =~= Seq::<DeliveryAddressView>::empty());
        }
        device
    }

    /// The derived device identifier.
    pub fn device_id_bytes(&self) -> (id: &Vec<u8>)
        ensures
            id@ == self@.device_id,
    {
        &self.device_id
    }

    /// The device's public key.
    pub fn public_key_bytes(&self) -> (key: &Vec<u8>)
        ensures
            key@ == self@.public_key,
    {
        &self.public_key
    }

    /// The immutable creation timestamp.
    pub fn created_timestamp(&self) -> (t: u64)
        ensures
            t == self@.created_timestamp,
    {
        self.created_timestamp
    }

    /// The user-editable display name.
    pub fn display_name(&self) -> (name: &Option<String>)
        ensures
            crate::persona::opt_string_view(*name) == self@.display_name,
    {
        &self.display_name
    }

    /// Set the user-editable display name; nothing else changes.
    pub fn set_display_name(&mut self, name: String)
        ensures
            final(self)@ == (DeviceIdView { display_name: Some(name@), ..old(self)@ }),
            final(self).wf() == old(self).wf(),
            final(self).secret_key_view() == old(self).secret_key_view(),
    {
        self.display_name = Some(name);
    }

    /// Recompute the hash of the stored public key and compare it with the
    /// device identifier. Returns false — never panics — on any mismatch.
    pub fn verify_device_id(&self) -> (ok: bool)
        ensures
            ok == device_id_matches(self@.device_id, self@.public_key),
    {
        let expected = crypto::sha256(self.public_key.as_slice());
        crypto::bytes_eq(self.device_id.as_slice(), expected.as_slice())
    }

    /// Sign data with the device's identity key, through the fallible
    /// adapter. This always succeeds, whatever the input size, and the
    /// signature is the deterministic 64-byte Ed25519 signature of the data
    /// under this device's secret seed.
    pub fn sign(&self, data: &[u8]) -> (result: Result<Vec<u8>, Error>)
        requires
            self.wf(),
        ensures
            result matches Ok(sig) && sig@ == ed25519_sig_of(self.secret_key_view(), data@)
                && sig@.len() == 64,
    {
        SignerAdapter::new(&self.secret_key).try_sign(data)
    }

    /// Create the MLS credential for group operations: the device identifier
    /// is the issuer-chosen identity label, and the embedded public key is
    /// the device's public key. The credential itself carries no signature;
    /// signing during issuance happens inside the trusted key-package call,
    /// through the external crate's own signer (see `build_key_package`).
    pub(crate) fn create_mls_credential(&self) -> CredentialWithKey {
        crypto::make_credential_with_key(self.device_id.as_slice(), self.public_key.as_slice())
    }

    /// Mint `count` key packages for the fixed ciphersuite, each one
    /// independently signed and carrying fresh ephemeral key material. The
    /// batch is all-or-nothing: the first issuance failure aborts the batch
    /// and is propagated as the signing error, and no partial batch is
    /// returned. An empty batch asks nothing of the issuer and always
    /// succeeds.
    pub fn generate_key_packages(&self, count: usize) -> (result: Result<
        Vec<KeyPackageBundle>,
        Error,
    >)
        ensures
            result matches Ok(bundles) ==> bundles@.len() == count,
            count == 0 ==> result is Ok,
            result matches Err(e) ==> e == Error::SigningError,
    {
        let mut bundles: Vec<KeyPackageBundle> = Vec::new();
        let mut i: usize = 0;
        while i < count
            invariant
                i <= count,
                bundles@.len() == i,
            decreases count - i,
        {
            let credential = self.create_mls_credential();
            match crypto::build_key_package(
                &self.secret_key,
                self.public_key.as_slice(),
                credential,
            ) {
                Ok(bundle) => bundles.push(bundle),
                Err(e) => {
                    return Err(e);
                },
            }
            i = i + 1;
        }
        Ok(bundles)
    }

    /// Create a new delivery address for this device: a fresh 16-byte random
    /// identifier, hex-encoded as the prefix, stored as a new active entry
    /// with the current time, returning the full `prefix@server` string.
    /// Nothing else of the device changes.
    #[verifier::loop_isolation(false)]
    pub fn create_delivery_address(&mut self, server: &str) -> (addr: String)
        ensures
            final(self)@.device_id == old(self)@.device_id,
            final(self)@.public_key == old(self)@.public_key,
            final(self)@.created_timestamp == old(self)@.created_timestamp,
            final(self)@.display_name == old(self)@.display_name,
            final(self)@.addresses.len() == old(self)@.addresses.len() + 1,
            forall|i: int|
                0 <= i < old(self)@.addresses.len() ==> final(self)@.addresses[i] == old(
                    self,
                )@.addresses[i],
            (final(self)@.addresses.last().active && final(self)@.addresses.last().server
                == server@ && final(self)@.addresses.last().prefix.len() == 32),
            exists|b: Seq<u8>|
                b.len() == 16 && final(self)@.addresses.last().prefix == hex_of(b),
            addr@ == full_view(final(self)@.addresses.last()),
            final(self).wf() == old(self).wf(),
            final(self).secret_key_view() == old(self).secret_key_view(),
    {
        let random = crypto::secure_random_bytes(16);
        let prefix = crypto::hex_encode(random.as_slice());
        proof {
            crypto::lemma_hex_of_len(random@);
        }
        let created_at = crypto::now_unix();
        let entry = DeliveryAddress {
            prefix: prefix.clone(),
            server: String::from_str(server),
            created_at,
            active: true,
        };
        let addr = entry.full_address();
        self.delivery_addresses.push(entry);
        proof {
            assert(final(self)@.addresses =~= old(self)@.addresses.push(
                final(self)@.addresses.last(),
            ));
            assert(random@.len() == 16 && final(self)@.addresses.last().prefix == hex_of(
                random@,
            ));
        }
        addr
    }

    /// Deactivate every entry whose full address matches exactly; a no-op —
    /// not an error — when nothing matches, so deactivation is idempotent.
    /// No entry is removed, no entry is activated, and nothing else of the
    /// device changes.
    #[verifier::loop_isolation(false)]
    pub fn burn_address(&mut self, full_address: &String)
        ensures
            final(self).wf() == old(self).wf(),
            final(self).secret_key_view() == old(self).secret_key_view(),
            final(self)@.device_id == old(self)@.device_id,
            final(self)@.public_key == old(self)@.public_key,
            final(self)@.created_timestamp == old(self)@.created_timestamp,
            final(self)@.display_name == old(self)@.display_name,
            final(self)@.addresses.len() == old(self)@.addresses.len(),
            forall|i: int|
                0 <= i < old(self)@.addresses.len() ==> {
                    &&& final(self)@.addresses[i].prefix == old(self)@.addresses[i].prefix
                    &&& final(self)@.addresses[i].server == old(self)@.addresses[i].server
                    &&& final(self)@.addresses[i].created_at == old(self)@.addresses[i].created_at
                    &&& final(self)@.addresses[i].active == (old(self)@.addresses[i].active
                        && full_view(old(self)@.addresses[i]) != full_address@)
                },
    {
        let mut i: usize = 0;
        while i < self.delivery_addresses.len()
            invariant
                i <= self.delivery_addresses@.len(),
                self.device_id == old(self).device_id,
                self.public_key == old(self).public_key,
                self.secret_key == old(self).secret_key,
                self.created_timestamp == old(self).created_timestamp,
                self.display_name == old(self).display_name,
                self.delivery_addresses@.len() == old(self).delivery_addresses@.len(),
                forall|j: int|
                    i <= j < self.delivery_addresses@.len() ==> self.delivery_addresses@[j] == old(
                        self,
                    ).delivery_addresses@[j],
                forall|j: int|
                    0 <= j < i ==> {
                        &&& self.delivery_addresses@[j]@.prefix == old(
                            self,
                        ).delivery_addresses@[j]@.prefix
                        &&& self.delivery_addresses@[j]@.server == old(
                            self,
                        ).delivery_addresses@[j]@.server
                        &&& self.delivery_addresses@[j]@.created_at == old(
                            self,
                        ).delivery_addresses@[j]@.created_at
                        &&& self.delivery_addresses@[j]@.active == (old(
                            self,
                        ).delivery_addresses@[j]@.active && full_view(
                            old(self).delivery_addresses@[j]@,
                        ) != full_address@)
                    },
            decreases self.delivery_addresses@.len() - i,
        {
            let full = self.delivery_addresses[i].full_address();
            if full.eq(full_address) {
                let entry = &self.delivery_addresses[i];
                let burned = DeliveryAddress {
                    prefix: entry.prefix.clone(),
                    server: entry.server.clone(),
                    created_at: entry.created_at,
                    active: false,
                };
                self.delivery_addresses.set(i, burned);
            }
            i = i + 1;
        }
    }

    /// All active delivery addresses, in insertion order.
    #[verifier::loop_isolation(false)]
    pub fn active_addresses(&self) -> (addrs: Vec<String>)
        ensures
            string_views(addrs@) == active_full_views(self@.addresses, None),
    {
        let mut addrs: Vec<String> = Vec::new();
        let mut i: usize = 0;
        while i < self.delivery_addresses.len()
            invariant
                i <= self.delivery_addresses@.len(),
                string_views(addrs@) =~= active_full_views(self@.addresses.take(i as int), None),
            decreases self.delivery_addresses@.len() - i,
        {
            let entry = &self.delivery_addresses[i];
            if entry.active {
                addrs.push(entry.full_address());
            }
            i = i + 1;
            proof {
                let s = self@.addresses;
                assert(s.take(i as int).drop_last() =~= s.take(i as int - 1));
                assert(s.take(i as int).last() == s[i as int - 1]);
                assert(string_views(addrs@) =~= active_full_views(s.take(i as int), None));
            }
        }
        proof {
            assert(self@.addresses.take(self.delivery_addresses@.len() as int) =~= self@.addresses);
        }
        addrs
    }

    /// All active delivery addresses for one server, in insertion order.
    #[verifier::loop_isolation(false)]
    pub fn active_addresses_for_server(&self, server: &String) -> (addrs: Vec<String>)
        ensures
            string_views(addrs@) == active_full_views(self@.addresses, Some(server@)),
    {
        let mut addrs: Vec<String> = Vec::new();
        let mut i: usize = 0;
        while i < self.delivery_addresses.len()
            invariant
                i <= self.delivery_addresses@.len(),
                string_views(addrs@) =~= active_full_views(
                    self@.addresses.take(i as int),
                    Some(server@),
                ),
            decreases self.delivery_addresses@.len() - i,
        {
            let entry = &self.delivery_addresses[i];
            if entry.active && entry.server.eq(server) {
                addrs.push(entry.full_address());
            }
            i = i + 1;
            proof {
                let s = self@.addresses;
                assert(s.take(i as int).drop_last() =~= s.take(i as int - 1));
                assert(s.take(i as int).last() == s[i as int - 1]);
                assert(string_views(addrs@) =~= active_full_views(
                    s.take(i as int),
                    Some(server@),
                ));
            }
        }
        proof {
            assert(self@.addresses.take(self.delivery_addresses@.len() as int) =~= self@.addresses);
        }
        addrs
    }
}

} // verus!
