//! Signed, policy-bounded information packages: immutable snapshots of a
//! user's public identity state, for out-of-band trust bootstrap.
//!
//! A package is a value type: it is cloned out of the live identity at build
//! time, so mutating the identity afterwards never affects an already-built
//! package. The issuance policy — time to live and maximum use count — is a
//! caller-overridable configuration point with documented defaults.
use vstd::prelude::*;

use crate::crypto;
use crate::persona::Persona;
use crate::persona::PersonaStore;
use crate::persona::PersonaView;
use crate::persona::ProfilePicture;
use crate::persona::ProfilePictureView;
use crate::persona::opt_picture_view;
use crate::user::DevicePublicInfo;
use crate::user::DevicePublicInfoView;
use crate::user::UserId;
use crate::user::UserIdView;
use crate::user::device_views;

verus! {

/// Default time to live of an information package: 24 hours. A verifier
/// considers the package expired this many seconds past `created_at`.
pub const DEFAULT_TTL_SECONDS: u32 = 86400;

/// Default maximum number of uses (e.g. scans) of an information package.
/// Enforcement is external; the builder only records the stated limit.
pub const DEFAULT_MAX_USES: u32 = 100;

/// The kind of an uploaded information package.
#[derive(Debug, Clone, Copy, PartialEq, Eq, Structural)]
pub enum InfoPackageType {
    /// A snapshot of a user's public identity state.
    Identity,
}

/// An immutable snapshot of a user's public identity state.
pub struct IdentityInfoPackage {
    /// The user's 32-byte account identifier.
    pub user_id: Vec<u8>,
    /// The user's root public key.
    pub user_public_key: Vec<u8>,
    /// The linked devices, cloned at snapshot time.
    pub devices: Vec<DevicePublicInfo>,
    /// The default persona, cloned at snapshot time.
    pub default_persona: Persona,
    /// The persona store, cloned at snapshot time.
    pub personas: PersonaStore,
    /// Profile picture chosen for this package.
    pub profile_picture: Option<ProfilePicture>,
    /// Unix timestamp of creation of the package.
    pub created_at: u64,
}

/// Mathematical value of an [`IdentityInfoPackage`].
#[verifier::ext_equal]
pub ghost struct IdentityInfoPackageView {
    pub user_id: Seq<u8>,
    pub user_public_key: Seq<u8>,
    pub devices: Seq<DevicePublicInfoView>,
    pub default_persona: PersonaView,
    pub personas: Map<u16, PersonaView>,
    pub profile_picture: Option<ProfilePictureView>,
    pub created_at: u64,
}

impl View for IdentityInfoPackage {
    type V = IdentityInfoPackageView;

    open spec fn view(&self) -> IdentityInfoPackageView {
        IdentityInfoPackageView {
            user_id: self.user_id@,
            user_public_key: self.user_public_key@,
            devices: device_views(self.devices@),
            default_persona: self.default_persona@,
            personas: self.personas@.personas,
            profile_picture: opt_picture_view(self.profile_picture),
            created_at: self.created_at,
        }
    }
}

/// The content of an information package upload.
pub enum InfoPackageContent {
    /// A user identity snapshot.
    Identity(IdentityInfoPackage),
}

/// An upload-ready information package: the snapshot wrapped with its
/// issuance policy.
pub struct InfoPackageUploadRequest {
    /// The kind of package being uploaded.
    pub package_type: InfoPackageType,
    /// The snapshot itself.
    pub content: InfoPackageContent,
    /// Seconds after `created_at` at which any verifier considers the
    /// package expired (24 hours by default).
    pub ttl_seconds: u32,
    /// Bound on the observed-use count after which a consuming service
    /// should reject the package; `None` means unlimited (the default is up
    /// to 100 uses).
    pub max_uses: Option<u32>,
}

/// What it means for a package to be a faithful snapshot of a user's public
/// state with a chosen profile picture: every field but `created_at` is
/// pinned to the user's state at build time.
pub open spec fn is_snapshot_of(
    pkg: IdentityInfoPackageView,
    user: UserIdView,
    pfp: Option<ProfilePictureView>,
) -> bool {
    &&& pkg.user_id == user.id
    &&& pkg.user_public_key == user.public_key
    &&& pkg.devices == user.devices
    &&& pkg.default_persona == user.default_persona
    &&& pkg.personas == user.personas
    &&& pkg.profile_picture == pfp
}

/// Two snapshots of the same account (equal id, key, personas and chosen
/// picture) can differ only in their device lists and creation timestamps;
/// and each device list is exactly the user's at its own build time.
pub proof fn lemma_snapshots_differ_only_in_devices(
    u1: UserIdView,
    u2: UserIdView,
    p1: IdentityInfoPackageView,
    p2: IdentityInfoPackageView,
    pfp: Option<ProfilePictureView>,
)
    requires
        is_snapshot_of(p1, u1, pfp),
        is_snapshot_of(p2, u2, pfp),
        u2.id == u1.id,
        u2.public_key == u1.public_key,
        u2.default_persona == u1.default_persona,
        u2.personas == u1.personas,
    ensures
        p2.user_id == p1.user_id,
        p2.user_public_key == p1.user_public_key,
        p2.default_persona == p1.default_persona,
        p2.personas == p1.personas,
        p2.profile_picture == p1.profile_picture,
        p1.devices == u1.devices,
        p2.devices == u2.devices,
{
}

impl UserId {
    /// Build an upload-ready information package with an explicit profile
    /// picture and issuance policy. The snapshot is taken at call time:
    /// later mutation of this identity never changes the returned package.
    #[verifier::loop_isolation(false)]
    pub fn create_info_package_with_policy(
        &self,
        pfp: Option<ProfilePicture>,
        ttl_seconds: u32,
        max_uses: Option<u32>,
    ) -> (request: InfoPackageUploadRequest)
        ensures
            request.package_type is Identity,
            request.ttl_seconds == ttl_seconds,
            request.max_uses == max_uses,
            request.content matches InfoPackageContent::Identity(pkg) && is_snapshot_of(
                pkg@,
                self@,
                opt_picture_view(pfp),
            ),
    {
        let mut devices: Vec<DevicePublicInfo> = Vec::new();
        let mut i: usize = 0;
        while i < self.devices_len()
            invariant
                i <= self@.devices.len(),
                device_views(devices@) =~= self@.devices.take(i as int),
            decreases self@.devices.len() - i,
        {
            devices.push(self.device_at(i).clone());
            i = i + 1;
            proof {
                assert(device_views(devices@) =~= self@.devices.take(i as int));
            }
        }
        proof {
            assert(self@.devices.take(self@.devices.len() as int) =~= self@.devices);
        }
        let package = IdentityInfoPackage {
            user_id: crypto::clone_bytes(self.user_id_bytes()),
            user_public_key: crypto::clone_bytes(self.public_key_bytes()),
            devices,
            default_persona: self.default_persona().clone(),
            personas: self.persona_store_snapshot(),
            profile_picture: pfp,
            created_at: crypto::now_unix(),
        };
        InfoPackageUploadRequest {
            package_type: InfoPackageType::Identity,
            content: InfoPackageContent::Identity(package),
            ttl_seconds,
            max_uses,
        }
    }

    /// Build an information package with an explicit profile picture and the
    /// default policy: a 24-hour time to live and up to 100 uses.
    pub fn create_info_package_with_pfp(&self, pfp: Option<ProfilePicture>) -> (request:
        InfoPackageUploadRequest)
        ensures
            request.package_type is Identity,
            request.ttl_seconds == DEFAULT_TTL_SECONDS,
            request.max_uses == Some(DEFAULT_MAX_USES),
            request.content matches InfoPackageContent::Identity(pkg) && is_snapshot_of(
                pkg@,
                self@,
                opt_picture_view(pfp),
            ),
    {
        self.create_info_package_with_policy(pfp, DEFAULT_TTL_SECONDS, Some(DEFAULT_MAX_USES))
    }

    /// Build an information package carrying the default persona's profile
    /// picture, under the default policy.
    pub fn create_info_package(&self) -> (request: InfoPackageUploadRequest)
        ensures
            request.package_type is Identity,
            request.ttl_seconds == DEFAULT_TTL_SECONDS,
            request.max_uses == Some(DEFAULT_MAX_USES),
            request.content matches InfoPackageContent::Identity(pkg) && is_snapshot_of(
                pkg@,
                self@,
                self@.default_persona.profile_picture,
            ),
    {
        let pfp = match &self.default_persona().profile_picture {
            Some(p) => Some(p.clone()),
            None => None,
        };
        self.create_info_package_with_policy(pfp, DEFAULT_TTL_SECONDS, Some(DEFAULT_MAX_USES))
    }
}

} // verus!
