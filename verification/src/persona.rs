//! Public display profiles (personas) and the slot-indexed store that holds
//! them.
//!
//! A store always carries one default persona plus up to 65 535 numbered
//! personas. Slot 0 is reserved and never assigned; insertion always picks
//! the lowest unused non-zero 16-bit slot, and removal frees a slot for
//! reuse.
use vstd::prelude::*;

use crate::Error;

verus! {

/// A profile picture, signed for authenticity by its owning identity.
#[derive(Debug)]
pub struct ProfilePicture {
    /// MIME type of the image, e.g. "image/png".
    pub mime_type: String,
    /// Raw image data, or a hash/link if large.
    pub data: Vec<u8>,
    /// Unix timestamp of the upload.
    pub uploaded_at: u64,
    /// Ed25519 signature binding the picture to its owning identity.
    pub signature: Vec<u8>,
}

/// Mathematical value of a [`ProfilePicture`].
#[verifier::ext_equal]
pub ghost struct ProfilePictureView {
    pub mime_type: Seq<char>,
    pub data: Seq<u8>,
    pub uploaded_at: u64,
    pub signature: Seq<u8>,
}

impl View for ProfilePicture {
    type V = ProfilePictureView;

    open spec fn view(&self) -> ProfilePictureView {
        ProfilePictureView {
            mime_type: self.mime_type@,
            data: self.data@,
            uploaded_at: self.uploaded_at,
            signature: self.signature@,
        }
    }
}

impl Clone for ProfilePicture {
    fn clone(&self) -> (res: Self)
        ensures
            res@ == self@,
    {
        let res = ProfilePicture {
            mime_type: self.mime_type.clone(),
            data: self.data.clone(),
            uploaded_at: self.uploaded_at,
            signature: self.signature.clone(),
        };
        proof {
            assert(res@ =~= self@);
        }
        res
    }
}

/// The view of an optional string.
pub open spec fn opt_string_view(o: Option<String>) -> Option<Seq<char>> {
    match o {
        Some(s) => Some(s@),
        None => None,
    }
}

/// The view of an optional profile picture.
pub open spec fn opt_picture_view(o: Option<ProfilePicture>) -> Option<ProfilePictureView> {
    match o {
        Some(p) => Some(p@),
        None => None,
    }
}

/// A selectable public display profile, distinct from the cryptographic
/// identity. A persona has no identity of its own: it is identified only by
/// its slot in a [`PersonaStore`].
#[derive(Debug)]
pub struct Persona {
    /// Name to display for this persona.
    pub display_name: String,
    /// Optional profile picture to display for this persona.
    pub profile_picture: Option<ProfilePicture>,
    /// Optional biography to display for this persona.
    pub bio: Option<String>,
    /// Optional pronouns to display for this persona.
    pub pronouns: Option<String>,
}

/// Mathematical value of a [`Persona`].
#[verifier::ext_equal]
pub ghost struct PersonaView {
    pub display_name: Seq<char>,
    pub profile_picture: Option<ProfilePictureView>,
    pub bio: Option<Seq<char>>,
    pub pronouns: Option<Seq<char>>,
}

impl View for Persona {
    type V = PersonaView;

    open spec fn view(&self) -> PersonaView {
        PersonaView {
            display_name: self.display_name@,
            profile_picture: opt_picture_view(self.profile_picture),
            bio: opt_string_view(self.bio),
            pronouns: opt_string_view(self.pronouns),
        }
    }
}

impl Clone for Persona {
    fn clone(&self) -> (res: Self)
        ensures
            res@ == self@,
    {
        let profile_picture = match &self.profile_picture {
            Some(p) => Some(p.clone()),
            None => None,
        };
        let bio = match &self.bio {
            Some(s) => Some(s.clone()),
            None => None,
        };
        let pronouns = match &self.pronouns {
            Some(s) => Some(s.clone()),
            None => None,
        };
        let res = Persona { display_name: self.display_name.clone(), profile_picture, bio, pronouns };
        proof {
            assert(res@ =~~= self@);
        }
        res
    }
}

/// Identifier of a persona: either the sentinel default, or a non-zero
/// 16-bit numbered slot. Slot 0 is reserved and never assigned.
#[derive(Debug, Clone, Copy, PartialEq, Eq, Structural)]
pub enum PersonaId {
    /// The default persona, always present.
    Default,
    /// A numbered persona slot; only non-zero slots are ever occupied.
    Id(u16),
}

/// The default persona plus a mapping from non-zero 16-bit slots to numbered
/// personas.
///
/// Representation: `slots[s]` holds the persona of slot `s` (index 0 is the
/// reserved slot and stays empty), and `first_free` caches the smallest
/// unused non-zero slot (65 536 when every slot is occupied), so that
/// insertion finds the lowest free slot without rescanning from the start.
pub struct PersonaStore {
    default_persona: Persona,
    slots: Vec<Option<Persona>>,
    first_free: u32,
}

/// Mathematical value of a [`PersonaStore`]: the default persona and the map
/// of occupied numbered slots.
#[verifier::ext_equal]
pub ghost struct PersonaStoreView {
    pub default_persona: PersonaView,
    pub personas: Map<u16, PersonaView>,
}

impl View for PersonaStore {
    type V = PersonaStoreView;

    closed spec fn view(&self) -> PersonaStoreView {
        PersonaStoreView { default_persona: self.default_persona@, personas: self.personas_map() }
    }
}

impl PersonaStore {
    /// Whether numbered slot `s` is occupied. Slot 0 never is.
    pub closed spec fn occupied(self, s: u16) -> bool {
        &&& 1 <= s
        &&& (s as int) < self.slots@.len()
        &&& self.slots@[s as int] is Some
    }

    /// The persona occupying slot `s`.
    pub closed spec fn persona_at(self, s: u16) -> PersonaView
        recommends
            self.occupied(s),
    {
        self.slots@[s as int].unwrap()@
    }

    /// The map of occupied numbered slots to their personas.
    pub closed spec fn personas_map(self) -> Map<u16, PersonaView> {
        Map::new(|s: u16| self.occupied(s), |s: u16| self.persona_at(s))
    }

    /// Internal invariant: the slot vector never exceeds the 16-bit slot
    /// space, and `first_free` is exactly the smallest unused non-zero slot.
    pub closed spec fn wf(self) -> bool {
        &&& self.slots@.len() <= 65536
        &&& 1 <= self.first_free <= 65536
        &&& forall|s: u16| 1 <= s && (s as u32) < self.first_free ==> self.occupied(s)
        &&& self.first_free <= 65535 ==> !self.occupied(self.first_free as u16)
    }

    /// Create a store holding only the given default persona.
    pub fn new(default_persona: Persona) -> (store: PersonaStore)
        ensures
            store.wf(),
            store@.default_persona == default_persona@,
            store@.personas == Map::<u16, PersonaView>::empty(),
    {
        let store = PersonaStore { default_persona, slots: Vec::new(), first_free: 1 };
        proof {
            assert(store.personas_map() =~= Map::<u16, PersonaView>::empty());
            assert(store@.personas == Map::<u16, PersonaView>::empty());
        }
        store
    }

    /// The default persona; it has no slot and cannot be removed.
    pub fn default_persona(&self) -> (persona: &Persona)
        ensures
            persona@ == self@.default_persona,
    {
        &self.default_persona
    }

    /// Insert a persona at the smallest unused non-zero slot, or fail with
    /// [`Error::PersonasFull`] once all 65 535 numbered slots are occupied.
    #[verifier::loop_isolation(false)]
    pub fn add(&mut self, persona: Persona) -> (result: Result<u16, Error>)
        requires
            old(self).wf(),
        ensures
            final(self).wf(),
            final(self)@.default_persona == old(self)@.default_persona,
            match result {
                Ok(slot) => {
                    &&& 1 <= slot
                    &&& !old(self)@.personas.dom().contains(slot)
                    &&& forall|j: u16| 1 <= j < slot ==> old(self)@.personas.dom().contains(j)
                    &&& final(self)@.personas == old(self)@.personas.insert(slot, persona@)
                },
                Err(e) => {
                    &&& e == Error::PersonasFull
                    &&& forall|j: u16| 1 <= j ==> old(self)@.personas.dom().contains(j)
                    &&& final(self)@ == old(self)@
                },
            },
    {
        if self.first_free > 65535 {
            return Err(Error::PersonasFull);
        }
        let slot32: u32 = self.first_free;
        let slot: u16 = slot32 as u16;
        proof {
            assert(slot as u32 == slot32);
        }
        let idx: usize = slot as usize;
        let ghost orig = self.slots@;

        while self.slots.len() <= idx
            invariant
                self.default_persona == old(self).default_persona,
                orig.len() <= self.slots@.len(),
                self.slots@.len() <= orig.len() || self.slots@.len() <= idx + 1,
                forall|j: int| 0 <= j < orig.len() ==> self.slots@[j] == orig[j],
                forall|j: int| orig.len() <= j < self.slots@.len() ==> self.slots@[j] is None,
            decreases idx + 1 - self.slots@.len(),
        {
            self.slots.push(None);
        }
        self.slots.set(idx, Some(persona));

        let mut f: u32 = slot32 + 1;
        while f <= 65535 && (f as usize) < self.slots.len() && slot_is_some(&self.slots, f as usize)
            invariant
                slot32 + 1 <= f <= 65536,
                forall|j: u16| slot < j && (j as u32) < f ==> self.occupied(j),
            decreases 65536 - f,
        {
            f = f + 1;
        }
        let ghost mid = *self;
        self.first_free = f;

        proof {
            assert(self.slots@ == mid.slots@);
            assert forall|j: u16| j != slot implies (self.occupied(j) == old(self).occupied(j)
                && (self.occupied(j) ==> self.persona_at(j) == old(self).persona_at(j))) by {
                if (j as int) < orig.len() {
                    assert(self.slots@[j as int] == orig[j as int]);
                } else if (j as int) < self.slots@.len() {
                    assert(self.slots@[j as int] is None);
                }
            }
            assert(self.occupied(slot) && self.persona_at(slot) == persona@);
            assert forall|j: u16| 1 <= j < slot implies old(self).occupied(j) by {
                assert((j as u32) < slot32);
            }
            assert forall|j: u16| 1 <= j && (j as u32) < self.first_free implies self.occupied(j)
                by {
                if j == slot {
                    assert(self.slots@[idx as int] is Some);
                } else if (j as u32) < slot32 {
                    assert(old(self).occupied(j));
                    assert((j as int) < orig.len());
                    assert(self.slots@[j as int] == orig[j as int]);
                } else {
                    assert(slot < j && (j as u32) < f);
                    assert(mid.occupied(j));
                }
            }
            assert(self.personas_map() =~= old(self).personas_map().insert(slot, persona@));
            assert(self@.personas == old(self)@.personas.insert(slot, persona@));
        }
        Ok(slot)
    }

    /// Look up a persona: the default always resolves, a numbered slot only
    /// if it is occupied.
    pub fn get(&self, id: PersonaId) -> (found: Option<&Persona>)
        ensures
            match id {
                PersonaId::Default => found matches Some(p) && p@ == self@.default_persona,
                PersonaId::Id(s) => {
                    if self@.personas.dom().contains(s) {
                        found matches Some(p) && p@ == self@.personas[s]
                    } else {
                        found is None
                    }
                },
            },
    {
        match id {
            PersonaId::Default => Some(&self.default_persona),
            PersonaId::Id(s) => {
                if s != 0 && (s as usize) < self.slots.len() {
                    match &self.slots[s as usize] {
                        Some(p) => Some(p),
                        None => None,
                    }
                } else {
                    None
                }
            },
        }
    }

    /// Remove and return the persona at a numbered slot, freeing the slot
    /// for future insertion, or fail with [`Error::PersonaNotFound`] if the
    /// slot is not occupied. The default persona has no slot and can never
    /// be removed through this interface.
    pub fn remove(&mut self, id: u16) -> (result: Result<Persona, Error>)
        requires
            old(self).wf(),
        ensures
            final(self).wf(),
            final(self)@.default_persona == old(self)@.default_persona,
            match result {
                Ok(p) => {
                    &&& old(self)@.personas.dom().contains(id)
                    &&& p@ == old(self)@.personas[id]
                    &&& final(self)@.personas == old(self)@.personas.remove(id)
                },
                Err(e) => {
                    &&& e == Error::PersonaNotFound
                    &&& !old(self)@.personas.dom().contains(id)
                    &&& final(self)@ == old(self)@
                },
            },
    {
        if id == 0 {
            return Err(Error::PersonaNotFound);
        }
        let idx: usize = id as usize;
        if idx >= self.slots.len() {
            return Err(Error::PersonaNotFound);
        }
        let mut taken: Option<Persona> = None;
        self.slots.set_and_swap(idx, &mut taken);
        match taken {
            Some(p) => {
                if (id as u32) < self.first_free {
                    self.first_free = id as u32;
                }
                proof {
                    assert forall|s: u16| s != id implies (self.occupied(s) == old(
                        self,
                    ).occupied(s) && (self.occupied(s) ==> self.persona_at(s) == old(
                        self,
                    ).persona_at(s))) by {
                        if (s as int) < old(self).slots@.len() {
                            assert(self.slots@[s as int] == old(self).slots@[s as int]);
                        }
                    }
                    assert(!self.occupied(id));
                    assert forall|s: u16|
                        1 <= s && (s as u32) < self.first_free implies self.occupied(s) by {
                        assert((s as u32) < old(self).first_free);
                        assert(old(self).occupied(s));
                        assert(s != id);
                        assert(self.slots@[s as int] == old(self).slots@[s as int]);
                    }
                    if self.first_free <= 65535 {
                        if self.first_free == id as u32 {
                            assert(self.first_free as u16 == id);
                            assert(!self.occupied(id));
                        } else {
                            let s = self.first_free as u16;
                            assert(s as u32 == self.first_free);
                            assert(!old(self).occupied(s));
                            assert(s != id);
                            if (s as int) < old(self).slots@.len() {
                                assert(self.slots@[s as int] == old(self).slots@[s as int]);
                            }
                            assert(!self.occupied(s));
                        }
                    }
                    assert(self.personas_map() =~= old(self).personas_map().remove(id));
                    assert(self@.personas == old(self)@.personas.remove(id));
                }
                Ok(p)
            },
            None => {
                proof {
                    assert(self.slots@ =~= old(self).slots@);
                    assert(self.personas_map() =~= old(self).personas_map());
                    assert(self@.personas == old(self)@.personas);
                    assert forall|s: u16|
                        1 <= s && (s as u32) < self.first_free implies self.occupied(s) by {
                        assert(old(self).occupied(s));
                    }
                    assert(self.wf());
                }
                Err(Error::PersonaNotFound)
            },
        }
    }

    /// Clone the store, preserving its value and its invariant.
    #[verifier::loop_isolation(false)]
    pub fn snapshot(&self) -> (copy: PersonaStore)
        ensures
            copy@ == self@,
            self.wf() ==> copy.wf(),
    {
        let mut slots: Vec<Option<Persona>> = Vec::new();
        let mut i: usize = 0;
        while i < self.slots.len()
            invariant
                i <= self.slots@.len(),
                slots@.len() == i,
                forall|j: int| 0 <= j < i ==> (slots@[j] is Some) == (self.slots@[j] is Some),
                forall|j: int|
                    0 <= j < i && self.slots@[j] is Some
                        ==> slots@[j].unwrap()@ == self.slots@[j].unwrap()@,
            decreases self.slots@.len() - i,
        {
            match &self.slots[i] {
                Some(p) => slots.push(Some(p.clone())),
                None => slots.push(None),
            }
            i = i + 1;
        }
        let copy = PersonaStore {
            default_persona: self.default_persona.clone(),
            slots,
            first_free: self.first_free,
        };
        proof {
            assert forall|s: u16| copy.occupied(s) == self.occupied(s) by {}
            assert(copy.personas_map() =~= self.personas_map());
            assert(copy@.personas == self@.personas);
        }
        copy
    }
}

/// Whether the entry at index `i` holds a persona.
fn slot_is_some(slots: &Vec<Option<Persona>>, i: usize) -> (r: bool)
    requires
        i < slots@.len(),
    ensures
        r == (slots@[i as int] is Some),
{
    match &slots[i] {
        Some(_) => true,
        None => false,
    }
}

} // verus!
