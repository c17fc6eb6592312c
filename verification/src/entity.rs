//! Identifiers: the scene's handle of a window and the display server's id.

use vstd::prelude::*;

verus! {

/// Largest generation an entity can carry; the bit above it marks placeholders.
pub const MAX_GENERATION: u32 = 0x7FFF_FFFF;

/// The scene's handle of "a window that should exist", or of a monitor that
/// configuration has bound to an entity.
///
/// An entity is an index and a generation. Packed into 64 bits the generation
/// takes the upper half and the index the lower half; the packed form is the
/// entity's view.
#[derive(Clone, Copy, Debug, PartialEq, Eq, Hash, Structural)]
pub struct Entity {
    index: u32,
    generation: u32,
}

/// The packed form of an entity with the given index and generation.
pub open spec fn pack_entity(index: u32, generation: u32) -> u64 {
    (generation as u64 * 0x1_0000_0000 + index as u64) as u64
}

/// Whether `bits` is the packed form of an entity: its generation is neither
/// zero nor marked as a placeholder.
pub open spec fn valid_entity_bits(bits: u64) -> bool {
    1 <= bits / 0x1_0000_0000 <= MAX_GENERATION
}

impl View for Entity {
    type V = u64;

    closed spec fn view(&self) -> u64 {
        pack_entity(self.index, self.generation)
    }
}

impl Entity {
    #[verifier::type_invariant]
    spec fn generation_in_range(self) -> bool {
        1 <= self.generation <= MAX_GENERATION
    }

    /// The entity's index.
    pub closed spec fn spec_index(self) -> u32 {
        self.index
    }

    /// The entity's generation.
    pub closed spec fn spec_generation(self) -> u32 {
        self.generation
    }

    /// The entity with the given index in its first generation.
    pub fn from_raw(index: u32) -> (entity: Entity)
        ensures
            entity@ == pack_entity(index, 1),
            entity.spec_index() == index,
            entity.spec_generation() == 1,
    {
        Entity { index, generation: 1 }
    }

    /// The entity whose packed form is `bits`, if there is one.
    pub fn from_bits(bits: u64) -> (entity: Option<Entity>)
        ensures
            entity is Some <==> valid_entity_bits(bits),
            entity matches Some(e) ==> e@ == bits,
    {
        let generation: u64 = bits / 0x1_0000_0000;
        let index: u64 = bits % 0x1_0000_0000;
        if 1 <= generation && generation <= 0x7FFF_FFFF {
            Some(Entity { index: index as u32, generation: generation as u32 })
        } else {
            None
        }
    }

    /// The packed form of the entity.
    pub fn to_bits(self) -> (bits: u64)
        ensures
            bits == self@,
            valid_entity_bits(bits),
    {
        proof {
            use_type_invariant(&self);
        }
        self.generation as u64 * 0x1_0000_0000 + self.index as u64
    }

    /// The entity's index.
    pub fn index(self) -> (index: u32)
        ensures
            index == self.spec_index(),
    {
        self.index
    }

    /// The entity's generation.
    pub fn generation(self) -> (generation: u32)
        ensures
            generation == self.spec_generation(),
    {
        self.generation
    }

    /// Two entities are the same exactly when their packed forms are.
    pub proof fn lemma_view_injective(a: Entity, b: Entity)
        ensures
            a@ == b@ <==> a == b,
    {
    }

    /// The view of an entity is the packed form of its index and generation.
    pub proof fn lemma_view_is_packed(self)
        ensures
            self@ == pack_entity(self.spec_index(), self.spec_generation()),
    {
    }
}

/// The identifier that the display server gave a native window. It is valid
/// for as long as that window exists; its view is the raw number.
#[derive(Clone, Copy, Debug, PartialEq, Eq, Hash, Structural)]
pub struct WindowId {
    raw: u64,
}

impl View for WindowId {
    type V = u64;

    closed spec fn view(&self) -> u64 {
        self.raw
    }
}

impl WindowId {
    /// The identifier with the given raw number.
    pub fn from_raw(raw: u64) -> (id: WindowId)
        ensures
            id@ == raw,
    {
        WindowId { raw }
    }

    /// The raw number of the identifier.
    pub fn into_raw(self) -> (raw: u64)
        ensures
            raw == self@,
    {
        self.raw
    }

    /// Two identifiers are the same exactly when their raw numbers are.
    pub proof fn lemma_view_injective(a: WindowId, b: WindowId)
        ensures
            a@ == b@ <==> a == b,
    {
    }
}

} // verus!
