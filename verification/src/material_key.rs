//! The key of a material with its type set aside, so that the keys of all
//! materials can be held and compared together.

use bevy_platform::hash::FixedHasher;
use core::hash::BuildHasher;
use vstd::prelude::*;
use vstd::std_specs::cmp::PartialEqSpecImpl;

verus! {

/// The value of the key of a material: nothing, for a material that comes in
/// one variant only, or a set of bits that tells the variants apart.
#[derive(Clone, Copy, Debug, PartialEq, Eq, Structural, Hash)]
pub enum MaterialKeyValue {
    Unit,
    Bits(u64),
}

/// The number that tells the type of a key from the types of other keys.
#[derive(Clone, Copy, Debug, PartialEq, Eq, Structural, Hash)]
pub struct KeyTypeId {
    pub id: u64,
}

/// The type of the key of a material that has no key of its own.
pub const UNIT_KEY_TYPE: u64 = 0;

/// The key of a material, together with the type it had.
#[derive(Clone, Copy, Debug, Hash)]
pub struct ErasedMaterialKey {
    type_id: KeyTypeId,
    hash: u64,
    value: MaterialKeyValue,
}

/// `FixedHasher::hash_one` on the bits of a key: the hash of the bits, of
/// which nothing is claimed here.
#[verifier::external_body]
fn hash_bits(bits: u64) -> u64 {
    FixedHasher.hash_one(bits)
}

impl ErasedMaterialKey {
    /// The type that the key had.
    pub closed spec fn key_type(&self) -> KeyTypeId {
        self.type_id
    }

    /// The value of the key.
    pub closed spec fn key_value(&self) -> MaterialKeyValue {
        self.value
    }

    /// The key of a material, with its type set aside.
    pub fn new(type_id: KeyTypeId, material_key: MaterialKeyValue) -> (key: Self)
        ensures
            key.key_type() == type_id,
            key.key_value() == material_key,
    {
        let hash = match material_key {
            MaterialKeyValue::Unit => hash_bits(0),
            MaterialKeyValue::Bits(bits) => hash_bits(bits),
        };
        ErasedMaterialKey { type_id, hash, value: material_key }
    }

    /// The key itself, as the type `type_id`, which must be the type that
    /// the key had.
    pub fn to_key(&self, type_id: KeyTypeId) -> (material_key: MaterialKeyValue)
        requires
            type_id == self.key_type(),
        ensures
            material_key == self.key_value(),
    {
        self.value
    }

    /// The hash of the key's value, as it was taken when the key was made.
    /// Keys that are equal were made from equal values and so have equal
    /// hashes, if the hasher gives equal hashes to equal values.
    pub fn stored_hash(&self) -> (hash: u64)
        ensures
            hash == self.key_hash(),
    {
        self.hash
    }

    /// The hash that the key holds: what the hasher gave for the key's
    /// value when the key was made. A copy of a key holds the same hash.
    pub closed spec fn key_hash(&self) -> u64 {
        self.hash
    }
}

impl PartialEq for ErasedMaterialKey {
    fn eq(&self, other: &Self) -> (equal: bool) {
        self.type_id == other.type_id && self.value == other.value
    }
}

impl Eq for ErasedMaterialKey {

}

impl PartialEqSpecImpl for ErasedMaterialKey {
    open spec fn obeys_eq_spec() -> bool {
        true
    }

    open spec fn eq_spec(&self, other: &Self) -> bool {
        self.key_type() == other.key_type() && self.key_value() == other.key_value()
    }
}

impl Default for ErasedMaterialKey {
    fn default() -> (key: Self)
        ensures
            key.key_type() == (KeyTypeId { id: UNIT_KEY_TYPE }),
            key.key_value() == MaterialKeyValue::Unit,
    {
        Self::new(KeyTypeId { id: UNIT_KEY_TYPE }, MaterialKeyValue::Unit)
    }
}

} // verus!
