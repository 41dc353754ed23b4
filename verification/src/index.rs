//! Indices of slabs and of the slots within them.
//!
//! Both kinds of index leave the largest value of their integer type unused,
//! so that it can stand for "not allocated" wherever an index is packed into
//! a fixed-width record.

use nonmax::{NonMaxU16, NonMaxU32};
use vstd::prelude::*;
use vstd::std_specs::convert::FromSpecImpl;

verus! {

/// `NonMaxU32::new` followed by `NonMaxU32::get`: the value itself, unless it
/// is `u32::MAX`, which no `NonMaxU32` can hold.
#[verifier::external_body]
fn non_max_u32(value: u32) -> (checked: Option<u32>)
    ensures
        checked == if value == u32::MAX {
            None::<u32>
        } else {
            Some(value)
        },
{
    NonMaxU32::new(value).map(|non_max| non_max.get())
}

/// `NonMaxU16::new` followed by `NonMaxU16::get`: the value itself, unless it
/// is `u16::MAX`, which no `NonMaxU16` can hold.
#[verifier::external_body]
fn non_max_u16(value: u16) -> (checked: Option<u16>)
    ensures
        checked == if value == u16::MAX {
            None::<u16>
        } else {
            Some(value)
        },
{
    NonMaxU16::new(value).map(|non_max| non_max.get())
}

/// The index of the slab (binding array) in which a lightmap is located.
#[derive(Clone, Copy, Debug, PartialEq, Eq, Structural, Hash)]
pub struct LightmapSlabIndex {
    value: u32,
}

impl View for LightmapSlabIndex {
    type V = int;

    closed spec fn view(&self) -> int {
        self.value as int
    }
}

impl LightmapSlabIndex {
    #[verifier::type_invariant]
    spec fn is_not_max(self) -> bool {
        self.value != u32::MAX
    }

    /// The index with the given value, or `None` for the reserved value
    /// `u32::MAX`.
    pub fn new(value: u32) -> (index: Option<Self>)
        ensures
            index.is_some() <==> value != u32::MAX,
            index.is_some() ==> index.unwrap()@ == value,
    {
        match non_max_u32(value) {
            Some(value) => Some(LightmapSlabIndex { value }),
            None => None,
        }
    }

    /// The value of the index, which is never `u32::MAX`.
    pub fn get(self) -> (value: u32)
        ensures
            value == self@,
            value != u32::MAX,
    {
        proof {
            use_type_invariant(self);
        }
        self.value
    }
}

/// The index of the slot (element within the binding array) in the slab in
/// which a lightmap is located.
#[derive(Clone, Copy, Debug, PartialEq, Eq, Structural, Hash)]
pub struct LightmapSlotIndex {
    value: u16,
}

impl View for LightmapSlotIndex {
    type V = int;

    closed spec fn view(&self) -> int {
        self.value as int
    }
}

impl LightmapSlotIndex {
    #[verifier::type_invariant]
    spec fn is_not_max(self) -> bool {
        self.value != u16::MAX
    }

    /// The index with the given value, or `None` for the reserved value
    /// `u16::MAX`.
    pub fn new(value: u16) -> (index: Option<Self>)
        ensures
            index.is_some() <==> value != u16::MAX,
            index.is_some() ==> index.unwrap()@ == value,
    {
        match non_max_u16(value) {
            Some(value) => Some(LightmapSlotIndex { value }),
            None => None,
        }
    }

    /// The value of the index, which is never `u16::MAX`.
    pub fn get(self) -> (value: u16)
        ensures
            value == self@,
            value != u16::MAX,
    {
        proof {
            use_type_invariant(self);
        }
        self.value
    }
}

/// The index of a level of detail of a mesh.
#[derive(Clone, Copy, Debug, PartialEq, Eq, Structural, Hash)]
pub struct LodIndex {
    value: u16,
}

impl View for LodIndex {
    type V = int;

    closed spec fn view(&self) -> int {
        self.value as int
    }
}

impl LodIndex {
    #[verifier::type_invariant]
    spec fn is_not_max(self) -> bool {
        self.value != u16::MAX
    }

    /// The index with the given value, or `None` for the reserved value
    /// `u16::MAX`.
    pub fn new(value: u16) -> (index: Option<Self>)
        ensures
            index.is_some() <==> value != u16::MAX,
            index.is_some() ==> index.unwrap()@ == value,
    {
        match non_max_u16(value) {
            Some(value) => Some(LodIndex { value }),
            None => None,
        }
    }

    /// The value of the index, which is never `u16::MAX`.
    pub fn get(self) -> (value: u16)
        ensures
            value == self@,
            value != u16::MAX,
    {
        proof {
            use_type_invariant(self);
        }
        self.value
    }

    /// The value of an index fits in sixteen bits.
    pub proof fn lemma_in_range(self)
        ensures
            0 <= self@ <= u16::MAX,
    {
    }
}

/// The index of an instance in a buffer of instances.
#[derive(Clone, Copy, Debug, PartialEq, Eq, Structural, Hash)]
pub struct InstanceIndex {
    value: u32,
}

impl View for InstanceIndex {
    type V = int;

    closed spec fn view(&self) -> int {
        self.value as int
    }
}

impl InstanceIndex {
    #[verifier::type_invariant]
    spec fn is_not_max(self) -> bool {
        self.value != u32::MAX
    }

    /// The index with the given value, or `None` for the reserved value
    /// `u32::MAX`.
    pub fn new(value: u32) -> (index: Option<Self>)
        ensures
            index.is_some() <==> value != u32::MAX,
            index.is_some() ==> index.unwrap()@ == value,
    {
        match non_max_u32(value) {
            Some(value) => Some(InstanceIndex { value }),
            None => None,
        }
    }

    /// The value of the index, which is never `u32::MAX`.
    pub fn get(self) -> (value: u32)
        ensures
            value == self@,
            value != u32::MAX,
    {
        proof {
            use_type_invariant(self);
        }
        self.value
    }
}

impl From<LightmapSlabIndex> for usize {
    fn from(value: LightmapSlabIndex) -> (number: usize) {
        value.get() as usize
    }
}

impl FromSpecImpl<LightmapSlabIndex> for usize {
    open spec fn obeys_from_spec() -> bool {
        true
    }

    open spec fn from_spec(value: LightmapSlabIndex) -> usize {
        value@ as usize
    }
}

impl From<LightmapSlotIndex> for usize {
    fn from(value: LightmapSlotIndex) -> (number: usize) {
        value.get() as usize
    }
}

impl FromSpecImpl<LightmapSlotIndex> for usize {
    open spec fn obeys_from_spec() -> bool {
        true
    }

    open spec fn from_spec(value: LightmapSlotIndex) -> usize {
        value@ as usize
    }
}

impl From<LightmapSlotIndex> for u16 {
    fn from(value: LightmapSlotIndex) -> (number: u16) {
        value.get()
    }
}

impl FromSpecImpl<LightmapSlotIndex> for u16 {
    open spec fn obeys_from_spec() -> bool {
        true
    }

    open spec fn from_spec(value: LightmapSlotIndex) -> u16 {
        value@ as u16
    }
}

impl From<LightmapSlotIndex> for u32 {
    fn from(value: LightmapSlotIndex) -> (number: u32) {
        value.get() as u32
    }
}

impl FromSpecImpl<LightmapSlotIndex> for u32 {
    open spec fn obeys_from_spec() -> bool {
        true
    }

    open spec fn from_spec(value: LightmapSlotIndex) -> u32 {
        value@ as u32
    }
}

} // verus!
