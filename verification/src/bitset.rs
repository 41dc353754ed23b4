//! Contracts for the bit set that records which slabs still have a free slot.

use fixedbitset::FixedBitSet;
use vstd::prelude::*;

verus! {

/// `fixedbitset::FixedBitSet`, carried as an opaque value.
#[verifier::external_type_specification]
#[verifier::external_body]
pub struct ExFixedBitSet(FixedBitSet);

/// The indices of the bits that are enabled in a bit set.
pub uninterp spec fn bitset_ones(bits: FixedBitSet) -> Set<int>;

/// The length of a bit set in bits, enabled or not.
pub uninterp spec fn bitset_len(bits: FixedBitSet) -> nat;

/// `FixedBitSet::new`: a bit set of length zero, in which no bit is enabled.
#[verifier::external_body]
pub(crate) fn bitset_new() -> (bits: FixedBitSet)
    ensures
        bitset_ones(bits) == Set::<int>::empty(),
        bitset_len(bits) == 0,
{
    FixedBitSet::new()
}

/// `FixedBitSet::grow_and_insert`: grows the set to hold `bit` where it is
/// too short, then enables `bit`; every other bit keeps its state.
#[verifier::external_body]
pub(crate) fn bitset_grow_and_insert(bits: &mut FixedBitSet, bit: usize)
    requires
        bit < usize::MAX,
    ensures
        bitset_ones(*final(bits)) == bitset_ones(*old(bits)).insert(bit as int),
        bitset_len(*final(bits)) == if bitset_len(*old(bits)) > bit {
            bitset_len(*old(bits))
        } else {
            (bit + 1) as nat
        },
{
    bits.grow_and_insert(bit)
}

/// `FixedBitSet::remove`: disables `bit`, which must lie within the length;
/// every other bit keeps its state, and so does the length.
#[verifier::external_body]
pub(crate) fn bitset_remove(bits: &mut FixedBitSet, bit: usize)
    requires
        bit < bitset_len(*old(bits)),
    ensures
        bitset_ones(*final(bits)) == bitset_ones(*old(bits)).remove(bit as int),
        bitset_len(*final(bits)) == bitset_len(*old(bits)),
{
    bits.remove(bit)
}

/// `FixedBitSet::minimum`: the lowest enabled bit, or `None` where no bit is
/// enabled.
#[verifier::external_body]
pub(crate) fn bitset_minimum(bits: &FixedBitSet) -> (lowest: Option<usize>)
    ensures
        match lowest {
            Some(bit) => bitset_ones(*bits).contains(bit as int) && forall|other: int|
                bitset_ones(*bits).contains(other) ==> bit <= other,
            None => bitset_ones(*bits) == Set::<int>::empty(),
        },
{
    bits.minimum()
}

} // verus!
