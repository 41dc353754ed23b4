//! A short list of labelled identifiers, kept inline while it is short.

use smallvec::SmallVec;
use vstd::prelude::*;

verus! {

/// A list of pairs of a label and an identifier, of which four are held
/// inline: a `smallvec::SmallVec`, carried as an opaque value.
#[verifier::external_body]
pub struct LabelledIds {
    list: SmallVec<[(u32, u64); 4]>,
}

/// The pairs that a list holds, in order.
pub uninterp spec fn labelled_ids(list: LabelledIds) -> Seq<(u32, u64)>;

/// `SmallVec::new`: a list that holds nothing.
#[verifier::external_body]
pub(crate) fn labelled_new() -> (list: LabelledIds)
    ensures
        labelled_ids(list).len() == 0,
{
    LabelledIds { list: SmallVec::new() }
}

/// `SmallVec::push`: appends a pair to the end of the list.
#[verifier::external_body]
pub(crate) fn labelled_push(list: &mut LabelledIds, label: u32, id: u64)
    ensures
        labelled_ids(*final(list)) == labelled_ids(*old(list)).push((label, id)),
{
    list.list.push((label, id))
}

/// `SmallVec::len`: the number of pairs in the list.
#[verifier::external_body]
pub(crate) fn labelled_len(list: &LabelledIds) -> (len: usize)
    ensures
        len == labelled_ids(*list).len(),
{
    list.list.len()
}

/// Indexing a `SmallVec`: the pair at a position of the list, which must
/// lie within it.
#[verifier::external_body]
pub(crate) fn labelled_get(list: &LabelledIds, position: usize) -> (pair: (u32, u64))
    requires
        position < labelled_ids(*list).len(),
    ensures
        pair == labelled_ids(*list)[position as int],
{
    list.list[position]
}

} // verus!
