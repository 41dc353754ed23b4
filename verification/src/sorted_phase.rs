//! Sorted render phases: instances drawn one by one, farthest first, so that
//! alpha blending composites correctly.

use vstd::prelude::*;

verus! {

/// One instance of a sorted phase.
#[derive(Clone, Copy, Debug, PartialEq, Eq, Structural, Hash)]
pub struct SortedItem {
    /// The entity that is drawn.
    pub entity: u64,
    /// The distance of the instance from the camera along the view
    /// direction: the greater, the farther.
    pub depth: i64,
}

/// A render phase whose instances are drawn in the order of their depth.
pub struct SortedRenderPhase {
    /// The instances: in the order in which they came, until the phase is
    /// sorted.
    pub items: Vec<SortedItem>,
}

/// Whether the item at `first` is drawn before the item at `second`: it is
/// farther, or as far and came earlier.
pub open spec fn draws_before(
    sorted: Seq<SortedItem>,
    origin: Seq<int>,
    first: int,
    second: int,
) -> bool {
    sorted[first].depth > sorted[second].depth || (sorted[first].depth == sorted[second].depth
        && origin[first] < origin[second])
}

/// Whether `origin` places the items of `items` into `sorted`: the item at
/// each position of `sorted` is the item that stood at `origin` of that
/// position in `items`, and every position of `items` is used once.
pub open spec fn rearranges(sorted: Seq<SortedItem>, items: Seq<SortedItem>, origin: Seq<int>)
    -> bool {
    &&& sorted.len() == items.len()
    &&& origin.len() == items.len()
    &&& origin.no_duplicates()
    &&& forall|position: int|
        0 <= position < sorted.len() ==> 0 <= #[trigger] origin[position] < items.len()
            && sorted[position] == items[origin[position]]
}

/// Whether `sorted` holds the items of `items` from back to front: every
/// item of `items` once, a farther item before a nearer one, and items that
/// are equally far in the order in which they stood in `items`.
pub open spec fn is_back_to_front(sorted: Seq<SortedItem>, items: Seq<SortedItem>, origin: Seq<int>)
    -> bool {
    &&& rearranges(sorted, items, origin)
    &&& forall|first: int, second: int|
        0 <= first < second < sorted.len() ==> draws_before(sorted, origin, first, second)
}

impl SortedRenderPhase {
    /// A phase with nothing in it.
    pub fn new() -> (phase: Self)
        ensures
            phase.items@ == Seq::<SortedItem>::empty(),
    {
        SortedRenderPhase { items: Vec::new() }
    }

    /// Adds an instance to the end of the phase.
    pub fn add(&mut self, item: SortedItem)
        ensures
            final(self).items@ == old(self).items@.push(item),
    {
        self.items.push(item);
    }

    /// Whether the phase holds no instance.
    pub fn is_empty(&self) -> (empty: bool)
        ensures
            empty == (self.items@.len() == 0),
    {
        self.items.len() == 0
    }

    /// Sorts the phase from back to front: the farthest instance first, and
    /// instances that are equally far in the order in which they stood.
    pub fn sort(&mut self)
        ensures
            exists|origin: Seq<int>| is_back_to_front(final(self).items@, old(self).items@, origin),
    {
        let count = self.items.len();
        let ghost items = self.items@;
        let ghost mut origin: Seq<int> = Seq::new(count as nat, |position: int| position);
        let mut sorted: usize = 0;
        while sorted < count
            invariant
                sorted <= count,
                count == items.len(),
                rearranges(self.items@, items, origin),
                forall|first: int, second: int|
                    0 <= first < second < sorted ==> draws_before(
                        self.items@,
                        origin,
                        first,
                        second,
                    ),
                forall|position: int| 0 <= position < sorted ==> origin[position] < sorted,
                forall|position: int| sorted <= position < count ==> origin[position] == position,
            decreases count - sorted,
        {
            let mut place: usize = sorted;
            while place > 0 && self.items[place - 1].depth < self.items[place].depth
                invariant
                    place <= sorted < count,
                    count == items.len(),
                    rearranges(self.items@, items, origin),
                    origin[place as int] == sorted,
                    forall|first: int, second: int|
                        0 <= first < second <= sorted && first != place && second != place
                            ==> draws_before(self.items@, origin, first, second),
                    forall|later: int|
                        place < later <= sorted ==> draws_before(
                            self.items@,
                            origin,
                            place as int,
                            later,
                        ),
                    forall|position: int|
                        0 <= position <= sorted && position != place ==> origin[position]
                            < sorted,
                    forall|position: int|
                        sorted < position < count ==> origin[position] == position,
                decreases place,
            {
                let nearer = self.items[place - 1];
                let farther = self.items[place];
                let ghost items_before = self.items@;
                let ghost origin_before = origin;
                self.items.set(place - 1, farther);
                self.items.set(place, nearer);
                proof {
                    let moved = origin[place as int];
                    let passed = origin[place - 1];
                    origin = origin.update(place - 1, moved).update(place as int, passed);
                    let sequence = self.items@;
                    assert forall|first: int, second: int|
                        0 <= first < second <= sorted && first != place - 1 && second != place
                            - 1 implies draws_before(sequence, origin, first, second) by {
                        if first == place {
                            assert(draws_before(items_before, origin_before, place - 1, second));
                        } else if second == place {
                            assert(draws_before(items_before, origin_before, first, place - 1));
                        } else {
                            assert(draws_before(items_before, origin_before, first, second));
                        }
                    }
                    let target: int = place - 1;
                    assert forall|later: int| target < later <= sorted implies #[trigger] draws_before(
                        sequence,
                        origin,
                        target,
                        later,
                    ) by {
                        if later > place {
                            assert(draws_before(items_before, origin_before, place as int, later));
                        }
                    }
                }
                place = place - 1;
            }
            proof {
                let sequence = self.items@;
                assert forall|first: int, second: int|
                    0 <= first < second < sorted + 1 implies draws_before(
                    sequence,
                    origin,
                    first,
                    second,
                ) by {
                    if second == place {
                        if first < place - 1 {
                            assert(draws_before(sequence, origin, first, place - 1));
                        }
                    }
                }
            }
            sorted = sorted + 1;
        }
        proof {
            assert(is_back_to_front(self.items@, items, origin));
        }
    }

    /// The entities of the phase in the order in which they are drawn, one
    /// draw each. This reads the phase and changes nothing.
    pub fn render(&self) -> (draws: Vec<u64>)
        ensures
            draws@ == self.items@.map_values(|item: SortedItem| item.entity),
    {
        let mut draws: Vec<u64> = Vec::new();
        let mut position: usize = 0;
        while position < self.items.len()
            invariant
                position <= self.items@.len(),
                draws@.len() == position,
                forall|earlier: int|
                    0 <= earlier < position ==> draws@[earlier] == self.items@[earlier].entity,
            decreases self.items@.len() - position,
        {
            draws.push(self.items[position].entity);
            position = position + 1;
        }
        proof {
            assert(draws@ =~= self.items@.map_values(|item: SortedItem| item.entity));
        }
        draws
    }
}

/// In a phase that is sorted from back to front, of two items the farther
/// one is drawn first, and of two items that are equally far the one that
/// came first.
pub proof fn lemma_back_to_front_order(
    sorted: Seq<SortedItem>,
    items: Seq<SortedItem>,
    origin: Seq<int>,
    first: int,
    second: int,
)
    requires
        is_back_to_front(sorted, items, origin),
        0 <= first < sorted.len(),
        0 <= second < sorted.len(),
    ensures
        sorted[first].depth > sorted[second].depth ==> first < second,
        sorted[first].depth == sorted[second].depth && origin[first] < origin[second] ==> first
            < second,
{
    if second < first {
        assert(draws_before(sorted, origin, second, first));
    }
}

/// An arrangement that uses every position once uses every position.
proof fn lemma_origin_is_onto(origin: Seq<int>, count: int, wanted: int)
    requires
        origin.len() == count,
        origin.no_duplicates(),
        forall|position: int| 0 <= position < count ==> 0 <= #[trigger] origin[position] < count,
        0 <= wanted < count,
    ensures
        exists|position: int| 0 <= position < count && origin[position] == wanted,
{
    let used = origin.to_set();
    let all = vstd::set_lib::set_int_range(0, count);
    origin.unique_seq_to_set();
    vstd::set_lib::lemma_int_range(0, count);
    assert(used.subset_of(all)) by {
        assert forall|value: int| used.contains(value) implies all.contains(value) by {
            let position = choose|position: int|
                0 <= position < origin.len() && origin[position] == value;
            assert(0 <= origin[position] < count);
        }
    }
    vstd::set_lib::lemma_subset_equality(used, all);
    assert(used.contains(wanted));
}

proof fn lemma_same_origin(
    first: Seq<SortedItem>,
    first_origin: Seq<int>,
    second: Seq<SortedItem>,
    second_origin: Seq<int>,
    items: Seq<SortedItem>,
    position: int,
)
    requires
        is_back_to_front(first, items, first_origin),
        is_back_to_front(second, items, second_origin),
        0 <= position < items.len(),
    ensures
        first_origin[position] == second_origin[position],
    decreases position,
{
    let count = items.len() as int;
    let one = first_origin[position];
    let other = second_origin[position];
    assert forall|earlier: int| 0 <= earlier < position implies first_origin[earlier]
        == second_origin[earlier] by {
        lemma_same_origin(first, first_origin, second, second_origin, items, earlier);
    }
    if one != other {
        lemma_origin_is_onto(second_origin, count, one);
        lemma_origin_is_onto(first_origin, count, other);
        let there = choose|there: int| 0 <= there < count && second_origin[there] == one;
        let here = choose|here: int| 0 <= here < count && first_origin[here] == other;
        if there < position {
            assert(first_origin[there] == first_origin[position]);
        }
        if here < position {
            assert(second_origin[here] == second_origin[position]);
        }
        assert(draws_before(second, second_origin, position, there));
        assert(draws_before(first, first_origin, position, here));
        assert(second[position] == items[other] && second[there] == items[one]);
        assert(first[position] == items[one] && first[here] == items[other]);
    }
}

/// There is one way only to sort a phase from back to front: what `sort`
/// leaves in the phase is determined by what it found there.
pub proof fn lemma_back_to_front_is_unique(
    first: Seq<SortedItem>,
    first_origin: Seq<int>,
    second: Seq<SortedItem>,
    second_origin: Seq<int>,
    items: Seq<SortedItem>,
)
    requires
        is_back_to_front(first, items, first_origin),
        is_back_to_front(second, items, second_origin),
    ensures
        first == second,
        first_origin == second_origin,
{
    assert forall|position: int| 0 <= position < items.len() implies first_origin[position]
        == second_origin[position] by {
        lemma_same_origin(first, first_origin, second, second_origin, items, position);
    }
    assert(first_origin =~= second_origin);
    assert forall|position: int| 0 <= position < first.len() implies first[position]
        == second[position] by {
        assert(first[position] == items[first_origin[position]]);
        assert(second[position] == items[second_origin[position]]);
    }
    assert(first =~= second);
}

} // verus!
