//! Binned render phases: instances grouped by batch key, each group drawn
//! over one contiguous range of instances.

use crate::index::LightmapSlabIndex;
use crate::render_lightmap::AssetId;
use vstd::prelude::*;

verus! {

/// The index of a material bind group.
#[derive(Clone, Copy, Debug, PartialEq, Eq, Structural, Hash)]
pub struct MaterialBindGroupIndex {
    pub index: u32,
}

/// The batch key of a mesh instance: the material bind group ID, the mesh
/// ID, and the lightmap ID, respectively. Two instances can share a draw
/// only if all three agree.
#[derive(Clone, Copy, Debug, PartialEq, Eq, Hash)]
pub struct CompareData {
    pub material_bind_group: MaterialBindGroupIndex,
    pub mesh_asset: AssetId,
    pub lightmap_slab: Option<LightmapSlabIndex>,
}

impl CompareData {
    /// Whether two batch keys agree in all three parts.
    pub fn same(&self, other: &CompareData) -> (same: bool)
        ensures
            same == (*self == *other),
    {
        let same_slab = match (self.lightmap_slab, other.lightmap_slab) {
            (Some(first), Some(second)) => first == second,
            (None, None) => true,
            _ => false,
        };
        self.material_bind_group == other.material_bind_group && self.mesh_asset
            == other.mesh_asset && same_slab
    }
}

/// The instances that share one batch key, in the order in which they came.
pub struct Bin {
    pub key: CompareData,
    pub entities: Vec<u64>,
}

/// One draw: a contiguous range of the phase's instances.
#[derive(Clone, Copy, Debug, PartialEq, Eq, Hash)]
pub struct DrawBatch {
    /// The batch key of the instances, or `None` for an instance that is
    /// drawn by itself.
    pub key: Option<CompareData>,
    /// The index of the first instance of the range.
    pub first_instance: usize,
    /// The number of instances in the range.
    pub instance_count: usize,
}

/// A render phase whose instances are grouped by batch key.
pub struct BinnedRenderPhase {
    /// The groups, in the order in which their keys first came.
    pub bins: Vec<Bin>,
    /// The instances that opted out of batching, in the order in which they
    /// came.
    pub unbatchable: Vec<u64>,
}

/// A `Bin` as a mathematical value.
pub ghost struct BinView {
    pub key: CompareData,
    pub entities: Seq<u64>,
}

/// A `BinnedRenderPhase` as a mathematical value.
#[verifier::ext_equal]
pub ghost struct BinnedPhaseView {
    pub bins: Seq<BinView>,
    pub unbatchable: Seq<u64>,
}

impl View for Bin {
    type V = BinView;

    open spec fn view(&self) -> BinView {
        BinView { key: self.key, entities: self.entities@ }
    }
}

impl View for BinnedRenderPhase {
    type V = BinnedPhaseView;

    open spec fn view(&self) -> BinnedPhaseView {
        BinnedPhaseView {
            bins: self.bins@.map_values(|bin: Bin| bin@),
            unbatchable: self.unbatchable@,
        }
    }
}

impl BinnedPhaseView {
    /// The phase with nothing in it.
    pub open spec fn empty() -> BinnedPhaseView {
        BinnedPhaseView { bins: Seq::empty(), unbatchable: Seq::empty() }
    }

    /// No two bins have the same key, and no bin is empty.
    pub open spec fn wf(self) -> bool {
        &&& forall|first: int, second: int|
            0 <= first < self.bins.len() && 0 <= second < self.bins.len() && first != second
                ==> self.bins[first].key != self.bins[second].key
        &&& forall|bin: int| 0 <= bin < self.bins.len() ==> self.bins[bin].entities.len() > 0
    }

    /// Whether `bin` is the bin of the instances with the key `key`.
    pub open spec fn is_bin_of(self, bin: int, key: CompareData) -> bool {
        0 <= bin < self.bins.len() && self.bins[bin].key == key
    }

    /// Whether some bin has the key `key`.
    pub open spec fn has_bin(self, key: CompareData) -> bool {
        exists|bin: int| self.is_bin_of(bin, key)
    }

    /// The bin in which an instance with the key `key` lands: the bin that
    /// has this key, or a new bin after the others.
    pub open spec fn landing(self, key: CompareData) -> int {
        if self.has_bin(key) {
            choose|bin: int| self.is_bin_of(bin, key)
        } else {
            self.bins.len() as int
        }
    }

    /// The phase after an instance came: with a key, it joins the bin of
    /// that key; without one, it stands by itself.
    pub open spec fn add(self, entity: u64, key: Option<CompareData>) -> BinnedPhaseView {
        match key {
            Some(key) => {
                let bin = self.landing(key);
                if bin < self.bins.len() {
                    BinnedPhaseView {
                        bins: self.bins.update(
                            bin,
                            BinView { key, entities: self.bins[bin].entities.push(entity) },
                        ),
                        ..self
                    }
                } else {
                    BinnedPhaseView {
                        bins: self.bins.push(BinView { key, entities: seq![entity] }),
                        ..self
                    }
                }
            },
            None => BinnedPhaseView { unbatchable: self.unbatchable.push(entity), ..self },
        }
    }

    /// How many instances the first `count` bins hold.
    pub open spec fn binned_before(self, count: int) -> int
        decreases count,
    {
        if count <= 0 {
            0
        } else {
            self.binned_before(count - 1) + self.bins[count - 1].entities.len()
        }
    }

    /// How many instances the phase holds.
    pub open spec fn instance_count(self) -> int {
        self.binned_before(self.bins.len() as int) + self.unbatchable.len()
    }

    /// The draws of the phase: one per bin, in the order of the bins, each
    /// over the instances of its bin; then one per instance that stands by
    /// itself. The ranges follow one another without gap or overlap.
    pub open spec fn draws(self) -> Seq<DrawBatch> {
        Seq::new(
            self.bins.len() + self.unbatchable.len(),
            |draw: int|
                if draw < self.bins.len() {
                    DrawBatch {
                        key: Some(self.bins[draw].key),
                        first_instance: self.binned_before(draw) as usize,
                        instance_count: self.bins[draw].entities.len() as usize,
                    }
                } else {
                    DrawBatch {
                        key: None,
                        first_instance: (self.binned_before(self.bins.len() as int) + draw
                            - self.bins.len()) as usize,
                        instance_count: 1,
                    }
                },
        )
    }

    /// With distinct keys, a key has at most one bin.
    pub proof fn lemma_landing(self, key: CompareData)
        requires
            self.wf(),
        ensures
            0 <= self.landing(key) <= self.bins.len(),
            self.landing(key) < self.bins.len() <==> self.has_bin(key),
            forall|bin: int| self.is_bin_of(bin, key) ==> bin == self.landing(key),
    {
    }

    /// Adding an instance keeps the keys distinct, keeps every bin where it
    /// is, and puts the instance into the bin in which it lands.
    pub proof fn lemma_add(self, entity: u64, key: Option<CompareData>)
        requires
            self.wf(),
        ensures
            self.add(entity, key).wf(),
            self.add(entity, key).bins.len() >= self.bins.len(),
            forall|bin: int|
                0 <= bin < self.bins.len() ==> (#[trigger] self.add(entity, key).bins[bin]).key
                    == self.bins[bin].key,
            forall|other: CompareData|
                self.has_bin(other) ==> self.add(entity, key).landing(other) == self.landing(
                    other,
                ),
            key.is_some() ==> self.add(entity, key).is_bin_of(
                self.landing(key.unwrap()),
                key.unwrap(),
            ) && self.add(entity, key).bins[self.landing(key.unwrap())].entities.last()
                == entity,
    {
        let after = self.add(entity, key);
        match key {
            Some(key) => {
                self.lemma_landing(key);
                let bin = self.landing(key);
                assert forall|first: int, second: int|
                    0 <= first < after.bins.len() && 0 <= second < after.bins.len() && first
                        != second implies after.bins[first].key != after.bins[second].key by {
                    if first < self.bins.len() && second < self.bins.len() {
                        assert(after.bins[first].key == self.bins[first].key);
                        assert(after.bins[second].key == self.bins[second].key);
                    } else if first < self.bins.len() {
                        assert(self.is_bin_of(first, self.bins[first].key));
                    } else if second < self.bins.len() {
                        assert(self.is_bin_of(second, self.bins[second].key));
                    }
                }
            },
            None => {},
        }
        assert forall|other: CompareData| self.has_bin(other) implies after.landing(other)
            == self.landing(other) by {
            self.lemma_landing(other);
            let bin = self.landing(other);
            assert(after.is_bin_of(bin, other));
            after.lemma_landing(other);
        }
    }
}

impl BinnedRenderPhase {
    /// A phase with nothing in it.
    pub fn new() -> (phase: Self)
        ensures
            phase@ == BinnedPhaseView::empty(),
            phase@.wf(),
    {
        let phase = BinnedRenderPhase { bins: Vec::new(), unbatchable: Vec::new() };
        proof {
            assert(phase@ =~~= BinnedPhaseView::empty());
        }
        phase
    }

    /// Adds an instance to the phase. An instance with a batch key joins the
    /// instances with the same key, or opens a group where there are none;
    /// an instance without one, which has opted out of batching, is drawn by
    /// itself. Returns the group that the instance joined, if it joined one.
    pub fn add(&mut self, entity: u64, key: Option<CompareData>) -> (bin: Option<usize>)
        requires
            old(self)@.wf(),
        ensures
            final(self)@.wf(),
            final(self)@ == old(self)@.add(entity, key),
            bin == match key {
                Some(key) => Some(old(self)@.landing(key) as usize),
                None => None::<usize>,
            },
    {
        let ghost before = self@;
        proof {
            before.lemma_add(entity, key);
        }
        match key {
            Some(key) => {
                proof {
                    before.lemma_landing(key);
                }
                let mut bin: usize = 0;
                let mut found = false;
                while bin < self.bins.len() && !found
                    invariant
                        *self == *old(self),
                        bin <= self.bins@.len(),
                        forall|earlier: int| 0 <= earlier < bin ==> self.bins@[earlier].key != key,
                        found ==> bin < self.bins@.len() && self.bins@[bin as int].key == key,
                    decreases self.bins@.len() - bin + if found { 0int } else { 1int },
                {
                    if self.bins[bin].key.same(&key) {
                        found = true;
                    } else {
                        bin = bin + 1;
                    }
                }
                if found {
                    proof {
                        assert(before.is_bin_of(bin as int, key));
                    }
                    self.bins[bin].entities.push(entity);
                    proof {
                        assert(self@.bins =~= before.add(entity, Some(key)).bins);
                        assert(self@ =~~= before.add(entity, Some(key)));
                    }
                } else {
                    proof {
                        assert(!before.has_bin(key)) by {
                            if before.has_bin(key) {
                                let found = choose|found: int| before.is_bin_of(found, key);
                                assert(self.bins@[found].key == key);
                            }
                        }
                    }
                    let mut entities: Vec<u64> = Vec::new();
                    entities.push(entity);
                    self.bins.push(Bin { key, entities });
                    proof {
                        assert(self@.bins =~= before.add(entity, Some(key)).bins);
                        assert(self@ =~~= before.add(entity, Some(key)));
                    }
                }
                Some(bin)
            },
            None => {
                self.unbatchable.push(entity);
                proof {
                    assert(self@.bins =~= before.bins);
                    assert(self@ =~~= before.add(entity, None));
                }
                None
            },
        }
    }

    /// Whether the phase holds no instance.
    pub fn is_empty(&self) -> (empty: bool)
        ensures
            empty == (self@.bins.len() == 0 && self@.unbatchable.len() == 0),
            self@.wf() ==> empty == (self@.instance_count() == 0),
    {
        proof {
            if self@.wf() && self@.bins.len() > 0 {
                self@.lemma_binned_before_grows(self@.bins.len() as int);
            }
            assert(self@.binned_before(0) == 0);
        }
        self.bins.len() == 0 && self.unbatchable.len() == 0
    }

    /// The draws of the phase, in order. This reads the phase and changes
    /// nothing.
    pub fn render(&self) -> (draws: Vec<DrawBatch>)
        requires
            self@.instance_count() <= usize::MAX,
        ensures
            draws@ == self@.draws(),
    {
        let mut draws: Vec<DrawBatch> = Vec::new();
        let mut first_instance: usize = 0;
        let mut bin: usize = 0;
        proof {
            self@.lemma_binned_before_monotone(
                self@.bins.len() as int,
                self@.bins.len() as int,
            );
        }
        while bin < self.bins.len()
            invariant
                bin <= self.bins@.len(),
                self@.instance_count() <= usize::MAX,
                first_instance == self@.binned_before(bin as int),
                draws@.len() == bin,
                forall|earlier: int| 0 <= earlier < bin ==> draws@[earlier] == self@.draws()[earlier],
            decreases self.bins@.len() - bin,
        {
            proof {
                self@.lemma_binned_before_monotone(bin as int + 1, self@.bins.len() as int);
            }
            let instance_count = self.bins[bin].entities.len();
            draws.push(DrawBatch { key: Some(self.bins[bin].key), first_instance, instance_count });
            first_instance = first_instance + instance_count;
            bin = bin + 1;
        }
        let mut single: usize = 0;
        while single < self.unbatchable.len()
            invariant
                single <= self.unbatchable@.len(),
                bin == self.bins@.len(),
                self@.instance_count() <= usize::MAX,
                first_instance == self@.binned_before(bin as int) + single,
                draws@.len() == bin + single,
                forall|earlier: int|
                    0 <= earlier < bin + single ==> draws@[earlier] == self@.draws()[earlier],
            decreases self.unbatchable@.len() - single,
        {
            draws.push(DrawBatch { key: None, first_instance, instance_count: 1 });
            first_instance = first_instance + 1;
            single = single + 1;
        }
        proof {
            assert(draws@ =~= self@.draws());
        }
        draws
    }
}

impl BinnedPhaseView {
    /// The count of binned instances never shrinks from bin to bin.
    pub proof fn lemma_binned_before_monotone(self, fewer: int, more: int)
        requires
            0 <= fewer <= more <= self.bins.len(),
        ensures
            0 <= self.binned_before(fewer) <= self.binned_before(more),
        decreases more,
    {
        if fewer < more {
            self.lemma_binned_before_monotone(fewer, more - 1);
        } else if more > 0 {
            self.lemma_binned_before_monotone(fewer - 1, more - 1);
        }
    }

    /// Where no bin is empty, the bins hold at least as many instances as
    /// there are bins.
    pub proof fn lemma_binned_before_grows(self, count: int)
        requires
            self.wf(),
            0 <= count <= self.bins.len(),
        ensures
            self.binned_before(count) >= count,
        decreases count,
    {
        if count > 0 {
            self.lemma_binned_before_grows(count - 1);
        }
    }
}

/// An instance that comes to a phase: an entity, and its batch key unless it
/// has opted out of batching.
pub type BinnedInstance = (u64, Option<CompareData>);

impl BinnedPhaseView {
    /// The phase after the instances in `instances` came, in order.
    pub open spec fn add_all(self, instances: Seq<BinnedInstance>) -> BinnedPhaseView
        decreases instances.len(),
    {
        if instances.len() == 0 {
            self
        } else {
            self.add_all(instances.drop_last()).add(instances.last().0, instances.last().1)
        }
    }

    /// Whatever instances come, the keys stay distinct and a key that has a
    /// bin keeps it.
    pub proof fn lemma_add_all(self, instances: Seq<BinnedInstance>)
        requires
            self.wf(),
        ensures
            self.add_all(instances).wf(),
            self.add_all(instances).bins.len() >= self.bins.len(),
            forall|key: CompareData|
                self.has_bin(key) ==> self.add_all(instances).has_bin(key) && self.add_all(
                    instances,
                ).landing(key) == self.landing(key),
        decreases instances.len(),
    {
        if instances.len() > 0 {
            let before = self.add_all(instances.drop_last());
            self.lemma_add_all(instances.drop_last());
            before.lemma_add(instances.last().0, instances.last().1);
            let after = self.add_all(instances);
            assert forall|key: CompareData| self.has_bin(key) implies after.has_bin(key)
                && after.landing(key) == self.landing(key) by {
                before.lemma_landing(key);
                assert(after.bins[before.landing(key)].key == key);
                assert(after.is_bin_of(before.landing(key), key));
            }
        }
    }

    /// Take two instances that have not opted out of batching, with any
    /// instances coming between them. They land in the
    /// same bin if their batch keys are equal, and in different bins if the
    /// keys differ, in the material bind group, in the mesh, or in the slab.
    pub proof fn lemma_same_bin_iff_same_key(
        self,
        first: u64,
        first_key: CompareData,
        between: Seq<BinnedInstance>,
        second: u64,
        second_key: CompareData,
    )
        requires
            self.wf(),
        ensures
            self.landing(first_key) == self.add(first, Some(first_key)).add_all(between).landing(
                second_key,
            ) <==> first_key == second_key,
            first_key == second_key <==> first_key.material_bind_group
                == second_key.material_bind_group && first_key.mesh_asset == second_key.mesh_asset
                && first_key.lightmap_slab == second_key.lightmap_slab,
    {
        let joined = self.add(first, Some(first_key));
        let later = joined.add_all(between);
        self.lemma_add(first, Some(first_key));
        self.lemma_landing(first_key);
        assert(joined.has_bin(first_key));
        joined.lemma_landing(first_key);
        joined.lemma_add_all(between);
        later.lemma_landing(first_key);
        later.lemma_landing(second_key);
        if later.landing(second_key) == self.landing(first_key) {
            assert(later.is_bin_of(self.landing(first_key), first_key));
            assert(later.has_bin(second_key));
        }
    }

    /// An instance that has opted out of batching joins no bin: the bins
    /// stay as they are, and the instance gets a draw of its own.
    pub proof fn lemma_unbatched_stands_alone(self, entity: u64)
        ensures
            self.add(entity, None).bins == self.bins,
            self.add(entity, None).unbatchable == self.unbatchable.push(entity),
            self.add(entity, None).draws().last().key.is_none(),
            self.add(entity, None).draws().last().instance_count == 1,
            self.instance_count() <= usize::MAX ==> self.add(
                entity,
                None,
            ).draws().last().first_instance == self.instance_count(),
    {
        let after = self.add(entity, None);
        self.lemma_binned_before_of_bins(after, self.bins.len() as int);
        self.lemma_binned_before_monotone(self.bins.len() as int, self.bins.len() as int);
    }

    /// How many instances the first bins hold depends on the bins alone.
    pub proof fn lemma_binned_before_of_bins(self, other: BinnedPhaseView, count: int)
        requires
            self.bins == other.bins,
        ensures
            self.binned_before(count) == other.binned_before(count),
        decreases count,
    {
        if count > 0 {
            self.lemma_binned_before_of_bins(other, count - 1);
        }
    }
}

} // verus!
