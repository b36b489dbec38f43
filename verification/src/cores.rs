//! The histories of all cores of a processor.

use crate::metrics::CpuCoreMetrics;
use crate::stores::{FreqSample, FreqSampleView, FreqStore, FreqStoreView};
use vstd::prelude::*;

verus! {

/// Which core of which die.
#[derive(Clone, Copy, Debug, PartialEq, Eq, Structural)]
pub struct CoreId {
    pub die_id: usize,
    pub core_id: usize,
}

impl CoreId {
    /// The core that was measured.
    pub open spec fn of(core: CpuCoreMetrics) -> CoreId {
        CoreId { die_id: core.die_id, core_id: core.core_id }
    }

    /// The order of the cores: by die, and within a die by core.
    pub open spec fn before(self, other: CoreId) -> bool {
        self.die_id < other.die_id || (self.die_id == other.die_id && self.core_id < other.core_id)
    }

    /// The core that was measured.
    pub fn from_core(core: &CpuCoreMetrics) -> (id: CoreId)
        ensures
            id == CoreId::of(*core),
    {
        CoreId { die_id: core.die_id, core_id: core.core_id }
    }

    /// Whether one core comes before another.
    fn is_before(&self, other: CoreId) -> (before: bool)
        ensures
            before == self.before(other),
    {
        self.die_id < other.die_id || self.die_id == other.die_id && self.core_id < other.core_id
    }
}

/// The history of one core.
#[derive(Debug)]
pub struct CoreStore {
    pub id: CoreId,
    pub store: FreqStore,
}

/// What the history of one core holds.
#[verifier::ext_equal]
pub struct CoreView {
    pub id: CoreId,
    pub store: FreqStoreView,
}

impl View for CoreStore {
    type V = CoreView;

    open spec fn view(&self) -> CoreView {
        CoreView { id: self.id, store: self.store@ }
    }
}

/// The history of a processor, and those of its cores in their order.
#[derive(Debug)]
pub struct CpuFreqStore {
    pub aggregate: FreqStore,
    pub cores: Vec<CoreStore>,
}

/// What the histories of a processor and its cores hold.
pub struct CpuFreqStoreView {
    pub aggregate: FreqStoreView,
    pub cores: Seq<CoreView>,
}

/// What the histories of cores hold.
pub open spec fn cores_view(cores: Seq<CoreStore>) -> Seq<CoreView> {
    cores.map_values(|core: CoreStore| core@)
}

impl View for CpuFreqStore {
    type V = CpuFreqStoreView;

    open spec fn view(&self) -> CpuFreqStoreView {
        CpuFreqStoreView { aggregate: self.aggregate@, cores: cores_view(self.cores@) }
    }
}

/// Whether each core comes before the next.
pub open spec fn in_order(cores: Seq<CoreView>) -> bool {
    forall|i: int, j: int|
        0 <= i < j < cores.len() ==> (#[trigger] cores[i]).id.before((#[trigger] cores[j]).id)
}

/// Whether a core has a history.
pub open spec fn has_core(cores: Seq<CoreView>, id: CoreId) -> bool {
    exists|i: int| 0 <= i < cores.len() && (#[trigger] cores[i]).id == id
}

/// The histories by core.
pub open spec fn by_core(cores: Seq<CoreView>) -> Map<CoreId, FreqStoreView> {
    Map::new(
        |id: CoreId| has_core(cores, id),
        |id: CoreId|
            {
                let i = choose|i: int| 0 <= i < cores.len() && (#[trigger] cores[i]).id == id;
                cores[i].store
            },
    )
}

/// The histories after a sample of one core; the first sample of a core begins its history.
pub open spec fn with_sample(
    histories: Map<CoreId, FreqStoreView>,
    id: CoreId,
    sample: FreqSampleView,
) -> Map<CoreId, FreqStoreView> {
    let history = if histories.contains_key(id) {
        histories[id]
    } else {
        FreqStoreView::empty()
    };
    histories.insert(id, history.pushed(sample))
}

/// The histories after the samples of some cores.
pub open spec fn with_samples(
    histories: Map<CoreId, FreqStoreView>,
    cores: Seq<CpuCoreMetrics>,
) -> Map<CoreId, FreqStoreView>
    decreases cores.len(),
{
    if cores.len() == 0 {
        histories
    } else {
        with_sample(
            with_samples(histories, cores.drop_last()),
            CoreId::of(cores.last()),
            FreqSampleView::of_core(cores.last()),
        )
    }
}

/// Whether a core is among those that were measured.
pub open spec fn is_measured(cores: Seq<CpuCoreMetrics>, id: CoreId) -> bool {
    exists|i: int| 0 <= i < cores.len() && CoreId::of(#[trigger] cores[i]) == id
}

/// The histories after a measurement: a core that was measured gets its samples, and one that was
/// not gets that of a core that is off.
pub open spec fn after_measurement(
    histories: Map<CoreId, FreqStoreView>,
    cores: Seq<CpuCoreMetrics>,
) -> Map<CoreId, FreqStoreView> {
    let sampled = with_samples(histories, cores);
    Map::new(
        |id: CoreId| sampled.contains_key(id),
        |id: CoreId|
            if is_measured(cores, id) {
                sampled[id]
            } else {
                sampled[id].pushed(FreqSampleView::idle())
            },
    )
}

impl CpuFreqStoreView {
    /// Whether there is at most one history for each core, and they are in order.
    pub open spec fn well_formed(self) -> bool {
        in_order(self.cores)
    }

    /// Whether no sample has come in yet.
    pub open spec fn is_empty(self) -> bool {
        &&& self.aggregate == FreqStoreView::empty()
        &&& self.cores.len() == 0
    }

    /// Whether two cores are on different dies.
    pub open spec fn multiple_dies(self) -> bool {
        exists|i: int, j: int|
            {
                &&& 0 <= i < self.cores.len()
                &&& 0 <= j < self.cores.len()
                &&& (#[trigger] self.cores[i]).id.die_id != (#[trigger] self.cores[j]).id.die_id
            }
    }
}

/// A core has at most one place in an order, and its history is the one that stands there.
pub(crate) proof fn lemma_by_core(cores: Seq<CoreView>)
    requires
        in_order(cores),
    ensures
        forall|i: int| #![trigger cores[i]]
            0 <= i < cores.len() ==> {
                &&& by_core(cores).contains_key(cores[i].id)
                &&& by_core(cores)[cores[i].id] == cores[i].store
            },
        forall|id: CoreId|
            #[trigger] by_core(cores).contains_key(id) ==> exists|i: int|
                0 <= i < cores.len() && (#[trigger] cores[i]).id == id,
{
    assert forall|i: int| #![trigger cores[i]] 0 <= i < cores.len() implies {
        &&& by_core(cores).contains_key(cores[i].id)
        &&& by_core(cores)[cores[i].id] == cores[i].store
    } by {
        let id = cores[i].id;
        assert(has_core(cores, id));
        let j = choose|j: int| 0 <= j < cores.len() && (#[trigger] cores[j]).id == id;
        if i < j {
            assert(cores[i].id.before(cores[j].id));
        } else if j < i {
            assert(cores[j].id.before(cores[i].id));
        }
    }
}

/// Two orders of the same cores with the same histories are the same.
pub proof fn law_order_is_unique(a: Seq<CoreView>, b: Seq<CoreView>)
    requires
        in_order(a),
        in_order(b),
        by_core(a) == by_core(b),
    ensures
        a == b,
    decreases a.len(),
{
    lemma_by_core(a);
    lemma_by_core(b);
    if a.len() == 0 {
        if b.len() > 0 {
            assert(by_core(b).contains_key(b[0].id));
            assert(by_core(a).contains_key(b[0].id));
        }
    } else {
        assert(by_core(b).contains_key(a[a.len() - 1].id));
        let i = choose|i: int| 0 <= i < b.len() && (#[trigger] b[i]).id == a[a.len() - 1].id;
        assert(by_core(a).contains_key(b[b.len() - 1].id));
        let j = choose|j: int| 0 <= j < a.len() && (#[trigger] a[j]).id == b[b.len() - 1].id;
        if i < b.len() - 1 {
            assert(b[i].id.before(b[b.len() - 1].id));
            if j < a.len() - 1 {
                assert(a[j].id.before(a[a.len() - 1].id));
            }
        }
        assert(i == b.len() - 1);
        assert(a.last() == b.last());
        let a_rest = a.drop_last();
        let b_rest = b.drop_last();
        lemma_by_core(a_rest);
        lemma_by_core(b_rest);
        assert forall|id: CoreId| by_core(a_rest).contains_key(id) == by_core(
            b_rest,
        ).contains_key(id) && (by_core(a_rest).contains_key(id) ==> by_core(a_rest)[id] == by_core(
            b_rest,
        )[id]) by {
            lemma_without_last(a, id);
            lemma_without_last(b, id);
        }
        assert(by_core(a_rest) =~= by_core(b_rest));
        law_order_is_unique(a_rest, b_rest);
        assert(a =~= a_rest.push(a.last()));
        assert(b =~= b_rest.push(b.last()));
    }
}

/// All cores but the last are those that are not the last.
proof fn lemma_without_last(cores: Seq<CoreView>, id: CoreId)
    requires
        in_order(cores),
        cores.len() > 0,
    ensures
        by_core(cores.drop_last()).contains_key(id) <==> by_core(cores).contains_key(id) && id
            != cores.last().id,
        by_core(cores.drop_last()).contains_key(id) ==> by_core(cores.drop_last())[id] == by_core(
            cores,
        )[id],
{
    let rest = cores.drop_last();
    lemma_by_core(cores);
    lemma_by_core(rest);
    if by_core(rest).contains_key(id) {
        let i = choose|i: int| 0 <= i < rest.len() && (#[trigger] rest[i]).id == id;
        assert(cores[i] == rest[i]);
        assert(cores[i].id.before(cores[cores.len() - 1].id));
    }
    if by_core(cores).contains_key(id) && id != cores.last().id {
        let i = choose|i: int| 0 <= i < cores.len() && (#[trigger] cores[i]).id == id;
        assert(rest[i] == cores[i]);
    }
}

impl CpuFreqStore {
    /// The histories before the first sample.
    pub fn empty() -> (store: CpuFreqStore)
        ensures
            store@.well_formed(),
            store@.is_empty(),
    {
        let store = CpuFreqStore { aggregate: FreqStore::empty(), cores: Vec::new() };
        assert(store@.cores =~= Seq::<CoreView>::empty());
        store
    }

    /// The place of a core: how many come before it.
    fn place_of(&self, id: CoreId) -> (at: usize)
        requires
            self@.well_formed(),
        ensures
            at <= self.cores@.len(),
            forall|i: int| 0 <= i < at ==> (#[trigger] self@.cores[i]).id.before(id),
            at < self.cores@.len() ==> !self@.cores[at as int].id.before(id),
    {
        let mut at: usize = 0;
        while at < self.cores.len() && self.cores[at].id.is_before(id)
            invariant
                at <= self.cores@.len(),
                forall|i: int| 0 <= i < at ==> (#[trigger] self@.cores[i]).id.before(id),
            decreases self.cores@.len() - at,
        {
            assert(self@.cores[at as int].id == self.cores@[at as int].id);
            at = at + 1;
        }
        at
    }

    /// Adds a sample of one core.
    fn push_core(&mut self, id: CoreId, sample: FreqSample)
        requires
            old(self)@.well_formed(),
        ensures
            final(self)@.well_formed(),
            final(self)@.aggregate == old(self)@.aggregate,
            by_core(final(self)@.cores) == with_sample(by_core(old(self)@.cores), id, sample@),
    {
        let at: usize = self.place_of(id);
        let ghost before = self@.cores;
        proof {
            lemma_by_core(before);
        }
        if at < self.cores.len() && self.cores[at].id == id {
            self.cores[at].store.push(sample);
            proof {
                let after = self@.cores;
                assert(after =~= before.update(
                    at as int,
                    CoreView { id, store: before[at as int].store.pushed(sample@) },
                ));
                assert forall|i: int, j: int| 0 <= i < j < after.len() implies (
                #[trigger] after[i]).id.before((#[trigger] after[j]).id) by {
                    assert(before[i].id.before(before[j].id));
                }
                lemma_by_core(after);
                let expected = with_sample(by_core(before), id, sample@);
                assert(before[at as int].id == id);
                assert forall|other: CoreId| #[trigger]
                    by_core(after).dom().contains(other) == expected.dom().contains(other) && (
                by_core(after).dom().contains(other) ==> by_core(after)[other]
                    == expected[other]) by {
                    if by_core(after).contains_key(other) {
                        let i = choose|i: int|
                            0 <= i < after.len() && (#[trigger] after[i]).id == other;
                        assert(before[i].id == other);
                    }
                    if by_core(before).contains_key(other) {
                        let i = choose|i: int|
                            0 <= i < before.len() && (#[trigger] before[i]).id == other;
                        assert(after[i].id == other);
                    }
                    assert(after[at as int].id == id);
                }
                assert(by_core(after) =~= expected);
            }
        } else {
            let mut store = FreqStore::empty();
            store.push(sample);
            self.cores.insert(at, CoreStore { id, store });
            proof {
                let after = self@.cores;
                let new = CoreView { id, store: FreqStoreView::empty().pushed(sample@) };
                assert(after =~= before.insert(at as int, new));
                assert forall|i: int| at <= i < before.len() implies id.before(
                    (#[trigger] before[i]).id,
                ) by {
                    if at < i {
                        assert(before[at as int].id.before(before[i].id));
                    }
                }
                assert forall|i: int, j: int| 0 <= i < j < after.len() implies (
                #[trigger] after[i]).id.before((#[trigger] after[j]).id) by {
                    let old_i = if i < at { i } else { i - 1 };
                    let old_j = if j < at { j } else { j - 1 };
                    if i != at {
                        assert(after[i] == before[old_i]);
                    }
                    if j != at {
                        assert(after[j] == before[old_j]);
                    }
                    if i != at && j != at {
                        assert(before[old_i].id.before(before[old_j].id));
                    }
                }
                lemma_by_core(after);
                let expected = with_sample(by_core(before), id, sample@);
                assert(after[at as int] == new);
                assert(!by_core(before).contains_key(id)) by {
                    if by_core(before).contains_key(id) {
                        let i = choose|i: int|
                            0 <= i < before.len() && (#[trigger] before[i]).id == id;
                        assert(before[i].id == id);
                    }
                }
                assert forall|other: CoreId| #[trigger]
                    by_core(after).dom().contains(other) == expected.dom().contains(other) && (
                by_core(after).dom().contains(other) ==> by_core(after)[other]
                    == expected[other]) by {
                    if by_core(after).contains_key(other) && other != id {
                        let i = choose|i: int|
                            0 <= i < after.len() && (#[trigger] after[i]).id == other;
                        let old_i = if i < at { i } else { i - 1 };
                        assert(after[i] == before[old_i]);
                    }
                    if by_core(before).contains_key(other) {
                        let i = choose|i: int|
                            0 <= i < before.len() && (#[trigger] before[i]).id == other;
                        let new_i = if i < at { i } else { i + 1 };
                        assert(after[new_i] == before[i]);
                    }
                }
                assert(by_core(after) =~= expected);
            }
        }
    }

    /// Whether a core is among those that were measured.
    fn measured(cores: &Vec<CpuCoreMetrics>, id: CoreId) -> (found: bool)
        ensures
            found == is_measured(cores@, id),
    {
        let mut i: usize = 0;
        while i < cores.len()
            invariant
                i <= cores@.len(),
                forall|j: int| 0 <= j < i ==> CoreId::of(#[trigger] cores@[j]) != id,
            decreases cores@.len() - i,
        {
            if CoreId::from_core(&cores[i]) == id {
                return true;
            }
            i = i + 1;
        }
        false
    }

    /// Adds a measurement of the processor and of some of its cores.
    pub fn push(&mut self, aggregate: FreqSample, cores: &Vec<CpuCoreMetrics>)
        requires
            old(self)@.well_formed(),
        ensures
            final(self)@.well_formed(),
            final(self)@.aggregate == old(self)@.aggregate.pushed(aggregate@),
            by_core(final(self)@.cores) == after_measurement(by_core(old(self)@.cores), cores@),
    {
        let ghost histories = by_core(self@.cores);
        self.aggregate.push(aggregate);
        let ghost pushed = self@.aggregate;
        let mut i: usize = 0;
        assert(cores@.take(0).len() == 0);
        while i < cores.len()
            invariant
                i <= cores@.len(),
                self@.well_formed(),
                self@.aggregate == pushed,
                by_core(self@.cores) == with_samples(histories, cores@.take(i as int)),
            decreases cores@.len() - i,
        {
            assert(cores@.take(i + 1).drop_last() =~= cores@.take(i as int));
            self.push_core(CoreId::from_core(&cores[i]), FreqSample::from_core(&cores[i]));
            i = i + 1;
        }
        assert(cores@.take(i as int) =~= cores@);

        let ghost sampled = self@.cores;
        let mut i: usize = 0;
        while i < self.cores.len()
            invariant
                i <= self.cores@.len(),
                self.cores@.len() == sampled.len(),
                self@.aggregate == pushed,
                forall|j: int|
                    0 <= j < i ==> (#[trigger] self@.cores[j]) == (CoreView {
                        id: sampled[j].id,
                        store: if is_measured(cores@, sampled[j].id) {
                            sampled[j].store
                        } else {
                            sampled[j].store.pushed(FreqSampleView::idle())
                        },
                    }),
                forall|j: int| i <= j < sampled.len() ==> (#[trigger] self@.cores[j]) == sampled[j],
            decreases self.cores@.len() - i,
        {
            let ghost current = self@.cores;
            assert(current[i as int] == sampled[i as int]);
            if !Self::measured(cores, self.cores[i].id) {
                self.cores[i].store.push(FreqSample::idle());
                assert(self@.cores =~= current.update(
                    i as int,
                    CoreView {
                        id: sampled[i as int].id,
                        store: sampled[i as int].store.pushed(FreqSampleView::idle()),
                    },
                ));
            }
            i = i + 1;
        }
        proof {
            let after = self@.cores;
            assert forall|i: int, j: int| 0 <= i < j < after.len() implies (
            #[trigger] after[i]).id.before((#[trigger] after[j]).id) by {
                assert(sampled[i].id.before(sampled[j].id));
            }
            lemma_by_core(sampled);
            lemma_by_core(after);
            let expected = after_measurement(histories, cores@);
            assert forall|id: CoreId| #[trigger]
                by_core(after).dom().contains(id) == expected.dom().contains(id) && (by_core(
                after,
            ).dom().contains(id) ==> by_core(after)[id] == expected[id]) by {
                if by_core(after).contains_key(id) {
                    let i = choose|i: int| 0 <= i < after.len() && (#[trigger] after[i]).id == id;
                    assert(sampled[i].id == id);
                }
                if by_core(sampled).contains_key(id) {
                    let i = choose|i: int|
                        0 <= i < sampled.len() && (#[trigger] sampled[i]).id == id;
                    assert(after[i].id == id);
                }
            }
            assert(by_core(after) =~= expected);
        }
    }

    /// Whether two cores are on different dies.
    pub fn has_multiple_dies(&self) -> (multiple: bool)
        ensures
            multiple == self@.multiple_dies(),
    {
        let mut i: usize = 0;
        while i < self.cores.len()
            invariant
                i <= self.cores@.len(),
                forall|j: int|
                    0 <= j < i ==> (#[trigger] self@.cores[j]).id.die_id
                        == self@.cores[0].id.die_id,
            decreases self.cores@.len() - i,
        {
            assert(self@.cores[i as int].id == self.cores@[i as int].id);
            assert(self@.cores[0].id == self.cores@[0].id);
            if self.cores[i].id.die_id != self.cores[0].id.die_id {
                return true;
            }
            i = i + 1;
        }
        false
    }
}

/// No history of a core is ever lost, and every core that was measured has one.
pub proof fn law_cores_are_kept(histories: Map<CoreId, FreqStoreView>, cores: Seq<CpuCoreMetrics>)
    ensures
        forall|id: CoreId|
            #[trigger] after_measurement(histories, cores).contains_key(id) == (
            histories.contains_key(id) || is_measured(cores, id)),
    decreases cores.len(),
{
    if cores.len() > 0 {
        let rest = cores.drop_last();
        law_cores_are_kept(histories, rest);
        assert forall|id: CoreId|
            #[trigger] after_measurement(histories, cores).contains_key(id) == (
            histories.contains_key(id) || is_measured(cores, id)) by {
            assert(after_measurement(histories, rest).contains_key(id) == with_samples(
                histories,
                rest,
            ).contains_key(id));
            if is_measured(rest, id) {
                let i = choose|i: int| 0 <= i < rest.len() && CoreId::of(#[trigger] rest[i]) == id;
                assert(cores[i] == rest[i]);
            }
            if is_measured(cores, id) && id != CoreId::of(cores.last()) {
                let i = choose|i: int|
                    0 <= i < cores.len() && CoreId::of(#[trigger] cores[i]) == id;
                assert(rest[i] == cores[i]);
            }
            if id == CoreId::of(cores.last()) {
                assert(cores[cores.len() - 1] == cores.last());
            }
        }
    }
}

/// A core that a measurement leaves out gets the sample of a core that is off.
pub proof fn law_missing_cores_are_idle(
    histories: Map<CoreId, FreqStoreView>,
    cores: Seq<CpuCoreMetrics>,
    id: CoreId,
)
    requires
        histories.contains_key(id),
        !is_measured(cores, id),
    ensures
        after_measurement(histories, cores).contains_key(id),
        after_measurement(histories, cores)[id] == histories[id].pushed(FreqSampleView::idle()),
{
    lemma_others_are_untouched(histories, cores, id);
}

/// A core that was measured once gets that sample: at the end of its history, or as the first of
/// a new one.
pub proof fn law_measured_cores_get_their_sample(
    histories: Map<CoreId, FreqStoreView>,
    cores: Seq<CpuCoreMetrics>,
    at: int,
)
    requires
        0 <= at < cores.len(),
        forall|i: int|
            0 <= i < cores.len() && i != at ==> CoreId::of(#[trigger] cores[i]) != CoreId::of(
                cores[at],
            ),
    ensures
        ({
            let id = CoreId::of(cores[at]);
            let history = if histories.contains_key(id) {
                histories[id]
            } else {
                FreqStoreView::empty()
            };
            &&& after_measurement(histories, cores).contains_key(id)
            &&& after_measurement(histories, cores)[id] == history.pushed(
                FreqSampleView::of_core(cores[at]),
            )
        }),
    decreases cores.len(),
{
    let id = CoreId::of(cores[at]);
    let rest = cores.drop_last();
    assert(is_measured(cores, id));
    if at == cores.len() - 1 {
        assert(!is_measured(rest, id)) by {
            if is_measured(rest, id) {
                let i = choose|i: int| 0 <= i < rest.len() && CoreId::of(#[trigger] rest[i]) == id;
                assert(cores[i] == rest[i]);
            }
        }
        lemma_others_are_untouched(histories, rest, id);
    } else {
        assert forall|i: int| 0 <= i < rest.len() && i != at implies CoreId::of(#[trigger] rest[i])
            != CoreId::of(rest[at]) by {
            assert(rest[i] == cores[i]);
        }
        law_measured_cores_get_their_sample(histories, rest, at);
        assert(is_measured(rest, id)) by {
            assert(rest[at] == cores[at]);
        }
        assert(CoreId::of(cores[cores.len() - 1]) != id);
    }
}

/// A sample of one core leaves the histories of the others as they are.
proof fn lemma_others_are_untouched(
    histories: Map<CoreId, FreqStoreView>,
    cores: Seq<CpuCoreMetrics>,
    id: CoreId,
)
    requires
        !is_measured(cores, id),
    ensures
        with_samples(histories, cores).contains_key(id) == histories.contains_key(id),
        histories.contains_key(id) ==> with_samples(histories, cores)[id] == histories[id],
    decreases cores.len(),
{
    if cores.len() > 0 {
        let rest = cores.drop_last();
        assert(!is_measured(rest, id)) by {
            if is_measured(rest, id) {
                let i = choose|i: int| 0 <= i < rest.len() && CoreId::of(#[trigger] rest[i]) == id;
                assert(cores[i] == rest[i]);
            }
        }
        lemma_others_are_untouched(histories, rest, id);
        assert(CoreId::of(cores[cores.len() - 1]) != id);
    }
}

} // verus!
