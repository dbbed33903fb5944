//! What a pass hands to the registry: updates of single series, and a model of
//! what the registry holds after them.

use crate::family::{Family, MetricKind};
use vstd::prelude::*;

verus! {

/// A published number. The registry stores reals; the engine reports unsigned
/// counts, signed sizes and reals, and each is carried here as it was read.
#[derive(Clone, Copy, Debug, PartialEq, Eq, Hash, Structural)]
pub enum Value {
    /// An unsigned count, as a ticker reports it.
    Count(u64),
    /// A signed quantity, as a partition property reports it.
    Signed(i64),
    /// A real number, held as the bit pattern of its IEEE 754 double.
    Real(u64),
}

/// What an update does to its series.
#[derive(Clone, Copy, Debug, PartialEq, Eq, Hash, Structural)]
pub enum Op {
    /// Overwrite the gauge with the value.
    Overwrite(Value),
    /// Add the delta to the counter.
    Increment(u64),
}

/// What an optional string literal reads as.
pub open spec fn opt_str_view(s: Option<&'static str>) -> Option<Seq<char>> {
    match s {
        Some(s) => Some(s@),
        None => None,
    }
}

/// One series of the registry: a family and a value for each of its labels.
#[derive(Clone, Debug, PartialEq, Eq, Hash)]
pub struct Series {
    pub family: Family,
    pub labels: Vec<String>,
}

/// A series as contracts see it: the label values are sequences of characters.
pub struct SeriesView {
    pub family: Family,
    pub labels: Seq<Seq<char>>,
}

impl DeepView for Series {
    type V = SeriesView;

    open spec fn deep_view(&self) -> SeriesView {
        SeriesView { family: self.family, labels: self.labels.deep_view() }
    }
}

impl View for Series {
    type V = SeriesView;

    open spec fn view(&self) -> SeriesView {
        self.deep_view()
    }
}

impl SeriesView {
    /// A series gives one value for each label of its family.
    pub open spec fn wf(self) -> bool {
        self.labels.len() == self.family.spec_label_names().len()
    }
}

/// One call on the registry.
#[derive(Clone, Debug, PartialEq, Eq, Hash)]
pub struct Update {
    pub series: Series,
    pub op: Op,
}

/// An update as contracts see it.
pub struct UpdateView {
    pub series: SeriesView,
    pub op: Op,
}

impl DeepView for Update {
    type V = UpdateView;

    open spec fn deep_view(&self) -> UpdateView {
        UpdateView { series: self.series@, op: self.op }
    }
}

impl View for Update {
    type V = UpdateView;

    open spec fn view(&self) -> UpdateView {
        self.deep_view()
    }
}

impl UpdateView {
    /// Overwrites `series` with `value`.
    pub open spec fn overwrite(series: SeriesView, value: Value) -> UpdateView {
        UpdateView { series, op: Op::Overwrite(value) }
    }

    /// Adds `delta` to `series`.
    pub open spec fn increment(series: SeriesView, delta: u64) -> UpdateView {
        UpdateView { series, op: Op::Increment(delta) }
    }

    /// The registry accepts the update: the series fits its family, a gauge is
    /// overwritten, a counter is incremented, and no delta reads as a negative number.
    pub open spec fn wf(self) -> bool {
        &&& self.series.wf()
        &&& match self.op {
            Op::Overwrite(_) => self.series.family.spec_kind() == MetricKind::Gauge,
            Op::Increment(delta) => self.series.family.spec_kind() == MetricKind::Counter && delta
                <= i64::MAX,
        }
    }
}

/// What the registry holds: for each gauge series the value set last, and for
/// each counter series the sum of the deltas added so far.
pub struct Registry {
    pub gauges: Map<SeriesView, Value>,
    pub counters: Map<SeriesView, nat>,
}

impl Registry {
    /// The value of a gauge series, if one was ever set.
    pub open spec fn gauge(self, series: SeriesView) -> Option<Value> {
        if self.gauges.contains_key(series) {
            Some(self.gauges[series])
        } else {
            None
        }
    }

    /// The total of a counter series; zero before the first increment.
    pub open spec fn counter(self, series: SeriesView) -> nat {
        if self.counters.contains_key(series) {
            self.counters[series]
        } else {
            0
        }
    }

    /// The registry after one update.
    pub open spec fn apply(self, update: UpdateView) -> Registry {
        match update.op {
            Op::Overwrite(value) => Registry {
                gauges: self.gauges.insert(update.series, value),
                counters: self.counters,
            },
            Op::Increment(delta) => Registry {
                gauges: self.gauges,
                counters: self.counters.insert(
                    update.series,
                    self.counter(update.series) + delta as nat,
                ),
            },
        }
    }

    /// The registry after a sequence of updates, applied first to last.
    pub open spec fn apply_all(self, updates: Seq<UpdateView>) -> Registry
        decreases updates.len(),
    {
        if updates.len() == 0 {
            self
        } else {
            self.apply(updates.first()).apply_all(updates.drop_first())
        }
    }
}

/// Some update of the sequence is made to the series.
pub open spec fn touches(updates: Seq<UpdateView>, series: SeriesView) -> bool {
    exists|i: int| 0 <= i < updates.len() && (#[trigger] updates[i]).series == series
}

/// Overwriting a gauge is idempotent: the same overwrite made twice leaves
/// what it leaves when made once.
pub proof fn lemma_overwrite_is_idempotent(registry: Registry, series: SeriesView, value: Value)
    ensures
        registry.apply(UpdateView::overwrite(series, value)).apply(
            UpdateView::overwrite(series, value),
        ) == registry.apply(UpdateView::overwrite(series, value)),
{
    let once = registry.apply(UpdateView::overwrite(series, value));
    let twice = once.apply(UpdateView::overwrite(series, value));
    assert(twice.gauges =~= once.gauges);
}

/// The sum of the increments that a sequence of updates makes to a series.
pub open spec fn increments(updates: Seq<UpdateView>, series: SeriesView) -> nat
    decreases updates.len(),
{
    if updates.len() == 0 {
        0
    } else {
        let later = increments(updates.drop_first(), series);
        match updates.first().op {
            Op::Increment(delta) => if updates.first().series == series {
                delta as nat + later
            } else {
                later
            },
            Op::Overwrite(_) => later,
        }
    }
}

/// A counter grows by the sum of the increments that are made to it.
pub proof fn lemma_counter_grows_by_increments(
    registry: Registry,
    updates: Seq<UpdateView>,
    series: SeriesView,
)
    ensures
        registry.apply_all(updates).counter(series) == registry.counter(series) + increments(
            updates,
            series,
        ),
    decreases updates.len(),
{
    if updates.len() > 0 {
        lemma_counter_grows_by_increments(
            registry.apply(updates.first()),
            updates.drop_first(),
            series,
        );
    }
}

/// Applying two sequences of updates one after the other is applying their
/// concatenation.
pub proof fn lemma_apply_all_concat(
    registry: Registry,
    first: Seq<UpdateView>,
    second: Seq<UpdateView>,
)
    ensures
        registry.apply_all(first + second) == registry.apply_all(first).apply_all(second),
    decreases first.len(),
{
    if first.len() == 0 {
        assert(first + second =~= second);
    } else {
        assert((first + second).first() == first.first());
        assert((first + second).drop_first() =~= first.drop_first() + second);
        lemma_apply_all_concat(registry.apply(first.first()), first.drop_first(), second);
    }
}

/// A series that no update is made to holds afterwards what it held before.
pub proof fn lemma_untouched_series_is_kept(
    registry: Registry,
    updates: Seq<UpdateView>,
    series: SeriesView,
)
    requires
        !touches(updates, series),
    ensures
        registry.apply_all(updates).gauge(series) == registry.gauge(series),
        registry.apply_all(updates).counter(series) == registry.counter(series),
    decreases updates.len(),
{
    if updates.len() > 0 {
        assert(updates[0].series != series);
        assert forall|i: int| 0 <= i < updates.drop_first().len() implies (
        #[trigger] updates.drop_first()[i]).series != series by {
            assert(updates[i + 1].series != series);
        }
        lemma_untouched_series_is_kept(
            registry.apply(updates.first()),
            updates.drop_first(),
            series,
        );
    }
}

impl Series {
    /// The series of a family without labels.
    pub fn plain(family: Family) -> (series: Series)
        ensures
            series@ == (SeriesView { family, labels: seq![] }),
    {
        let series = Series { family, labels: Vec::new() };
        assert(series@.labels =~= seq![]);
        series
    }

    /// The series of a family with one label.
    pub fn labelled(family: Family, label: &str) -> (series: Series)
        ensures
            series@ == (SeriesView { family, labels: seq![label@] }),
    {
        let mut labels: Vec<String> = Vec::new();
        labels.push(label.to_owned());
        let series = Series { family, labels };
        assert(series@.labels =~= seq![label@]);
        series
    }

    /// The series of a family with two labels.
    pub fn labelled2(family: Family, first: &str, second: &str) -> (series: Series)
        ensures
            series@ == (SeriesView { family, labels: seq![first@, second@] }),
    {
        let mut labels: Vec<String> = Vec::new();
        labels.push(first.to_owned());
        labels.push(second.to_owned());
        let series = Series { family, labels };
        assert(series@.labels =~= seq![first@, second@]);
        series
    }
}

} // verus!
