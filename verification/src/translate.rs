//! The translator: from one reading of a statistic to the updates that
//! publish it.

use crate::family::MetricKind;
use crate::histogram::{HistField, HistType, HistogramData, HIST_FIELDS};
use crate::partition::{CfProperties, CfPropertiesView, PartitionStat, PARTITION_STATS};
use crate::ticker::TickerType;
use crate::update::{Op, Update, UpdateView, Value};
use vstd::prelude::*;

verus! {

/// The update that publishes one field of a histogram summary: the field's
/// gauge is overwritten with the field's value.
pub open spec fn histogram_field_update(
    t: HistType,
    value: HistogramData,
    field: HistField,
) -> UpdateView {
    UpdateView::overwrite(t.spec_series(field), Value::Real(value.spec_field(field)))
}

/// The updates that publish a histogram summary: one for each of the five
/// fields, all in the histogram's own family.
pub open spec fn histogram_updates(t: HistType, value: HistogramData) -> Seq<UpdateView> {
    HIST_FIELDS@.map_values(|field: HistField| histogram_field_update(t, value, field))
}

/// Translates a histogram summary into the five gauge updates that publish it.
pub fn flush_engine_histogram_metrics(t: HistType, value: HistogramData) -> (updates: Vec<Update>)
    ensures
        updates.deep_view() == histogram_updates(t, value),
{
    let mut updates: Vec<Update> = Vec::new();
    let mut i: usize = 0;
    while i < HIST_FIELDS.len()
        invariant
            i <= HIST_FIELDS@.len(),
            updates.len() == i,
            forall|j: int|
                0 <= j < i ==> (#[trigger] updates[j])@ == histogram_field_update(
                    t,
                    value,
                    HIST_FIELDS[j],
                ),
        decreases HIST_FIELDS@.len() - i,
    {
        let field = HIST_FIELDS[i];
        let op = Op::Overwrite(Value::Real(value.field(field)));
        updates.push(Update { series: t.series(field), op });
        i += 1;
    }
    assert(updates.deep_view() =~= histogram_updates(t, value));
    updates
}

/// The update that publishes one reading of a ticker. A cumulative ticker
/// overwrites its gauge with the reading. A delta ticker adds the reading to
/// its counter, unless the reading would read as a negative number when taken
/// as signed: such a reading is an anomaly and nothing is published for it.
pub open spec fn ticker_update(t: TickerType, value: u64) -> Option<UpdateView> {
    match t.spec_kind() {
        MetricKind::Gauge => Some(UpdateView::overwrite(t.spec_series(), Value::Count(value))),
        MetricKind::Counter => if value <= i64::MAX {
            Some(UpdateView::increment(t.spec_series(), value))
        } else {
            None
        },
    }
}

/// What an optional update reads as.
pub open spec fn opt_update_view(update: Option<Update>) -> Option<UpdateView> {
    match update {
        Some(update) => Some(update@),
        None => None,
    }
}

/// Translates one reading of a ticker into the update that publishes it, if
/// any.
pub fn flush_engine_ticker_metrics(t: TickerType, value: u64) -> (update: Option<Update>)
    ensures
        opt_update_view(update) == ticker_update(t, value),
{
    match t.kind() {
        MetricKind::Gauge => {
            Some(Update { series: t.series(), op: Op::Overwrite(Value::Count(value)) })
        },
        MetricKind::Counter => {
            if value <= i64::MAX as u64 {
                Some(Update { series: t.series(), op: Op::Increment(value) })
            } else {
                None
            }
        },
    }
}

/// Why the translation of some readings stopped.
#[derive(Clone, Copy, Debug, PartialEq, Eq, Hash, Structural)]
pub enum FlushError {
    /// The partition at this position lacks its on-disk size. Every supported
    /// engine reports it, so the engine is too old to be observed.
    MissingTotalSize { partition: usize },
}

/// What a translation gives: the updates to publish, in their order, and
/// what stopped the translation, if anything did. The updates of the
/// readings that came before the failure are there to be published.
#[derive(Clone, Debug, PartialEq, Eq)]
pub struct Flushed {
    pub updates: Vec<Update>,
    pub failure: Option<FlushError>,
}

/// The updates that publish one statistic of a partition: its gauge is
/// overwritten with the reading, and nothing is published without a reading.
pub open spec fn partition_stat_updates(p: CfPropertiesView, stat: PartitionStat) -> Seq<
    UpdateView,
> {
    match p.reading(stat) {
        Some(value) => seq![UpdateView::overwrite(stat.spec_series(p.cf), Value::Signed(value))],
        None => seq![],
    }
}

/// The updates that publish some statistics of a partition, statistic by
/// statistic.
pub open spec fn stats_updates(p: CfPropertiesView, stats: Seq<PartitionStat>) -> Seq<UpdateView>
    decreases stats.len(),
{
    if stats.len() == 0 {
        seq![]
    } else {
        stats_updates(p, stats.drop_last()) + partition_stat_updates(p, stats.last())
    }
}

/// The updates that publish the readings of one partition: those of its
/// statistics, in the order in which these are published.
pub open spec fn partition_updates(p: CfPropertiesView) -> Seq<UpdateView> {
    stats_updates(p, PARTITION_STATS@)
}

/// The updates that publish the readings of all partitions, partition by
/// partition.
pub open spec fn properties_updates(partitions: Seq<CfPropertiesView>) -> Seq<UpdateView>
    decreases partitions.len(),
{
    if partitions.len() == 0 {
        seq![]
    } else {
        properties_updates(partitions.drop_last()) + partition_updates(partitions.last())
    }
}

/// The partition at `i` is the first that lacks its on-disk size.
pub open spec fn first_without_size(partitions: Seq<CfPropertiesView>, i: int) -> bool {
    &&& 0 <= i < partitions.len()
    &&& partitions[i].total_sst_files_size is None
    &&& forall|j: int| 0 <= j < i ==> (#[trigger] partitions[j]).total_sst_files_size is Some
}

/// Every partition has its on-disk size.
pub open spec fn all_sized(partitions: Seq<CfPropertiesView>) -> bool {
    forall|j: int|
        0 <= j < partitions.len() ==> (#[trigger] partitions[j]).total_sst_files_size is Some
}

/// The partitions that are published: all of them where each has its
/// on-disk size, and otherwise those before the first that lacks it.
pub open spec fn sized_prefix(partitions: Seq<CfPropertiesView>) -> Seq<CfPropertiesView> {
    if all_sized(partitions) {
        partitions
    } else {
        partitions.take(choose|i: int| first_without_size(partitions, i))
    }
}

/// Only one partition is the first without its on-disk size.
pub proof fn lemma_first_without_size_is_unique(
    partitions: Seq<CfPropertiesView>,
    i: int,
    j: int,
)
    requires
        first_without_size(partitions, i),
        first_without_size(partitions, j),
    ensures
        i == j,
        !all_sized(partitions),
        sized_prefix(partitions) == partitions.take(i),
{
    let chosen = choose|k: int| first_without_size(partitions, k);
    if i < j {
        assert(partitions[i].total_sst_files_size is Some);
    }
    if j < i {
        assert(partitions[j].total_sst_files_size is Some);
    }
    assert(partitions[i].total_sst_files_size is None);
    if chosen < i {
        assert(partitions[chosen].total_sst_files_size is Some);
    }
    if i < chosen {
        assert(partitions[i].total_sst_files_size is Some);
    }
}

/// Where some partition lacks its on-disk size, one of them is the first to
/// lack it, and the partitions that are published are those before it.
pub proof fn lemma_sized_prefix_is_a_prefix(partitions: Seq<CfPropertiesView>)
    ensures
        !all_sized(partitions) ==> exists|i: int| first_without_size(partitions, i),
        sized_prefix(partitions).len() <= partitions.len(),
        sized_prefix(partitions) == partitions.take(sized_prefix(partitions).len() as int),
        all_sized(sized_prefix(partitions)),
    decreases partitions.len(),
{
    if all_sized(partitions) {
        assert(partitions.take(partitions.len() as int) =~= partitions);
    } else {
        let before = partitions.drop_last();
        let last = partitions.len() - 1;
        if all_sized(before) {
            assert forall|j: int| 0 <= j < last implies (
            #[trigger] partitions[j]).total_sst_files_size is Some by {
                assert(before[j] == partitions[j]);
            }
            assert(first_without_size(partitions, last));
        } else {
            lemma_sized_prefix_is_a_prefix(before);
            let i = choose|i: int| first_without_size(before, i);
            assert(before[i] == partitions[i]);
            assert forall|j: int| 0 <= j < i implies (
            #[trigger] partitions[j]).total_sst_files_size is Some by {
                assert(before[j] == partitions[j]);
            }
            assert(first_without_size(partitions, i));
        }
        let first = choose|i: int| first_without_size(partitions, i);
        assert forall|j: int| 0 <= j < first implies (#[trigger] partitions.take(
            first,
        )[j]).total_sst_files_size is Some by {
            assert(partitions.take(first)[j] == partitions[j]);
        }
    }
}

/// The statistics that a partition must have been read with are those that
/// are not optional; of them only the on-disk size can be missing.
proof fn lemma_only_size_can_be_missing(p: CfPropertiesView, stat: PartitionStat)
    requires
        !stat.spec_optional(),
        p.reading(stat) is None,
    ensures
        stat == PartitionStat::TotalSstFilesSize,
        p.total_sst_files_size is None,
{
}

/// Translates the readings of one partition into the gauge updates that
/// publish them, and appends these to `updates`. Returns whether the
/// partition has every statistic that is not optional; where it has not,
/// `updates` is left as it was.
fn push_partition(updates: &mut Vec<Update>, p: &CfProperties) -> (complete: bool)
    ensures
        complete <==> p@.total_sst_files_size is Some,
        complete ==> final(updates).deep_view() == old(updates).deep_view() + partition_updates(
            p@,
        ),
        !complete ==> final(updates).deep_view() == old(updates).deep_view(),
{
    let ghost before = updates.deep_view();
    let mut k: usize = 0;
    while k < PARTITION_STATS.len()
        invariant
            k <= PARTITION_STATS@.len(),
            before == old(updates).deep_view(),
            updates.deep_view() == before + stats_updates(p@, PARTITION_STATS@.take(k as int)),
            k > 0 ==> p@.total_sst_files_size is Some,
        decreases PARTITION_STATS@.len() - k,
    {
        let stat = PARTITION_STATS[k];
        proof {
            assert(PARTITION_STATS@.take(k + 1).drop_last() =~= PARTITION_STATS@.take(k as int));
            assert(PARTITION_STATS@.take(k + 1).last() == stat);
        }
        let ghost so_far = updates.deep_view();
        match p.reading(stat) {
            Some(value) => {
                let op = Op::Overwrite(Value::Signed(value));
                updates.push(Update { series: stat.series(p.cf.as_str()), op });
            },
            None => {
                if !stat.optional() {
                    proof {
                        lemma_only_size_can_be_missing(p@, stat);
                        assert(k == 0);
                        assert(updates.deep_view() =~= before);
                    }
                    return false;
                }
            },
        }
        assert(updates.deep_view() =~= so_far + partition_stat_updates(p@, stat));
        k += 1;
    }
    assert(PARTITION_STATS@.take(k as int) =~= PARTITION_STATS@);
    true
}

/// Translates the readings of all partitions into the gauge updates that
/// publish them, partition by partition. A missing optional statistic is
/// passed over. A partition without its on-disk size stops the translation:
/// the partitions before it are translated, and it and those after it are
/// not.
pub fn flush_engine_properties(partitions: &Vec<CfProperties>) -> (flushed: Flushed)
    ensures
        flushed.updates.deep_view() == properties_updates(sized_prefix(partitions.deep_view())),
        match flushed.failure {
            None => all_sized(partitions.deep_view()),
            Some(FlushError::MissingTotalSize { partition }) => first_without_size(
                partitions.deep_view(),
                partition as int,
            ),
        },
{
    let mut updates: Vec<Update> = Vec::new();
    let mut i: usize = 0;
    while i < partitions.len()
        invariant
            i <= partitions.len(),
            all_sized(partitions.deep_view().take(i as int)),
            updates.deep_view() == properties_updates(partitions.deep_view().take(i as int)),
        decreases partitions.len() - i,
    {
        let ghost all = partitions.deep_view();
        proof {
            assert(all.take(i + 1).drop_last() =~= all.take(i as int));
            assert(all.take(i + 1).last() == partitions[i as int]@);
            assert forall|j: int| 0 <= j < i implies (#[trigger] all[j]).total_sst_files_size
                is Some by {
                assert(all.take(i as int)[j] == all[j]);
            }
        }
        if !push_partition(&mut updates, &partitions[i]) {
            proof {
                lemma_first_without_size_is_unique(all, i as int, i as int);
            }
            let failure = Some(FlushError::MissingTotalSize { partition: i });
            return Flushed { updates, failure };
        }
        i += 1;
        proof {
            assert forall|j: int| 0 <= j < i implies (#[trigger] all.take(
                i as int,
            )[j]).total_sst_files_size is Some by {
                if j < i - 1 {
                    assert(all.take(i - 1)[j] == all.take(i as int)[j]);
                }
            }
        }
    }
    proof {
        assert(partitions.deep_view().take(i as int) =~= partitions.deep_view());
    }
    Flushed { updates, failure: None }
}

} // verus!
