//! What holds of every pass and of every sequence of passes: how the registry
//! follows the engine.

use crate::family::{ExportKind, Family, MetricKind};
use crate::histogram::{HistType, ENGINE_HIST_TYPES};
use crate::partition::{
    lemma_partition_series_injective, CfPropertiesView, PartitionStat, PARTITION_STATS,
};
use crate::pass::{
    lemma_reached_is_a_prefix, lemma_some_sample_fails_first, first_failing, pass_succeeds,
    pass_updates, published, reached, spec_flush_queries, Query, SampleView,
};
use crate::ticker::{
    lemma_ticker_lists_follow_kind, lemma_ticker_lists_have_no_duplicates,
    lemma_ticker_series_injective, spec_delta_since, TickerType, ENGINE_TICKER_TYPES_COUNTER,
    ENGINE_TICKER_TYPES_GAUGE,
};
use crate::translate::{
    partition_stat_updates, partition_updates, properties_updates, sized_prefix, stats_updates,
    ticker_update,
};
use crate::update::{
    increments, lemma_apply_all_concat, lemma_counter_grows_by_increments,
    lemma_untouched_series_is_kept, touches, Registry, SeriesView, UpdateView, Value,
};
use vstd::prelude::*;

verus! {

/// The reading of the ticker `t` that a sample holds, if it holds one.
pub open spec fn reading_of(sample: SampleView, t: TickerType) -> Option<u64> {
    match sample {
        SampleView::Ticker(u, value) => if u == t {
            Some(value)
        } else {
            None
        },
        _ => None,
    }
}

/// The readings of one ticker that a sequence of samples holds, first to last.
pub open spec fn ticker_readings(samples: Seq<SampleView>, t: TickerType) -> Seq<u64>
    decreases samples.len(),
{
    if samples.len() == 0 {
        seq![]
    } else {
        let before = ticker_readings(samples.drop_last(), t);
        match reading_of(samples.last(), t) {
            Some(value) => before.push(value),
            None => before,
        }
    }
}

/// The sum of a sequence of readings.
pub open spec fn sum(values: Seq<u64>) -> nat
    decreases values.len(),
{
    if values.len() == 0 {
        0
    } else {
        sum(values.drop_last()) + values.last() as nat
    }
}

/// What a sequence of passes publishes, pass by pass.
pub open spec fn ticks_published(ticks: Seq<Seq<SampleView>>) -> Seq<UpdateView>
    decreases ticks.len(),
{
    if ticks.len() == 0 {
        seq![]
    } else {
        ticks_published(ticks.drop_last()) + published(ticks.last())
    }
}

/// Every update of the sequence is made to a family of partition statistics.
spec fn of_partitions(updates: Seq<UpdateView>) -> bool {
    forall|k: int|
        0 <= k < updates.len() ==> (#[trigger] updates[k]).series.family.spec_export_kind()
            == ExportKind::PartitionProperty
}

/// Two sequences of updates of partition statistics make one when joined.
proof fn lemma_of_partitions_concat(first: Seq<UpdateView>, second: Seq<UpdateView>)
    requires
        of_partitions(first),
        of_partitions(second),
    ensures
        of_partitions(first + second),
{
    assert forall|k: int| 0 <= k < (first + second).len() implies (#[trigger] (first
        + second)[k]).series.family.spec_export_kind() == ExportKind::PartitionProperty by {
        if k < first.len() {
            assert((first + second)[k] == first[k]);
        } else {
            assert((first + second)[k] == second[k - first.len()]);
        }
    }
}

/// Every update that some statistics of a partition give rise to is made
/// to a family of partition statistics.
proof fn lemma_stats_updates_families(p: CfPropertiesView, stats: Seq<PartitionStat>)
    ensures
        of_partitions(stats_updates(p, stats)),
    decreases stats.len(),
{
    if stats.len() > 0 {
        lemma_stats_updates_families(p, stats.drop_last());
        lemma_of_partitions_concat(
            stats_updates(p, stats.drop_last()),
            partition_stat_updates(p, stats.last()),
        );
    }
}

/// Every update that the readings of partitions give rise to is made to a
/// family of partition statistics.
proof fn lemma_properties_updates_families(partitions: Seq<CfPropertiesView>)
    ensures
        of_partitions(properties_updates(partitions)),
    decreases partitions.len(),
{
    if partitions.len() > 0 {
        lemma_properties_updates_families(partitions.drop_last());
        lemma_stats_updates_families(partitions.last(), PARTITION_STATS@);
        lemma_of_partitions_concat(
            properties_updates(partitions.drop_last()),
            partition_updates(partitions.last()),
        );
    }
}

/// Where the updates of a sample go: those of a ticker to the ticker's
/// series, those of a histogram to the histogram's family, those of the
/// partitions to the families of partition statistics.
pub proof fn lemma_sample_updates_series(sample: SampleView, k: int)
    requires
        0 <= k < sample.updates().len(),
    ensures
        match sample {
            SampleView::Ticker(t, _) => sample.updates()[k].series == t.spec_series(),
            SampleView::Histogram(t, _) => sample.updates()[k].series.family == Family::Histogram(
                t,
            ),
            SampleView::Properties(_) => sample.updates()[k].series.family.spec_export_kind()
                == ExportKind::PartitionProperty,
        },
{
    match sample {
        SampleView::Properties(partitions) => {
            lemma_properties_updates_families(sized_prefix(partitions));
        },
        _ => {},
    }
}

/// A sample of anything but the ticker `t` makes no update to the series of
/// `t`.
pub proof fn lemma_sample_leaves_ticker_alone(sample: SampleView, t: TickerType)
    requires
        reading_of(sample, t) is None,
    ensures
        !touches(sample.updates(), t.spec_series()),
{
    let updates = sample.updates();
    assert forall|k: int| 0 <= k < updates.len() implies (#[trigger] updates[k]).series
        != t.spec_series() by {
        lemma_sample_updates_series(sample, k);
        match sample {
            SampleView::Ticker(u, _) => {
                if u.spec_series() == t.spec_series() {
                    lemma_ticker_series_injective(u, t);
                }
            },
            _ => {},
        }
    }
}

/// After a single update the registry holds what that update leaves.
proof fn lemma_apply_all_single(registry: Registry, update: UpdateView)
    ensures
        registry.apply_all(seq![update]) == registry.apply(update),
{
    let one = seq![update];
    assert(one.drop_first() =~= Seq::<UpdateView>::empty());
    assert(registry.apply(update).apply_all(one.drop_first()) == registry.apply(update));
}

/// The sum of readings of a sequence that ends with one more reading.
proof fn lemma_sum_push(values: Seq<u64>, value: u64)
    ensures
        sum(values.push(value)) == sum(values) + value,
{
    assert(values.push(value).drop_last() =~= values);
}

/// What a sample adds to the counter of the delta ticker `t`: the reading
/// where it is a reading of `t`, and nothing otherwise.
spec fn delta_of(sample: SampleView, t: TickerType) -> nat {
    match reading_of(sample, t) {
        Some(value) => value as nat,
        None => 0,
    }
}

/// One more sample of a pass: a delta ticker's counter grows by the reading
/// where the sample is a reading of that ticker, and stays as it is
/// otherwise.
proof fn lemma_counter_after_sample(registry: Registry, sample: SampleView, t: TickerType)
    requires
        t.spec_kind() == MetricKind::Counter,
        reading_of(sample, t) matches Some(value) ==> value <= i64::MAX,
    ensures
        registry.apply_all(sample.updates()).counter(t.spec_series()) == registry.counter(
            t.spec_series(),
        ) + delta_of(sample, t),
{
    match reading_of(sample, t) {
        Some(value) => {
            let update = UpdateView::increment(t.spec_series(), value);
            assert(sample.updates() =~= seq![update]);
            lemma_apply_all_single(registry, update);
        },
        None => {
            lemma_sample_leaves_ticker_alone(sample, t);
            lemma_untouched_series_is_kept(registry, sample.updates(), t.spec_series());
        },
    }
}

/// Over the samples of one pass, a delta ticker's counter grows by exactly
/// the sum of the readings of that ticker.
pub proof fn lemma_counter_after_pass(registry: Registry, samples: Seq<SampleView>, t: TickerType)
    requires
        t.spec_kind() == MetricKind::Counter,
        forall|i: int|
            0 <= i < ticker_readings(samples, t).len() ==> #[trigger] ticker_readings(
                samples,
                t,
            )[i] <= i64::MAX,
    ensures
        registry.apply_all(pass_updates(samples)).counter(t.spec_series()) == registry.counter(
            t.spec_series(),
        ) + sum(ticker_readings(samples, t)),
    decreases samples.len(),
{
    if samples.len() > 0 {
        let before = samples.drop_last();
        let last = samples.last();
        let readings = ticker_readings(samples, t);
        let earlier = ticker_readings(before, t);
        assert forall|i: int| 0 <= i < earlier.len() implies #[trigger] earlier[i]
            <= i64::MAX by {
            assert(readings[i] == earlier[i]);
        }
        lemma_counter_after_pass(registry, before, t);
        lemma_apply_all_concat(registry, pass_updates(before), last.updates());
        match reading_of(last, t) {
            Some(value) => {
                assert(readings == earlier.push(value));
                assert(readings[earlier.len() as int] == value);
                lemma_sum_push(earlier, value);
            },
            None => {},
        }
        assert(sum(readings) == sum(earlier) + delta_of(last, t));
        lemma_counter_after_sample(registry.apply_all(pass_updates(before)), last, t);
    }
}

/// Over any number of passes, the increments that are published for a delta
/// ticker add up to exactly what the engine's counter grew by: where every
/// pass gets to read the ticker once, the reading being what the counter
/// grew by since the pass before, and where no reading is an anomaly, the
/// sum of the published increments is the sum of the readings, and the
/// ticker's counter in the registry has grown by as much. A pass that fails
/// later on counts like any other.
pub proof fn lemma_counter_accumulates_deltas(
    registry: Registry,
    t: TickerType,
    ticks: Seq<Seq<SampleView>>,
    deltas: Seq<u64>,
)
    requires
        t.spec_kind() == MetricKind::Counter,
        ticks.len() == deltas.len(),
        forall|i: int|
            0 <= i < ticks.len() ==> ticker_readings(reached(#[trigger] ticks[i]), t)
                == seq![deltas[i]],
        forall|i: int| 0 <= i < deltas.len() ==> #[trigger] deltas[i] <= i64::MAX,
    ensures
        increments(ticks_published(ticks), t.spec_series()) == sum(deltas),
        registry.apply_all(ticks_published(ticks)).counter(t.spec_series()) == registry.counter(
            t.spec_series(),
        ) + sum(deltas),
    decreases ticks.len(),
{
    lemma_counter_grows_by_increments(registry, ticks_published(ticks), t.spec_series());
    if ticks.len() > 0 {
        let last = ticks.last();
        let delta = deltas.last();
        assert(ticker_readings(reached(ticks[ticks.len() - 1]), t) == seq![
            deltas[ticks.len() - 1],
        ]);
        assert forall|i: int| 0 <= i < ticks.drop_last().len() implies ticker_readings(
            reached(#[trigger] ticks.drop_last()[i]),
            t,
        ) == seq![deltas.drop_last()[i]] by {
            assert(ticks.drop_last()[i] == ticks[i]);
        }
        lemma_counter_accumulates_deltas(registry, t, ticks.drop_last(), deltas.drop_last());
        lemma_apply_all_concat(registry, ticks_published(ticks.drop_last()), published(last));
        let midway = registry.apply_all(ticks_published(ticks.drop_last()));
        assert(ticker_readings(reached(last), t)[0] == delta);
        lemma_counter_after_pass(midway, reached(last), t);
        assert(seq![delta] =~= Seq::<u64>::empty().push(delta));
        lemma_sum_push(Seq::<u64>::empty(), delta);
        assert(deltas =~= deltas.drop_last().push(delta));
        lemma_sum_push(deltas.drop_last(), delta);
    }
}

/// What a cumulative ticker's gauge holds after some samples: the last
/// reading of the ticker among them, or what it held before where they hold
/// no reading of it.
proof fn lemma_gauge_after_samples(registry: Registry, samples: Seq<SampleView>, t: TickerType)
    requires
        t.spec_kind() == MetricKind::Gauge,
    ensures
        registry.apply_all(pass_updates(samples)).gauge(t.spec_series()) == if ticker_readings(
            samples,
            t,
        ).len() > 0 {
            Some(Value::Count(ticker_readings(samples, t).last()))
        } else {
            registry.gauge(t.spec_series())
        },
    decreases samples.len(),
{
    if samples.len() > 0 {
        let before = samples.drop_last();
        let last = samples.last();
        lemma_gauge_after_samples(registry, before, t);
        lemma_apply_all_concat(registry, pass_updates(before), last.updates());
        let midway = registry.apply_all(pass_updates(before));
        match reading_of(last, t) {
            Some(value) => {
                let update = UpdateView::overwrite(t.spec_series(), Value::Count(value));
                assert(last.updates() =~= seq![update]);
                lemma_apply_all_single(midway, update);
            },
            None => {
                lemma_sample_leaves_ticker_alone(last, t);
                lemma_untouched_series_is_kept(midway, last.updates(), t.spec_series());
            },
        }
    }
}

/// After a pass, the gauge of every cumulative ticker that the pass got to
/// read holds exactly the reading, as it was read: the last one, should the
/// pass have read the ticker more than once.
pub proof fn lemma_gauge_holds_reading(
    registry: Registry,
    t: TickerType,
    samples: Seq<SampleView>,
)
    requires
        t.spec_kind() == MetricKind::Gauge,
        ticker_readings(reached(samples), t).len() > 0,
    ensures
        registry.apply_all(published(samples)).gauge(t.spec_series()) == Some(
            Value::Count(ticker_readings(reached(samples), t).last()),
        ),
{
    lemma_gauge_after_samples(registry, reached(samples), t);
}

/// A series that neither of two sequences of updates touches is not touched
/// by the two joined.
proof fn lemma_touches_concat(first: Seq<UpdateView>, second: Seq<UpdateView>, series: SeriesView)
    requires
        !touches(first, series),
        !touches(second, series),
    ensures
        !touches(first + second, series),
{
    assert forall|k: int| 0 <= k < (first + second).len() implies (#[trigger] (first
        + second)[k]).series != series by {
        if k < first.len() {
            assert((first + second)[k] == first[k]);
        } else {
            assert((first + second)[k] == second[k - first.len()]);
        }
    }
}

/// The sample is a summary of the histogram `t`.
pub open spec fn summarises(sample: SampleView, t: HistType) -> bool {
    sample matches SampleView::Histogram(u, Some(_)) && u == t
}

/// Samples without a summary of the histogram `t` make no update to the
/// histogram's family.
proof fn lemma_samples_leave_histogram_alone(
    samples: Seq<SampleView>,
    t: HistType,
    series: SeriesView,
)
    requires
        forall|j: int| 0 <= j < samples.len() ==> !summarises(#[trigger] samples[j], t),
        series.family == Family::Histogram(t),
    ensures
        !touches(pass_updates(samples), series),
    decreases samples.len(),
{
    if samples.len() > 0 {
        let before = samples.drop_last();
        let last = samples.last();
        assert forall|j: int| 0 <= j < before.len() implies !summarises(
            #[trigger] before[j],
            t,
        ) by {
            assert(before[j] == samples[j]);
        }
        lemma_samples_leave_histogram_alone(before, t, series);
        assert(!summarises(samples[samples.len() - 1], t));
        let updates = last.updates();
        assert forall|k: int| 0 <= k < updates.len() implies (#[trigger] updates[k]).series
            != series by {
            lemma_sample_updates_series(last, k);
        }
        lemma_touches_concat(pass_updates(before), last.updates(), series);
    }
}

/// An absent histogram is left alone: over any number of passes in which the
/// engine has no summary of the histogram `t`, no update is made to any
/// series of the histogram's family, and each of them holds afterwards what
/// it held before.
pub proof fn lemma_absent_histogram_is_left_alone(
    registry: Registry,
    t: HistType,
    ticks: Seq<Seq<SampleView>>,
    series: SeriesView,
)
    requires
        forall|i: int, j: int|
            0 <= i < ticks.len() && 0 <= j < ticks[i].len() ==> !summarises(
                #[trigger] ticks[i][j],
                t,
            ),
        series.family == Family::Histogram(t),
    ensures
        !touches(ticks_published(ticks), series),
        registry.apply_all(ticks_published(ticks)).gauge(series) == registry.gauge(series),
    decreases ticks.len(),
{
    if ticks.len() > 0 {
        let before = ticks.drop_last();
        let last = ticks.last();
        assert forall|i: int, j: int| 0 <= i < before.len() && 0 <= j < before[i].len() implies
            !summarises(#[trigger] before[i][j], t) by {
            assert(before[i] == ticks[i]);
        }
        lemma_absent_histogram_is_left_alone(registry, t, before, series);
        assert forall|j: int| 0 <= j < last.len() implies !summarises(#[trigger] last[j], t) by {
            assert(last[j] == ticks[ticks.len() - 1][j]);
        }
        lemma_reached_is_a_prefix(last);
        assert forall|j: int| 0 <= j < reached(last).len() implies !summarises(
            #[trigger] reached(last)[j],
            t,
        ) by {
            assert(reached(last)[j] == last[j]);
        }
        lemma_samples_leave_histogram_alone(reached(last), t, series);
        lemma_touches_concat(ticks_published(before), published(last), series);
    }
    lemma_untouched_series_is_kept(registry, ticks_published(ticks), series);
}

/// Filtering the updates of one statistic of a partition by whether they
/// are made to the series of the statistic `missing`: all go where the
/// statistic is `missing` itself, and all stay otherwise.
proof fn lemma_filter_partition_stat(
    p: CfPropertiesView,
    stat: PartitionStat,
    missing: PartitionStat,
)
    requires
        missing.spec_optional(),
    ensures
        partition_stat_updates(p, stat).filter(
            |u: UpdateView| u.series != missing.spec_series(p.cf),
        ) == partition_stat_updates(p.without(missing), stat),
{
    let keep = |u: UpdateView| u.series != missing.spec_series(p.cf);
    let updates = partition_stat_updates(p, stat);
    reveal_with_fuel(Seq::filter, 2);
    if updates.len() > 0 {
        assert(updates.drop_last() =~= Seq::<UpdateView>::empty());
        if stat.spec_series(p.cf) == missing.spec_series(p.cf) {
            lemma_partition_series_injective(stat, p.cf, missing, p.cf);
        }
        assert(updates.filter(keep) =~= partition_stat_updates(p.without(missing), stat));
    } else {
        assert(updates.filter(keep) =~= partition_stat_updates(p.without(missing), stat));
    }
}

/// Filtering the updates of some statistics of a partition by whether they
/// are made to the series of the statistic `missing` leaves what the
/// partition publishes of these statistics without `missing`.
proof fn lemma_filter_stats(p: CfPropertiesView, stats: Seq<PartitionStat>, missing: PartitionStat)
    requires
        missing.spec_optional(),
    ensures
        stats_updates(p, stats).filter(|u: UpdateView| u.series != missing.spec_series(p.cf))
            == stats_updates(p.without(missing), stats),
    decreases stats.len(),
{
    let keep = |u: UpdateView| u.series != missing.spec_series(p.cf);
    if stats.len() > 0 {
        lemma_filter_stats(p, stats.drop_last(), missing);
        lemma_filter_partition_stat(p, stats.last(), missing);
        Seq::filter_distributes_over_add(
            stats_updates(p, stats.drop_last()),
            partition_stat_updates(p, stats.last()),
            keep,
        );
    } else {
        reveal_with_fuel(Seq::filter, 1);
        assert(stats_updates(p, stats).filter(keep) =~= stats_updates(p.without(missing), stats));
    }
}

/// A statistic that a partition does not expose is passed over, and only it:
/// without an optional statistic, the partition publishes no update for that
/// statistic and the same update as before for every other one. Its updates
/// are those it would publish with the statistic, less the one made to the
/// statistic's series.
pub proof fn lemma_missing_optional_skips_only_itself(p: CfPropertiesView, missing: PartitionStat)
    requires
        missing.spec_optional(),
    ensures
        partition_stat_updates(p.without(missing), missing) == Seq::<UpdateView>::empty(),
        forall|other: PartitionStat|
            other != missing ==> #[trigger] partition_stat_updates(p.without(missing), other)
                == partition_stat_updates(p, other),
        p.without(missing).total_sst_files_size == p.total_sst_files_size,
        partition_updates(p.without(missing)) == partition_updates(p).filter(
            |u: UpdateView| u.series != missing.spec_series(p.cf),
        ),
{
    lemma_filter_stats(p, PARTITION_STATS@, missing);
    assert(partition_stat_updates(p.without(missing), missing) =~= Seq::<UpdateView>::empty());
}

/// Where a delta is taken as the difference of two running totals, a total
/// that grew by no more than fits a signed number is published as it grew,
/// and a total that went back by no more than that is an anomaly, for which
/// nothing is published.
pub proof fn lemma_delta_of_running_totals(t: TickerType, previous: u64, current: u64)
    requires
        t.spec_kind() == MetricKind::Counter,
    ensures
        previous <= current <= previous + i64::MAX ==> ticker_update(
            t,
            spec_delta_since(previous, current),
        ) == Some(UpdateView::increment(t.spec_series(), (current - previous) as u64)),
        current < previous <= current + i64::MAX + 1 ==> ticker_update(
            t,
            spec_delta_since(previous, current),
        ) is None,
{
}

/// The running total that a ticker had before the reading at `i`: the one of
/// the reading before, or `previous` before the first.
pub open spec fn total_before(previous: u64, totals: Seq<u64>, i: int) -> u64 {
    if i == 0 {
        previous
    } else {
        totals[i - 1]
    }
}

/// The deltas that a tracker hands out for the running totals of a ticker,
/// reading by reading, where `previous` is the total that it starts from.
pub open spec fn deltas_between(previous: u64, totals: Seq<u64>) -> Seq<u64>
    decreases totals.len(),
{
    if totals.len() == 0 {
        seq![]
    } else {
        deltas_between(previous, totals.drop_last()).push(
            spec_delta_since(total_before(previous, totals, totals.len() - 1), totals.last()),
        )
    }
}

/// For an engine that only reports running totals: where the total of a
/// ticker never goes back, the deltas that the tracker hands out add up to
/// exactly what the total grew by since the tracker's first reading.
pub proof fn lemma_deltas_add_up_to_growth(previous: u64, totals: Seq<u64>)
    requires
        forall|i: int|
            0 <= i < totals.len() ==> total_before(previous, totals, i) <= #[trigger] totals[i],
    ensures
        deltas_between(previous, totals).len() == totals.len(),
        sum(deltas_between(previous, totals)) == if totals.len() == 0 {
            0
        } else {
            totals.last() - previous
        },
    decreases totals.len(),
{
    if totals.len() > 0 {
        let before = totals.drop_last();
        assert forall|i: int| 0 <= i < before.len() implies total_before(previous, before, i)
            <= #[trigger] before[i] by {
            assert(before[i] == totals[i]);
            assert(total_before(previous, before, i) == total_before(previous, totals, i));
        }
        lemma_deltas_add_up_to_growth(previous, before);
        let last = totals.len() - 1;
        assert(total_before(previous, totals, last) <= totals[last]);
        lemma_sum_push(
            deltas_between(previous, before),
            spec_delta_since(total_before(previous, totals, last), totals.last()),
        );
        if before.len() > 0 {
            assert(before.last() == totals[last - 1]);
        }
    }
}

/// Every update of the sequence is one that the registry accepts.
pub open spec fn well_formed(updates: Seq<UpdateView>) -> bool {
    forall|k: int| 0 <= k < updates.len() ==> (#[trigger] updates[k]).wf()
}

/// Two sequences of accepted updates make one when joined.
proof fn lemma_well_formed_concat(first: Seq<UpdateView>, second: Seq<UpdateView>)
    requires
        well_formed(first),
        well_formed(second),
    ensures
        well_formed(first + second),
{
    assert forall|k: int| 0 <= k < (first + second).len() implies (#[trigger] (first
        + second)[k]).wf() by {
        if k < first.len() {
            assert((first + second)[k] == first[k]);
        } else {
            assert((first + second)[k] == second[k - first.len()]);
        }
    }
}

/// The registry accepts every update of some statistics of a partition.
proof fn lemma_stats_updates_well_formed(p: CfPropertiesView, stats: Seq<PartitionStat>)
    ensures
        well_formed(stats_updates(p, stats)),
    decreases stats.len(),
{
    if stats.len() > 0 {
        lemma_stats_updates_well_formed(p, stats.drop_last());
        lemma_well_formed_concat(
            stats_updates(p, stats.drop_last()),
            partition_stat_updates(p, stats.last()),
        );
    }
}

/// The registry accepts every update of the readings of partitions.
proof fn lemma_properties_updates_well_formed(partitions: Seq<CfPropertiesView>)
    ensures
        well_formed(properties_updates(partitions)),
    decreases partitions.len(),
{
    if partitions.len() > 0 {
        let p = partitions.last();
        lemma_stats_updates_well_formed(p, PARTITION_STATS@);
        lemma_properties_updates_well_formed(partitions.drop_last());
        lemma_well_formed_concat(properties_updates(partitions.drop_last()), partition_updates(p));
    }
}

/// The registry accepts every update that a sample gives rise to: the series
/// has a value for each label of its family, gauges are overwritten and
/// counters incremented, and no increment reads as a negative number.
pub proof fn lemma_sample_updates_well_formed(sample: SampleView)
    ensures
        well_formed(sample.updates()),
{
    match sample {
        SampleView::Properties(partitions) => {
            lemma_properties_updates_well_formed(sized_prefix(partitions));
        },
        _ => {},
    }
}

/// The registry accepts every update of a sequence of samples.
proof fn lemma_pass_updates_well_formed(samples: Seq<SampleView>)
    ensures
        well_formed(pass_updates(samples)),
    decreases samples.len(),
{
    if samples.len() > 0 {
        lemma_pass_updates_well_formed(samples.drop_last());
        lemma_sample_updates_well_formed(samples.last());
        lemma_well_formed_concat(pass_updates(samples.drop_last()), samples.last().updates());
    }
}

/// The registry accepts every update that a pass publishes, whether the pass
/// fails or not.
pub proof fn lemma_published_updates_well_formed(samples: Seq<SampleView>)
    ensures
        well_formed(published(samples)),
{
    lemma_pass_updates_well_formed(reached(samples));
}

/// The samples answer the queries, one for one.
pub open spec fn answer(samples: Seq<SampleView>, queries: Seq<Query>) -> bool {
    &&& samples.len() == queries.len()
    &&& forall|i: int| 0 <= i < samples.len() ==> (#[trigger] samples[i]).answers(queries[i])
}

/// How many of the queries read the ticker `t`.
pub open spec fn reads_of(queries: Seq<Query>, t: TickerType) -> nat
    decreases queries.len(),
{
    if queries.len() == 0 {
        0
    } else {
        let before = reads_of(queries.drop_last(), t);
        match queries.last() {
            Query::Cumulative(u) | Query::ReadAndReset(u) => if u == t {
                before + 1
            } else {
                before
            },
            _ => before,
        }
    }
}

/// Samples that answer some queries hold as many readings of a ticker as the
/// queries read it.
proof fn lemma_readings_follow_queries(samples: Seq<SampleView>, queries: Seq<Query>, t: TickerType)
    requires
        answer(samples, queries),
    ensures
        ticker_readings(samples, t).len() == reads_of(queries, t),
    decreases samples.len(),
{
    if samples.len() > 0 {
        assert(samples[samples.len() - 1].answers(queries[samples.len() - 1]));
        assert forall|i: int| 0 <= i < samples.drop_last().len() implies (
        #[trigger] samples.drop_last()[i]).answers(queries.drop_last()[i]) by {
            assert(samples[i].answers(queries[i]));
        }
        lemma_readings_follow_queries(samples.drop_last(), queries.drop_last(), t);
    }
}

/// The reads of a ticker among two sequences of queries add up.
proof fn lemma_reads_of_concat(first: Seq<Query>, second: Seq<Query>, t: TickerType)
    ensures
        reads_of(first + second, t) == reads_of(first, t) + reads_of(second, t),
    decreases second.len(),
{
    if second.len() == 0 {
        assert(first + second =~= first);
    } else {
        assert((first + second).drop_last() =~= first + second.drop_last());
        assert((first + second).last() == second.last());
        lemma_reads_of_concat(first, second.drop_last(), t);
    }
}

/// The queries for a list of tickers that names none twice read a ticker
/// once where the list names it, and never where it does not.
proof fn lemma_reads_of_tickers(tickers: Seq<TickerType>, t: TickerType)
    requires
        tickers.no_duplicates(),
    ensures
        reads_of(tickers.map_values(|u: TickerType| Query::spec_ticker(u)), t) == (if tickers
            .contains(t) {
            1nat
        } else {
            0nat
        }),
    decreases tickers.len(),
{
    let ask = |u: TickerType| Query::spec_ticker(u);
    if tickers.len() > 0 {
        let before = tickers.drop_last();
        assert(tickers.map_values(ask).drop_last() =~= before.map_values(ask));
        assert(tickers.map_values(ask).last() == Query::spec_ticker(tickers.last()));
        assert forall|i: int, j: int|
            0 <= i < before.len() && 0 <= j < before.len() && i != j implies before[i]
            != before[j] by {
            assert(before[i] == tickers[i] && before[j] == tickers[j]);
        }
        lemma_reads_of_tickers(before, t);
        if tickers.last() == t {
            if before.contains(t) {
                let i = choose|i: int| 0 <= i < before.len() && before[i] == t;
                assert(tickers[i] == tickers[tickers.len() - 1]);
            }
            assert(tickers[tickers.len() - 1] == t);
        } else {
            if tickers.contains(t) {
                let i = choose|i: int| 0 <= i < tickers.len() && tickers[i] == t;
                assert(before[i] == t);
            }
            if before.contains(t) {
                let i = choose|i: int| 0 <= i < before.len() && before[i] == t;
                assert(tickers[i] == t);
            }
        }
    }
}

/// The queries for a list of histograms read no ticker.
proof fn lemma_reads_of_histograms(histograms: Seq<HistType>, t: TickerType)
    ensures
        reads_of(histograms.map_values(|u: HistType| Query::Histogram(u)), t) == 0,
    decreases histograms.len(),
{
    let ask = |u: HistType| Query::Histogram(u);
    if histograms.len() > 0 {
        assert(histograms.map_values(ask).drop_last() =~= histograms.drop_last().map_values(ask));
        lemma_reads_of_histograms(histograms.drop_last(), t);
    }
}

/// A pass reads every ticker exactly once, and in the manner of its kind:
/// samples that answer the queries of a pass hold one reading of each
/// ticker, and the query for it leaves a cumulative ticker as it is and
/// resets a delta ticker.
pub proof fn lemma_pass_reads_each_ticker_once(samples: Seq<SampleView>, t: TickerType)
    requires
        answer(samples, spec_flush_queries()),
    ensures
        ticker_readings(samples, t).len() == 1,
        spec_flush_queries().contains(Query::spec_ticker(t)),
        t.spec_kind() == MetricKind::Gauge ==> !spec_flush_queries().contains(
            Query::ReadAndReset(t),
        ),
        t.spec_kind() == MetricKind::Counter ==> !spec_flush_queries().contains(
            Query::Cumulative(t),
        ),
{
    let gauges = ENGINE_TICKER_TYPES_GAUGE@.map_values(|u: TickerType| Query::spec_ticker(u));
    let counters = ENGINE_TICKER_TYPES_COUNTER@.map_values(|u: TickerType| Query::spec_ticker(u));
    let histograms = ENGINE_HIST_TYPES@.map_values(|u: HistType| Query::Histogram(u));
    let properties = seq![Query::Properties];
    let queries = spec_flush_queries();
    lemma_ticker_lists_follow_kind(t);
    lemma_ticker_lists_have_no_duplicates();
    lemma_reads_of_tickers(ENGINE_TICKER_TYPES_GAUGE@, t);
    lemma_reads_of_tickers(ENGINE_TICKER_TYPES_COUNTER@, t);
    lemma_reads_of_histograms(ENGINE_HIST_TYPES@, t);
    assert(properties.drop_last() =~= Seq::<Query>::empty());
    assert(reads_of(properties.drop_last(), t) == 0);
    assert(properties.last() == Query::Properties);
    assert(reads_of(properties, t) == 0);
    lemma_reads_of_concat(gauges, counters, t);
    lemma_reads_of_concat(gauges + counters, histograms, t);
    lemma_reads_of_concat(gauges + counters + histograms, properties, t);
    lemma_readings_follow_queries(samples, queries, t);
    if t.spec_kind() == MetricKind::Gauge {
        let i = choose|i: int|
            0 <= i < ENGINE_TICKER_TYPES_GAUGE@.len() && ENGINE_TICKER_TYPES_GAUGE@[i] == t;
        assert(queries[i] == Query::spec_ticker(t));
    } else {
        let i = choose|i: int|
            0 <= i < ENGINE_TICKER_TYPES_COUNTER@.len() && ENGINE_TICKER_TYPES_COUNTER@[i] == t;
        assert(queries[gauges.len() + i] == Query::spec_ticker(t));
    }
    assert forall|k: int| 0 <= k < queries.len() implies (#[trigger] queries[k]
        matches Query::Cumulative(u) ==> u.spec_kind() == MetricKind::Gauge) && (queries[k]
        matches Query::ReadAndReset(u) ==> u.spec_kind() == MetricKind::Counter) by {
        if k < gauges.len() {
            assert(queries[k] == gauges[k]);
        } else if k < gauges.len() + counters.len() {
            assert(queries[k] == counters[k - gauges.len()]);
        } else if k < gauges.len() + counters.len() + histograms.len() {
            assert(queries[k] == histograms[k - gauges.len() - counters.len()]);
        } else {
            assert(queries[k] == properties[k - gauges.len() - counters.len() - histograms.len()]);
        }
    }
}

/// Only the last query of a pass can fail, so a pass that asks every query
/// gets to every sample, whether it fails or not.
pub proof fn lemma_pass_gets_to_every_sample(samples: Seq<SampleView>)
    requires
        answer(samples, spec_flush_queries()),
    ensures
        reached(samples) == samples,
{
    let queries = spec_flush_queries();
    if !pass_succeeds(samples) {
        lemma_some_sample_fails_first(samples);
        let i = choose|i: int| first_failing(samples, i);
        assert(samples[i].answers(queries[i]));
        assert(queries[i] == Query::Properties);
        let gauges = ENGINE_TICKER_TYPES_GAUGE@.map_values(|u: TickerType| Query::spec_ticker(u));
        let counters = ENGINE_TICKER_TYPES_COUNTER@.map_values(
            |u: TickerType| Query::spec_ticker(u),
        );
        let histograms = ENGINE_HIST_TYPES@.map_values(|u: HistType| Query::Histogram(u));
        if i < gauges.len() {
            assert(queries[i] == gauges[i]);
        } else if i < gauges.len() + counters.len() {
            assert(queries[i] == counters[i - gauges.len()]);
        } else if i < gauges.len() + counters.len() + histograms.len() {
            assert(queries[i] == histograms[i - gauges.len() - counters.len()]);
        }
        assert(i == samples.len() - 1);
        assert(samples.take(i + 1) =~= samples);
    }
}

/// After a pass that asks every query of a pass, the gauge of every
/// cumulative ticker holds exactly what the engine answered for that ticker
/// during the pass.
pub proof fn lemma_pass_publishes_each_cumulative_ticker(
    registry: Registry,
    samples: Seq<SampleView>,
    t: TickerType,
)
    requires
        t.spec_kind() == MetricKind::Gauge,
        answer(samples, spec_flush_queries()),
    ensures
        ticker_readings(samples, t).len() == 1,
        registry.apply_all(published(samples)).gauge(t.spec_series()) == Some(
            Value::Count(ticker_readings(samples, t)[0]),
        ),
{
    lemma_pass_reads_each_ticker_once(samples, t);
    lemma_pass_gets_to_every_sample(samples);
    lemma_gauge_holds_reading(registry, t, samples);
}

/// Over any number of passes that each ask every query of a pass, the
/// increments that are published for a delta ticker add up to exactly the
/// sum of what the engine answered for that ticker, pass by pass, where no
/// answer is an anomaly. It does not matter whether a pass fails.
pub proof fn lemma_full_passes_accumulate_deltas(
    registry: Registry,
    t: TickerType,
    ticks: Seq<Seq<SampleView>>,
)
    requires
        t.spec_kind() == MetricKind::Counter,
        forall|i: int| 0 <= i < ticks.len() ==> answer(#[trigger] ticks[i], spec_flush_queries()),
        forall|i: int|
            0 <= i < ticks.len() ==> ticker_readings(#[trigger] ticks[i], t)[0] <= i64::MAX,
    ensures
        forall|i: int| 0 <= i < ticks.len() ==> ticker_readings(#[trigger] ticks[i], t).len() == 1,
        increments(ticks_published(ticks), t.spec_series()) == sum(
            Seq::new(ticks.len(), |i: int| ticker_readings(ticks[i], t)[0]),
        ),
        registry.apply_all(ticks_published(ticks)).counter(t.spec_series()) == registry.counter(
            t.spec_series(),
        ) + sum(Seq::new(ticks.len(), |i: int| ticker_readings(ticks[i], t)[0])),
{
    let deltas = Seq::new(ticks.len(), |i: int| ticker_readings(ticks[i], t)[0]);
    assert forall|i: int| 0 <= i < ticks.len() implies ticker_readings(
        reached(#[trigger] ticks[i]),
        t,
    ) == seq![deltas[i]] && ticker_readings(ticks[i], t).len() == 1 by {
        lemma_pass_reads_each_ticker_once(ticks[i], t);
        lemma_pass_gets_to_every_sample(ticks[i]);
        assert(ticker_readings(ticks[i], t) =~= seq![deltas[i]]);
    }
    assert forall|i: int| 0 <= i < deltas.len() implies #[trigger] deltas[i] <= i64::MAX by {
        assert(ticker_readings(ticks[i], t)[0] <= i64::MAX);
    }
    lemma_counter_accumulates_deltas(registry, t, ticks, deltas);
}

} // verus!
