//! One pass of the flusher: what it asks the engine, in which order, and what
//! it publishes for the answers.

use crate::family::MetricKind;
use crate::histogram::{HistType, HistogramData, ENGINE_HIST_TYPES};
use crate::partition::{CfProperties, CfPropertiesView};
use crate::ticker::{TickerType, ENGINE_TICKER_TYPES_COUNTER, ENGINE_TICKER_TYPES_GAUGE};
use crate::translate::{
    all_sized, first_without_size, flush_engine_histogram_metrics, flush_engine_properties,
    flush_engine_ticker_metrics, histogram_updates, properties_updates, sized_prefix,
    ticker_update, FlushError, Flushed,
};
use crate::update::{Update, UpdateView};
use vstd::prelude::*;

verus! {

/// One question that a pass asks the engine.
#[derive(Clone, Copy, Debug, PartialEq, Eq, Hash, Structural)]
pub enum Query {
    /// Read a ticker and leave it as it is.
    Cumulative(TickerType),
    /// Read a ticker and reset it to zero in the same step.
    ReadAndReset(TickerType),
    /// Take the summary of a histogram, if it has recorded anything.
    Histogram(HistType),
    /// Read the statistics of every partition.
    Properties,
}

impl Query {
    /// How a ticker is read: a cumulative ticker is left as it is, a delta
    /// ticker is reset.
    pub open spec fn spec_ticker(t: TickerType) -> Query {
        match t.spec_kind() {
            MetricKind::Gauge => Query::Cumulative(t),
            MetricKind::Counter => Query::ReadAndReset(t),
        }
    }

    /// How a ticker is read: a cumulative ticker is left as it is, a delta
    /// ticker is reset.
    #[verifier::when_used_as_spec(spec_ticker)]
    pub fn ticker(t: TickerType) -> (query: Query)
        ensures
            query == Query::spec_ticker(t),
    {
        match t.kind() {
            MetricKind::Gauge => Query::Cumulative(t),
            MetricKind::Counter => Query::ReadAndReset(t),
        }
    }
}

/// The questions of one pass, in the order in which they are asked: the
/// cumulative tickers, the delta tickers, the histograms, the partitions.
pub open spec fn spec_flush_queries() -> Seq<Query> {
    ENGINE_TICKER_TYPES_GAUGE@.map_values(|t: TickerType| Query::spec_ticker(t))
        + ENGINE_TICKER_TYPES_COUNTER@.map_values(|t: TickerType| Query::spec_ticker(t))
        + ENGINE_HIST_TYPES@.map_values(|t: HistType| Query::Histogram(t)) + seq![
        Query::Properties,
    ]
}

/// The questions of one pass, in the order in which they are asked: the
/// cumulative tickers, the delta tickers, the histograms, the partitions.
pub fn flush_queries() -> (queries: Vec<Query>)
    ensures
        queries@ == spec_flush_queries(),
{
    let mut queries: Vec<Query> = Vec::new();
    let mut i: usize = 0;
    while i < ENGINE_TICKER_TYPES_GAUGE.len()
        invariant
            i <= ENGINE_TICKER_TYPES_GAUGE@.len(),
            queries@ == ENGINE_TICKER_TYPES_GAUGE@.take(i as int).map_values(
                |t: TickerType| Query::spec_ticker(t),
            ),
        decreases ENGINE_TICKER_TYPES_GAUGE@.len() - i,
    {
        queries.push(Query::ticker(ENGINE_TICKER_TYPES_GAUGE[i]));
        i += 1;
        assert(queries@ =~= ENGINE_TICKER_TYPES_GAUGE@.take(i as int).map_values(
            |t: TickerType| Query::spec_ticker(t),
        ));
    }
    assert(ENGINE_TICKER_TYPES_GAUGE@.take(i as int) =~= ENGINE_TICKER_TYPES_GAUGE@);
    let ghost gauges = queries@;
    let mut i: usize = 0;
    while i < ENGINE_TICKER_TYPES_COUNTER.len()
        invariant
            i <= ENGINE_TICKER_TYPES_COUNTER@.len(),
            queries@ == gauges + ENGINE_TICKER_TYPES_COUNTER@.take(i as int).map_values(
                |t: TickerType| Query::spec_ticker(t),
            ),
        decreases ENGINE_TICKER_TYPES_COUNTER@.len() - i,
    {
        queries.push(Query::ticker(ENGINE_TICKER_TYPES_COUNTER[i]));
        i += 1;
        assert(queries@ =~= gauges + ENGINE_TICKER_TYPES_COUNTER@.take(i as int).map_values(
            |t: TickerType| Query::spec_ticker(t),
        ));
    }
    assert(ENGINE_TICKER_TYPES_COUNTER@.take(i as int) =~= ENGINE_TICKER_TYPES_COUNTER@);
    let ghost tickers = queries@;
    let mut i: usize = 0;
    while i < ENGINE_HIST_TYPES.len()
        invariant
            i <= ENGINE_HIST_TYPES@.len(),
            queries@ == tickers + ENGINE_HIST_TYPES@.take(i as int).map_values(
                |t: HistType| Query::Histogram(t),
            ),
        decreases ENGINE_HIST_TYPES@.len() - i,
    {
        queries.push(Query::Histogram(ENGINE_HIST_TYPES[i]));
        i += 1;
        assert(queries@ =~= tickers + ENGINE_HIST_TYPES@.take(i as int).map_values(
            |t: HistType| Query::Histogram(t),
        ));
    }
    assert(ENGINE_HIST_TYPES@.take(i as int) =~= ENGINE_HIST_TYPES@);
    queries.push(Query::Properties);
    queries
}

/// The engine's answer to one question, together with what was asked.
#[derive(Clone, Debug, PartialEq, Eq, Hash)]
pub enum Sample {
    /// The reading of a ticker.
    Ticker(TickerType, u64),
    /// The summary of a histogram, or `None` where the histogram has not
    /// recorded anything.
    Histogram(HistType, Option<HistogramData>),
    /// The statistics of every partition.
    Properties(Vec<CfProperties>),
}

/// A sample as contracts see it.
pub enum SampleView {
    Ticker(TickerType, u64),
    Histogram(HistType, Option<HistogramData>),
    Properties(Seq<CfPropertiesView>),
}

impl DeepView for Sample {
    type V = SampleView;

    open spec fn deep_view(&self) -> SampleView {
        match self {
            Sample::Ticker(t, value) => SampleView::Ticker(*t, *value),
            Sample::Histogram(t, value) => SampleView::Histogram(*t, *value),
            Sample::Properties(partitions) => SampleView::Properties(partitions.deep_view()),
        }
    }
}

impl View for Sample {
    type V = SampleView;

    open spec fn view(&self) -> SampleView {
        self.deep_view()
    }
}

impl SampleView {
    /// The sample answers the question.
    pub open spec fn answers(self, query: Query) -> bool {
        match (query, self) {
            (Query::Cumulative(t), SampleView::Ticker(u, _)) => t == u,
            (Query::ReadAndReset(t), SampleView::Ticker(u, _)) => t == u,
            (Query::Histogram(t), SampleView::Histogram(u, _)) => t == u,
            (Query::Properties, SampleView::Properties(_)) => true,
            _ => false,
        }
    }

    /// The translation of the sample stops short: a partition lacks its
    /// on-disk size.
    pub open spec fn fails(self) -> bool {
        match self {
            SampleView::Properties(partitions) => !all_sized(partitions),
            _ => false,
        }
    }

    /// The sample fails with this error.
    pub open spec fn fails_with(self, error: FlushError) -> bool {
        match (self, error) {
            (
                SampleView::Properties(partitions),
                FlushError::MissingTotalSize { partition },
            ) => first_without_size(partitions, partition as int),
            _ => false,
        }
    }

    /// The updates that publish the sample. An absent histogram publishes
    /// nothing, and partitions are published up to the first that lacks its
    /// on-disk size.
    pub open spec fn updates(self) -> Seq<UpdateView> {
        match self {
            SampleView::Ticker(t, value) => match ticker_update(t, value) {
                Some(update) => seq![update],
                None => seq![],
            },
            SampleView::Histogram(t, Some(value)) => histogram_updates(t, value),
            SampleView::Histogram(_, None) => seq![],
            SampleView::Properties(partitions) => properties_updates(sized_prefix(partitions)),
        }
    }
}

/// Translates one sample into the updates that publish it, and says what
/// stopped the translation, if anything did.
pub fn flush_sample(sample: &Sample) -> (flushed: Flushed)
    ensures
        flushed.updates.deep_view() == sample@.updates(),
        match flushed.failure {
            None => !sample@.fails(),
            Some(error) => sample@.fails_with(error),
        },
{
    match sample {
        Sample::Ticker(t, value) => {
            let mut updates: Vec<Update> = Vec::new();
            match flush_engine_ticker_metrics(*t, *value) {
                Some(update) => {
                    updates.push(update);
                },
                None => {},
            }
            assert(updates.deep_view() =~= sample@.updates());
            Flushed { updates, failure: None }
        },
        Sample::Histogram(t, Some(value)) => {
            Flushed { updates: flush_engine_histogram_metrics(*t, *value), failure: None }
        },
        Sample::Histogram(_, None) => {
            let updates: Vec<Update> = Vec::new();
            assert(updates.deep_view() =~= sample@.updates());
            Flushed { updates, failure: None }
        },
        Sample::Properties(partitions) => flush_engine_properties(partitions),
    }
}

/// The updates that publish a sequence of samples, sample by sample.
pub open spec fn pass_updates(samples: Seq<SampleView>) -> Seq<UpdateView>
    decreases samples.len(),
{
    if samples.len() == 0 {
        seq![]
    } else {
        pass_updates(samples.drop_last()) + samples.last().updates()
    }
}

/// No sample of the sequence fails.
pub open spec fn pass_succeeds(samples: Seq<SampleView>) -> bool {
    forall|i: int| 0 <= i < samples.len() ==> !(#[trigger] samples[i]).fails()
}

/// The sample at `i` is the first that fails.
pub open spec fn first_failing(samples: Seq<SampleView>, i: int) -> bool {
    &&& 0 <= i < samples.len()
    &&& samples[i].fails()
    &&& forall|j: int| 0 <= j < i ==> !(#[trigger] samples[j]).fails()
}

/// The sample at `i` is the first that fails, and it fails with `error`.
pub open spec fn pass_fails_at(samples: Seq<SampleView>, i: int, error: FlushError) -> bool {
    first_failing(samples, i) && samples[i].fails_with(error)
}

/// The samples that a pass gets to: all of them where none fails, and
/// otherwise those up to the first that fails, that one included.
pub open spec fn reached(samples: Seq<SampleView>) -> Seq<SampleView> {
    if pass_succeeds(samples) {
        samples
    } else {
        samples.take((choose|i: int| first_failing(samples, i)) + 1)
    }
}

/// What a pass publishes: the updates of the samples that it gets to.
pub open spec fn published(samples: Seq<SampleView>) -> Seq<UpdateView> {
    pass_updates(reached(samples))
}

/// Only one sample is the first that fails, and the pass gets as far as that
/// sample.
pub proof fn lemma_first_failing_is_unique(samples: Seq<SampleView>, i: int, j: int)
    requires
        first_failing(samples, i),
        first_failing(samples, j),
    ensures
        i == j,
        !pass_succeeds(samples),
        reached(samples) == samples.take(i + 1),
{
    let chosen = choose|k: int| first_failing(samples, k);
    if i < j {
        assert(!samples[i].fails());
    }
    if j < i {
        assert(!samples[j].fails());
    }
    assert(samples[i].fails());
    if chosen < i {
        assert(!samples[chosen].fails());
    }
    if i < chosen {
        assert(!samples[i].fails());
    }
}

/// Where some sample fails, one of them is the first to fail.
pub proof fn lemma_some_sample_fails_first(samples: Seq<SampleView>)
    requires
        !pass_succeeds(samples),
    ensures
        exists|i: int| first_failing(samples, i),
    decreases samples.len(),
{
    if samples.len() > 0 {
        let before = samples.drop_last();
        if pass_succeeds(before) {
            let last = samples.len() - 1;
            assert forall|j: int| 0 <= j < last implies !(#[trigger] samples[j]).fails() by {
                assert(before[j] == samples[j]);
            }
            assert(first_failing(samples, last));
        } else {
            lemma_some_sample_fails_first(before);
            let i = choose|i: int| first_failing(before, i);
            assert(before[i] == samples[i]);
            assert forall|j: int| 0 <= j < i implies !(#[trigger] samples[j]).fails() by {
                assert(before[j] == samples[j]);
            }
            assert(first_failing(samples, i));
        }
    }
}

/// A pass gets to the first samples of the sequence: what it gets to is the
/// sequence cut after some sample, or all of it.
pub proof fn lemma_reached_is_a_prefix(samples: Seq<SampleView>)
    ensures
        reached(samples).len() <= samples.len(),
        reached(samples) == samples.take(reached(samples).len() as int),
        pass_succeeds(samples) <==> pass_succeeds(reached(samples)),
{
    if pass_succeeds(samples) {
        assert(samples.take(samples.len() as int) =~= samples);
    } else {
        lemma_some_sample_fails_first(samples);
        let i = choose|i: int| first_failing(samples, i);
        assert(reached(samples)[i] == samples[i]);
    }
}

/// Translates the samples of one pass into the updates that publish them, in
/// the order of the samples. The first sample that fails stops the pass: the
/// samples up to it are translated, those after it are not, and its error is
/// the failure of the pass.
pub fn flush_metrics(samples: &Vec<Sample>) -> (flushed: Flushed)
    ensures
        flushed.updates.deep_view() == published(samples.deep_view()),
        match flushed.failure {
            None => pass_succeeds(samples.deep_view()),
            Some(error) => exists|i: int| pass_fails_at(samples.deep_view(), i, error),
        },
{
    let mut updates: Vec<Update> = Vec::new();
    let mut i: usize = 0;
    while i < samples.len()
        invariant
            i <= samples.len(),
            pass_succeeds(samples.deep_view().take(i as int)),
            updates.deep_view() == pass_updates(samples.deep_view().take(i as int)),
        decreases samples.len() - i,
    {
        let ghost all = samples.deep_view();
        proof {
            assert(all.take(i + 1).drop_last() =~= all.take(i as int));
            assert(all.take(i + 1).last() == samples[i as int]@);
            assert forall|j: int| 0 <= j < i implies !(#[trigger] all[j]).fails() by {
                assert(all.take(i as int)[j] == all[j]);
            }
        }
        let mut next = flush_sample(&samples[i]);
        let ghost before = updates.deep_view();
        let ghost added = next.updates.deep_view();
        updates.append(&mut next.updates);
        assert(updates.deep_view() =~= before + added);
        match next.failure {
            Some(error) => {
                proof {
                    assert(pass_fails_at(all, i as int, error));
                    lemma_first_failing_is_unique(all, i as int, i as int);
                }
                return Flushed { updates, failure: Some(error) };
            },
            None => {},
        }
        i += 1;
        proof {
            let so_far = all.take(i as int);
            assert forall|j: int| 0 <= j < i implies !(#[trigger] so_far[j]).fails() by {
                if j < i - 1 {
                    assert(all.take(i - 1)[j] == so_far[j]);
                }
            }
        }
    }
    proof {
        assert(samples.deep_view().take(i as int) =~= samples.deep_view());
    }
    Flushed { updates, failure: None }
}

} // verus!
