use engine_metrics::family::Family;
use engine_metrics::histogram::{HistField, HistType, HistogramData, ENGINE_HIST_TYPES};
use engine_metrics::partition::{CfProperties, PartitionStat};
use engine_metrics::ticker::{
    delta_since, TickerType, ENGINE_TICKER_TYPES_COUNTER, ENGINE_TICKER_TYPES_GAUGE,
};
use engine_metrics::translate::{
    flush_engine_histogram_metrics, flush_engine_properties, flush_engine_ticker_metrics,
    FlushError, Flushed,
};
use engine_metrics::update::{Op, Series, Update, Value};

fn summary(median: f64, p95: f64, p99: f64, average: f64, deviation: f64) -> HistogramData {
    HistogramData {
        median: median.to_bits(),
        percentile95: p95.to_bits(),
        percentile99: p99.to_bits(),
        average: average.to_bits(),
        standard_deviation: deviation.to_bits(),
    }
}

fn partition(cf: &str) -> CfProperties {
    CfProperties {
        cf: cf.to_string(),
        total_sst_files_size: Some(4096),
        block_cache_usage: 512,
        table_readers_mem: Some(64),
        cur_size_all_mem_tables: Some(128),
        estimate_num_keys: Some(1000),
        pending_compaction_bytes: Some(0),
    }
}

/// The updates of partitions that all have their size.
fn complete(partitions: &Vec<CfProperties>) -> Vec<Update> {
    let flushed = flush_engine_properties(partitions);
    assert_eq!(flushed.failure, None);
    flushed.updates
}

fn gauge(family: Family, labels: &[&str], value: Value) -> Update {
    Update {
        series: Series { family, labels: labels.iter().map(|l| l.to_string()).collect() },
        op: Op::Overwrite(value),
    }
}

#[test]
fn cumulative_ticker_overwrites_its_gauge() {
    let update = flush_engine_ticker_metrics(TickerType::NumberKeysWritten, 1000).unwrap();
    assert_eq!(update, gauge(Family::Flow, &["keys_written"], Value::Count(1000)));
}

#[test]
fn cumulative_ticker_is_published_untransformed() {
    for value in [0, 1, 1 << 53, (1 << 53) + 1, i64::MAX as u64, 1 << 63, u64::MAX] {
        let update = flush_engine_ticker_metrics(TickerType::BytesWritten, value).unwrap();
        assert_eq!(update.op, Op::Overwrite(Value::Count(value)));
    }
}

#[test]
fn every_cumulative_ticker_overwrites_its_own_series() {
    for t in ENGINE_TICKER_TYPES_GAUGE.iter() {
        let update = flush_engine_ticker_metrics(*t, 7).unwrap();
        assert_eq!(update.series, t.series());
        assert_eq!(update.op, Op::Overwrite(Value::Count(7)));
    }
}

#[test]
fn delta_ticker_increments_its_counter() {
    let update = flush_engine_ticker_metrics(TickerType::NumberDbSeek, 5).unwrap();
    assert_eq!(update.series.family, Family::Locate);
    assert_eq!(update.series.labels, vec!["number_db_seek".to_string()]);
    assert_eq!(update.op, Op::Increment(5));
}

#[test]
fn every_delta_ticker_increments_its_own_series() {
    for t in ENGINE_TICKER_TYPES_COUNTER.iter() {
        let update = flush_engine_ticker_metrics(*t, 7).unwrap();
        assert_eq!(update.series, t.series());
        assert_eq!(update.op, Op::Increment(7));
    }
}

#[test]
fn ticker_without_label_has_a_plain_series() {
    let stall = flush_engine_ticker_metrics(TickerType::StallMicros, 9).unwrap();
    assert_eq!(stall, gauge(Family::StallMicros, &[], Value::Count(9)));
    let iterators = flush_engine_ticker_metrics(TickerType::NoIterators, 2).unwrap();
    assert_eq!(iterators, gauge(Family::NoIterator, &[], Value::Count(2)));
    let synced = flush_engine_ticker_metrics(TickerType::WalFileSynced, 3).unwrap();
    assert_eq!(synced.series, Series { family: Family::WalFileSynced, labels: vec![] });
    assert_eq!(synced.op, Op::Increment(3));
}

#[test]
fn zero_delta_is_published() {
    let update = flush_engine_ticker_metrics(TickerType::NoFileOpens, 0).unwrap();
    assert_eq!(update.op, Op::Increment(0));
}

#[test]
fn largest_delta_that_is_not_negative_is_published() {
    let update = flush_engine_ticker_metrics(TickerType::NoFileOpens, i64::MAX as u64).unwrap();
    assert_eq!(update.op, Op::Increment(i64::MAX as u64));
}

#[test]
fn negative_delta_is_skipped() {
    assert_eq!(flush_engine_ticker_metrics(TickerType::NumberDbSeek, 1 << 63), None);
    assert_eq!(flush_engine_ticker_metrics(TickerType::NumberDbSeek, u64::MAX), None);
    assert_eq!(flush_engine_ticker_metrics(TickerType::WalFileSynced, (-1i64) as u64), None);
    for t in ENGINE_TICKER_TYPES_COUNTER.iter() {
        assert_eq!(flush_engine_ticker_metrics(*t, (i64::MAX as u64) + 1), None);
    }
}

#[test]
fn running_total_that_went_back_is_skipped() {
    let delta = delta_since(1000, 990);
    assert_eq!(flush_engine_ticker_metrics(TickerType::NumberDbNext, delta), None);
    let delta = delta_since(990, 1000);
    assert_eq!(
        flush_engine_ticker_metrics(TickerType::NumberDbNext, delta).unwrap().op,
        Op::Increment(10)
    );
}

#[test]
fn histogram_publishes_five_gauges() {
    let value = summary(12.0, 40.0, 80.0, 15.0, 6.0);
    let updates = flush_engine_histogram_metrics(HistType::GetMicros, value);
    let family = Family::Histogram(HistType::GetMicros);
    assert_eq!(family.name(), "get_micro_seconds");
    assert_eq!(
        updates,
        vec![
            gauge(family, &["get_median"], Value::Real(12.0f64.to_bits())),
            gauge(family, &["get_percentile95"], Value::Real(40.0f64.to_bits())),
            gauge(family, &["get_percentile99"], Value::Real(80.0f64.to_bits())),
            gauge(family, &["get_average"], Value::Real(15.0f64.to_bits())),
            gauge(family, &["get_standard_deviation"], Value::Real(6.0f64.to_bits())),
        ]
    );
    for (update, expected) in updates.iter().zip([12.0, 40.0, 80.0, 15.0, 6.0]) {
        match update.op {
            Op::Overwrite(Value::Real(bits)) => assert_eq!(f64::from_bits(bits), expected),
            _ => panic!("a histogram overwrites gauges with reals"),
        }
    }
}

#[test]
fn histogram_fields_keep_their_bits() {
    let value = summary(0.1, f64::MAX, f64::MIN_POSITIVE, 0.0, 1e-300);
    let updates = flush_engine_histogram_metrics(HistType::BytesPerRead, value);
    assert_eq!(updates[0].op, Op::Overwrite(Value::Real(0.1f64.to_bits())));
    assert_eq!(updates[1].op, Op::Overwrite(Value::Real(f64::MAX.to_bits())));
    assert_eq!(updates[2].op, Op::Overwrite(Value::Real(f64::MIN_POSITIVE.to_bits())));
    assert_eq!(updates[3].op, Op::Overwrite(Value::Real(0)));
    assert_eq!(updates[4].op, Op::Overwrite(Value::Real(1e-300f64.to_bits())));
    assert_eq!(value.field(HistField::Median), 0.1f64.to_bits());
    assert_eq!(value.field(HistField::StandardDeviation), 1e-300f64.to_bits());
}

#[test]
fn every_histogram_stays_in_its_family() {
    let value = summary(1.0, 2.0, 3.0, 4.0, 5.0);
    for t in ENGINE_HIST_TYPES.iter() {
        let updates = flush_engine_histogram_metrics(*t, value);
        assert_eq!(updates.len(), 5);
        let prefix = t.label_prefix();
        let suffixes =
            ["_median", "_percentile95", "_percentile99", "_average", "_standard_deviation"];
        for (i, update) in updates.iter().enumerate() {
            assert_eq!(update.series.family, Family::Histogram(*t));
            assert_eq!(update.series.labels, vec![format!("{}{}", prefix, suffixes[i])]);
            assert_eq!(update.op, Op::Overwrite(Value::Real(((i + 1) as f64).to_bits())));
        }
    }
}

#[test]
fn sst_read_summary_stays_in_one_family() {
    let updates =
        flush_engine_histogram_metrics(HistType::SSTReadMicros, summary(1.0, 2.0, 3.0, 4.0, 5.0));
    for update in updates.iter() {
        assert_eq!(update.series.family.full_name(), "tikv_engine_sst_read_micros");
    }
    assert_eq!(updates[1].series.labels, vec!["sst_read_micros_percentile95".to_string()]);
}

#[test]
fn partition_publishes_all_its_statistics() {
    let updates = complete(&vec![partition("default")]);
    assert_eq!(
        updates,
        vec![
            gauge(Family::Size, &["default"], Value::Signed(4096)),
            gauge(Family::BlockCacheSize, &["default"], Value::Signed(512)),
            gauge(Family::Memory, &["default", "readers-mem"], Value::Signed(64)),
            gauge(Family::Memory, &["default", "mem-tables"], Value::Signed(128)),
            gauge(Family::EstimateNumKeys, &["default"], Value::Signed(1000)),
            gauge(Family::PendingCompactionBytes, &["default"], Value::Signed(0)),
        ]
    );
}

#[test]
fn partitions_are_published_in_order() {
    let cfs = ["default", "lock", "write", "raft"];
    let partitions: Vec<CfProperties> = cfs.iter().map(|cf| partition(cf)).collect();
    let updates = complete(&partitions);
    assert_eq!(updates.len(), 24);
    for (i, cf) in cfs.iter().enumerate() {
        assert_eq!(updates[6 * i], gauge(Family::Size, &[cf], Value::Signed(4096)));
        assert_eq!(updates[6 * i + 5].series.labels, vec![cf.to_string()]);
    }
}

#[test]
fn no_partitions_publish_nothing() {
    assert_eq!(flush_engine_properties(&vec![]), Flushed { updates: vec![], failure: None });
}

#[test]
fn missing_optional_property_skips_only_that_metric() {
    let full = complete(&vec![partition("write")]);
    let mut p = partition("write");
    p.table_readers_mem = None;
    let updates = complete(&vec![p]);
    assert_eq!(
        updates,
        vec![
            gauge(Family::Size, &["write"], Value::Signed(4096)),
            gauge(Family::BlockCacheSize, &["write"], Value::Signed(512)),
            gauge(Family::Memory, &["write", "mem-tables"], Value::Signed(128)),
            gauge(Family::EstimateNumKeys, &["write"], Value::Signed(1000)),
            gauge(Family::PendingCompactionBytes, &["write"], Value::Signed(0)),
        ]
    );
    let skipped = PartitionStat::TableReadersMem.series("write");
    let expected: Vec<Update> = full.into_iter().filter(|u| u.series != skipped).collect();
    assert_eq!(updates, expected);
}

#[test]
fn each_optional_property_is_skipped_alone() {
    let full = complete(&vec![partition("lock")]);
    let optional = [
        PartitionStat::TableReadersMem,
        PartitionStat::CurSizeAllMemTables,
        PartitionStat::EstimateNumKeys,
        PartitionStat::PendingCompactionBytes,
    ];
    for stat in optional {
        let mut p = partition("lock");
        match stat {
            PartitionStat::TableReadersMem => p.table_readers_mem = None,
            PartitionStat::CurSizeAllMemTables => p.cur_size_all_mem_tables = None,
            PartitionStat::EstimateNumKeys => p.estimate_num_keys = None,
            _ => p.pending_compaction_bytes = None,
        }
        assert_eq!(p.reading(stat), None);
        let updates = complete(&vec![p]);
        let skipped = stat.series("lock");
        let expected: Vec<Update> =
            full.iter().filter(|u| u.series != skipped).cloned().collect();
        assert_eq!(updates.len(), 5);
        assert_eq!(updates, expected);
    }
}

#[test]
fn partition_with_mandatory_statistics_alone() {
    let p = CfProperties {
        cf: "raft".to_string(),
        total_sst_files_size: Some(1),
        block_cache_usage: 2,
        table_readers_mem: None,
        cur_size_all_mem_tables: None,
        estimate_num_keys: None,
        pending_compaction_bytes: None,
    };
    assert_eq!(
        complete(&vec![p]),
        vec![
            gauge(Family::Size, &["raft"], Value::Signed(1)),
            gauge(Family::BlockCacheSize, &["raft"], Value::Signed(2)),
        ]
    );
}

#[test]
fn missing_size_fails_the_translation() {
    let mut p = partition("default");
    p.total_sst_files_size = None;
    assert_eq!(
        flush_engine_properties(&vec![p]),
        Flushed { updates: vec![], failure: Some(FlushError::MissingTotalSize { partition: 0 }) }
    );
}

#[test]
fn first_partition_without_size_is_reported() {
    let mut lock = partition("lock");
    lock.total_sst_files_size = None;
    let mut raft = partition("raft");
    raft.total_sst_files_size = None;
    let partitions = vec![partition("default"), lock, partition("write"), raft];
    let flushed = flush_engine_properties(&partitions);
    assert_eq!(flushed.failure, Some(FlushError::MissingTotalSize { partition: 1 }));
    assert_eq!(flushed.updates, complete(&vec![partition("default")]));
}

#[test]
fn partitions_before_the_one_without_size_are_published() {
    let mut raft = partition("raft");
    raft.total_sst_files_size = None;
    let partitions = vec![partition("default"), partition("lock"), partition("write"), raft];
    let flushed = flush_engine_properties(&partitions);
    assert_eq!(flushed.failure, Some(FlushError::MissingTotalSize { partition: 3 }));
    assert_eq!(flushed.updates.len(), 18);
    assert_eq!(flushed.updates, complete(&partitions[..3].to_vec()));
    for update in flushed.updates.iter() {
        assert_ne!(update.series.labels[0], "raft");
    }
}

#[test]
fn size_is_published_under_the_label_cf() {
    let updates = complete(&vec![partition("write")]);
    assert_eq!(updates[0].series.family, Family::Size);
    assert_eq!(updates[0].series.family.label_names(), vec!["cf"]);
    assert_eq!(updates[0].series.labels, vec!["write".to_string()]);
}

#[test]
fn signed_readings_are_published_as_read() {
    let mut p = partition("default");
    p.block_cache_usage = -1;
    p.estimate_num_keys = Some(i64::MIN);
    p.pending_compaction_bytes = Some(i64::MAX);
    let updates = complete(&vec![p]);
    assert_eq!(updates[1].op, Op::Overwrite(Value::Signed(-1)));
    assert_eq!(updates[4].op, Op::Overwrite(Value::Signed(i64::MIN)));
    assert_eq!(updates[5].op, Op::Overwrite(Value::Signed(i64::MAX)));
}

#[test]
fn histogram_without_values_is_absent() {
    let value = summary(0.0, 0.0, 0.0, 0.0, 0.0);
    assert_eq!(value.if_recorded(0), None);
    assert_eq!(value.if_recorded(1), Some(value));
    assert_eq!(value.if_recorded(u64::MAX), Some(value));
}
