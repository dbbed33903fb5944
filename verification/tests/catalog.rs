use engine_metrics::family::{families, ExportKind, Family, MetricKind, NAMESPACE, PLAIN_FAMILIES};
use engine_metrics::histogram::{HistField, HistType, ENGINE_HIST_TYPES, HIST_FIELDS};
use engine_metrics::partition::{
    PartitionStat, PARTITION_STATS, ROCKSDB_CUR_SIZE_ALL_MEM_TABLES, ROCKSDB_ESTIMATE_NUM_KEYS,
    ROCKSDB_PENDING_COMPACTION_BYTES, ROCKSDB_TABLE_READERS_MEM, ROCKSDB_TOTAL_SST_FILES_SIZE,
};
use engine_metrics::ticker::{
    delta_since, DeltaTracker, TickerType, ENGINE_TICKER_TYPES_COUNTER,
    ENGINE_TICKER_TYPES_GAUGE,
};
use std::collections::HashSet;

fn is_lower_snake_case(s: &str) -> bool {
    !s.is_empty()
        && s.chars().all(|c| c.is_ascii_lowercase() || c.is_ascii_digit() || c == '_')
        && !s.starts_with('_')
        && !s.ends_with('_')
}

#[test]
fn ticker_lists_have_the_expected_sizes() {
    assert_eq!(ENGINE_TICKER_TYPES_GAUGE.len(), 29);
    assert_eq!(ENGINE_TICKER_TYPES_COUNTER.len(), 16);
    assert_eq!(ENGINE_HIST_TYPES.len(), 23);
}

#[test]
fn ticker_lists_split_the_tickers_by_kind() {
    for t in ENGINE_TICKER_TYPES_GAUGE.iter() {
        assert_eq!(t.kind(), MetricKind::Gauge, "{:?}", t);
        assert_eq!(t.family().export_kind(), ExportKind::CumulativeGauge, "{:?}", t);
    }
    for t in ENGINE_TICKER_TYPES_COUNTER.iter() {
        assert_eq!(t.kind(), MetricKind::Counter, "{:?}", t);
        assert_eq!(t.family().export_kind(), ExportKind::DeltaCounter, "{:?}", t);
    }
    let mut seen = HashSet::new();
    for t in ENGINE_TICKER_TYPES_GAUGE.iter().chain(ENGINE_TICKER_TYPES_COUNTER.iter()) {
        assert!(seen.insert(*t), "{:?} is listed twice", t);
    }
    assert_eq!(seen.len(), 45);
}

#[test]
fn ticker_lists_keep_their_order() {
    assert_eq!(ENGINE_TICKER_TYPES_GAUGE[0], TickerType::BlockCacheMiss);
    assert_eq!(ENGINE_TICKER_TYPES_GAUGE[16], TickerType::NumberKeysWritten);
    assert_eq!(ENGINE_TICKER_TYPES_GAUGE[28], TickerType::FlushWriteBytes);
    assert_eq!(ENGINE_TICKER_TYPES_COUNTER[0], TickerType::CompactionKeyDropNewerEntry);
    assert_eq!(ENGINE_TICKER_TYPES_COUNTER[4], TickerType::NumberDbSeek);
    assert_eq!(ENGINE_TICKER_TYPES_COUNTER[15], TickerType::ReadAmpTotalReadBytes);
    assert_eq!(ENGINE_HIST_TYPES[0], HistType::GetMicros);
    assert_eq!(ENGINE_HIST_TYPES[22], HistType::DecompressionTimesNanos);
}

#[test]
fn ticker_labels_are_the_published_ones() {
    assert_eq!(TickerType::BlockCacheMiss.label(), Some("block_cache_miss"));
    assert_eq!(TickerType::BlockCacheByteRead.label(), Some("block_cache_byte_read"));
    assert_eq!(TickerType::BloomFilterUseful.label(), Some("bloom_useful"));
    assert_eq!(TickerType::GetHitL2AndUp.label(), Some("get_hit_l2_and_up"));
    assert_eq!(TickerType::NumberKeysWritten.label(), Some("keys_written"));
    assert_eq!(TickerType::NumberDbSeek.label(), Some("number_db_seek"));
    assert_eq!(
        TickerType::CompactionRangeDelDropObsolete.label(),
        Some("range_del_drop_obsolete")
    );
    assert_eq!(TickerType::CompactReadBytes.label(), Some("bytes_read"));
    assert_eq!(TickerType::BytesRead.label(), Some("bytes_read"));
    assert_eq!(
        TickerType::ReadAmpEstimateUsefulBytes.label(),
        Some("read_amp_estimate_useful_bytes")
    );
    assert_eq!(TickerType::StallMicros.label(), None);
    assert_eq!(TickerType::NoIterators.label(), None);
    assert_eq!(TickerType::WalFileSynced.label(), None);
}

#[test]
fn ticker_families_are_the_published_ones() {
    assert_eq!(TickerType::BlockCacheMiss.family(), Family::CacheEfficiency);
    assert_eq!(TickerType::BlockCacheByteWrite.family(), Family::Flow);
    assert_eq!(TickerType::NumberKeysWritten.family(), Family::Flow);
    assert_eq!(TickerType::BloomFilterPrefixChecked.family(), Family::BloomEfficiency);
    assert_eq!(TickerType::MemtableMiss.family(), Family::MemtableEfficiency);
    assert_eq!(TickerType::GetHitL0.family(), Family::GetServed);
    assert_eq!(TickerType::CompactionKeyDropObsolete.family(), Family::CompactionKeyDrop);
    assert_eq!(TickerType::NumberDbSeek.family(), Family::Locate);
    assert_eq!(TickerType::NoFileErrors.family(), Family::FileStatus);
    assert_eq!(TickerType::StallMicros.family(), Family::StallMicros);
    assert_eq!(TickerType::NoIterators.family(), Family::NoIterator);
    assert_eq!(TickerType::WalFileSynced.family(), Family::WalFileSynced);
    assert_eq!(TickerType::CompactWriteBytes.family(), Family::CompactionFlow);
    assert_eq!(TickerType::ReadAmpTotalReadBytes.family(), Family::ReadAmpFlow);
}

#[test]
fn ticker_labels_are_lower_snake_case() {
    for t in ENGINE_TICKER_TYPES_GAUGE.iter().chain(ENGINE_TICKER_TYPES_COUNTER.iter()) {
        if let Some(label) = t.label() {
            assert!(is_lower_snake_case(label), "{}", label);
        }
    }
}

#[test]
fn no_two_tickers_share_a_series() {
    let mut seen = HashSet::new();
    for t in ENGINE_TICKER_TYPES_GAUGE.iter().chain(ENGINE_TICKER_TYPES_COUNTER.iter()) {
        assert!(seen.insert(t.series()), "{:?} shares its series", t);
    }
}

#[test]
fn ticker_series_fit_their_family() {
    for t in ENGINE_TICKER_TYPES_GAUGE.iter().chain(ENGINE_TICKER_TYPES_COUNTER.iter()) {
        let series = t.series();
        assert_eq!(series.family, t.family());
        assert_eq!(series.labels.len(), t.family().label_names().len(), "{:?}", t);
    }
}

#[test]
fn histogram_labels_join_prefix_and_suffix() {
    assert_eq!(HistType::GetMicros.label(HistField::Median), "get_median");
    assert_eq!(HistType::GetMicros.label(HistField::Percentile95), "get_percentile95");
    assert_eq!(HistType::GetMicros.label(HistField::Percentile99), "get_percentile99");
    assert_eq!(HistType::GetMicros.label(HistField::Average), "get_average");
    assert_eq!(
        HistType::GetMicros.label(HistField::StandardDeviation),
        "get_standard_deviation"
    );
    assert_eq!(
        HistType::HardRateLimitDelayCount.label(HistField::Median),
        "hard_rate_limit_delay_median"
    );
    assert_eq!(
        HistType::SSTReadMicros.label(HistField::Percentile95),
        "sst_read_micros_percentile95"
    );
    assert_eq!(
        HistType::NumSubcompactionsScheduled.label(HistField::Average),
        "num_subcompaction_scheduled_average"
    );
    assert_eq!(
        HistType::CompressionTimesNanos.label(HistField::StandardDeviation),
        "compression_time_nanos_standard_deviation"
    );
}

#[test]
fn histogram_prefixes_are_the_published_ones() {
    assert_eq!(HistType::GetMicros.label_prefix(), "get");
    assert_eq!(HistType::WriteMicros.label_prefix(), "write");
    assert_eq!(HistType::CompactionTime.label_prefix(), "compaction_time");
    assert_eq!(HistType::TableSyncMicros.label_prefix(), "table_sync");
    assert_eq!(HistType::WalFileSyncMicros.label_prefix(), "wal_file_sync");
    assert_eq!(HistType::StallL0NumFilesCount.label_prefix(), "stall_l0_num_files_count");
    assert_eq!(HistType::SeekMicros.label_prefix(), "seek");
    assert_eq!(HistType::BytesDecompressed.label_prefix(), "bytes_decompressed");
    assert_eq!(HistType::DecompressionTimesNanos.label_prefix(), "decompression_time_nanos");
}

#[test]
fn histogram_fields_come_in_publishing_order() {
    assert_eq!(
        HIST_FIELDS,
        [
            HistField::Median,
            HistField::Percentile95,
            HistField::Percentile99,
            HistField::Average,
            HistField::StandardDeviation,
        ]
    );
    assert_eq!(HistField::Median.suffix(), "_median");
    assert_eq!(HistField::Percentile95.suffix(), "_percentile95");
    assert_eq!(HistField::Percentile99.suffix(), "_percentile99");
    assert_eq!(HistField::Average.suffix(), "_average");
    assert_eq!(HistField::StandardDeviation.suffix(), "_standard_deviation");
}

#[test]
fn no_two_histogram_fields_share_a_series() {
    let mut seen = HashSet::new();
    for t in ENGINE_HIST_TYPES.iter() {
        for f in HIST_FIELDS.iter() {
            let series = t.series(*f);
            assert_eq!(series.family, Family::Histogram(*t));
            assert!(is_lower_snake_case(&series.labels[0]), "{}", series.labels[0]);
            assert!(seen.insert(series), "{:?} {:?} shares its series", t, f);
        }
    }
    assert_eq!(seen.len(), 115);
}

#[test]
fn family_names_are_the_published_ones() {
    assert_eq!(NAMESPACE, "tikv_engine");
    assert_eq!(Family::Flow.name(), "flow_bytes");
    assert_eq!(Family::Flow.full_name(), "tikv_engine_flow_bytes");
    assert_eq!(Family::Locate.name(), "locate_total");
    assert_eq!(Family::Locate.full_name(), "tikv_engine_locate_total");
    assert_eq!(Family::Size.full_name(), "tikv_engine_size_bytes");
    assert_eq!(Family::BlockCacheSize.full_name(), "tikv_engine_block_cache_size_bytes");
    assert_eq!(Family::Memory.full_name(), "tikv_engine_memory_bytes");
    assert_eq!(Family::EstimateNumKeys.full_name(), "tikv_engine_estimate_num_keys");
    assert_eq!(
        Family::PendingCompactionBytes.full_name(),
        "tikv_engine_pending_compaction_bytes"
    );
    assert_eq!(Family::CacheEfficiency.full_name(), "tikv_engine_cache_efficiency");
    assert_eq!(Family::GetServed.full_name(), "tikv_engine_get_served");
    assert_eq!(Family::StallMicros.full_name(), "tikv_engine_stall_micro_seconds");
    assert_eq!(Family::NoIterator.full_name(), "tikv_engine_no_iterator");
    assert_eq!(Family::WalFileSynced.full_name(), "tikv_engine_wal_file_synced");
    assert_eq!(Family::CompactionKeyDrop.full_name(), "tikv_engine_compaction_key_drop");
    assert_eq!(
        Family::Histogram(HistType::GetMicros).name(),
        "get_micro_seconds"
    );
    assert_eq!(
        Family::Histogram(HistType::GetMicros).full_name(),
        "tikv_engine_get_micro_seconds"
    );
    assert_eq!(
        Family::Histogram(HistType::SSTReadMicros).full_name(),
        "tikv_engine_sst_read_micros"
    );
    assert_eq!(
        Family::Histogram(HistType::StallL0NumFilesCount).full_name(),
        "tikv_engine_stall_l0_num_files_count"
    );
}

#[test]
fn family_help_is_the_published_one() {
    assert_eq!(Family::Flow.help(), "Bytes and keys of read/written");
    assert_eq!(Family::Locate.help(), "Number of calls to seek/next/prev");
    assert_eq!(Family::Histogram(HistType::GetMicros).help(), "Histogram of get micros");
    assert_eq!(
        Family::Histogram(HistType::WalFileSyncMicros).help(),
        "Histogram of WAL file sync micros"
    );
    assert_eq!(HistType::SeekMicros.family_name(), "seek_micro_seconds");
}

#[test]
fn family_kinds_and_labels() {
    assert_eq!(Family::Flow.kind(), MetricKind::Gauge);
    assert_eq!(Family::Locate.kind(), MetricKind::Counter);
    assert_eq!(Family::CompactionKeyDrop.kind(), MetricKind::Counter);
    assert_eq!(Family::FileStatus.kind(), MetricKind::Counter);
    assert_eq!(Family::ReadAmpFlow.kind(), MetricKind::Counter);
    assert_eq!(Family::WalFileSynced.kind(), MetricKind::Counter);
    assert_eq!(Family::Size.kind(), MetricKind::Gauge);
    assert_eq!(Family::Histogram(HistType::WriteStall).kind(), MetricKind::Gauge);
    assert_eq!(Family::Size.export_kind(), ExportKind::PartitionProperty);
    assert_eq!(Family::Memory.export_kind(), ExportKind::PartitionProperty);
    assert_eq!(Family::Histogram(HistType::WriteStall).export_kind(), ExportKind::Histogram);
    assert_eq!(Family::Flow.export_kind(), ExportKind::CumulativeGauge);
    assert_eq!(Family::Locate.export_kind(), ExportKind::DeltaCounter);

    assert_eq!(Family::Flow.label_names(), vec!["type"]);
    assert_eq!(Family::Size.label_names(), vec!["cf"]);
    assert_eq!(Family::BlockCacheSize.label_names(), vec!["cf"]);
    assert_eq!(Family::Memory.label_names(), vec!["cf", "type"]);
    assert_eq!(Family::EstimateNumKeys.label_names(), vec!["cf"]);
    assert_eq!(Family::PendingCompactionBytes.label_names(), vec!["cf"]);
    assert_eq!(Family::Histogram(HistType::GetMicros).label_names(), vec!["type"]);
    assert!(Family::StallMicros.label_names().is_empty());
    assert!(Family::NoIterator.label_names().is_empty());
    assert!(Family::WalFileSynced.label_names().is_empty());
}

#[test]
fn partition_families_are_labelled_by_cf() {
    for family in families() {
        let names = family.label_names();
        if family.export_kind() == ExportKind::PartitionProperty {
            assert_eq!(names[0], "cf", "{:?}", family);
        } else {
            assert!(names.is_empty() || names == vec!["type"], "{:?}", family);
        }
    }
    for s in PARTITION_STATS.iter() {
        assert_eq!(s.family().export_kind(), ExportKind::PartitionProperty);
        assert_eq!(s.series("raft").labels[0], "raft");
    }
}

#[test]
fn families_lists_each_family_once() {
    let all = families();
    assert_eq!(all.len(), 41);
    assert_eq!(&all[..18], &PLAIN_FAMILIES[..]);
    let mut names = HashSet::new();
    let mut seen = HashSet::new();
    for f in all.iter() {
        assert!(seen.insert(*f), "{:?} is listed twice", f);
        assert!(names.insert(f.full_name()), "{:?} shares its name", f);
        assert!(is_lower_snake_case(f.name()), "{}", f.name());
    }
    for t in ENGINE_HIST_TYPES.iter() {
        assert!(seen.contains(&Family::Histogram(*t)));
    }
    for t in ENGINE_TICKER_TYPES_GAUGE.iter().chain(ENGINE_TICKER_TYPES_COUNTER.iter()) {
        assert!(seen.contains(&t.family()));
    }
    for s in PARTITION_STATS.iter() {
        assert!(seen.contains(&s.family()));
    }
}

#[test]
fn partition_statistics() {
    assert_eq!(ROCKSDB_TOTAL_SST_FILES_SIZE, "rocksdb.total-sst-files-size");
    assert_eq!(ROCKSDB_TABLE_READERS_MEM, "rocksdb.estimate-table-readers-mem");
    assert_eq!(ROCKSDB_CUR_SIZE_ALL_MEM_TABLES, "rocksdb.cur-size-all-mem-tables");
    assert_eq!(ROCKSDB_ESTIMATE_NUM_KEYS, "rocksdb.estimate-num-keys");
    assert_eq!(
        ROCKSDB_PENDING_COMPACTION_BYTES,
        "rocksdb.estimate-pending-compaction-bytes"
    );
    assert_eq!(
        PartitionStat::TotalSstFilesSize.property_name(),
        Some("rocksdb.total-sst-files-size")
    );
    assert_eq!(PartitionStat::BlockCacheUsage.property_name(), None);
    assert_eq!(
        PartitionStat::PendingCompactionBytes.property_name(),
        Some("rocksdb.estimate-pending-compaction-bytes")
    );
    assert!(!PartitionStat::TotalSstFilesSize.optional());
    assert!(!PartitionStat::BlockCacheUsage.optional());
    assert!(PartitionStat::TableReadersMem.optional());
    assert!(PartitionStat::CurSizeAllMemTables.optional());
    assert!(PartitionStat::EstimateNumKeys.optional());
    assert!(PartitionStat::PendingCompactionBytes.optional());
    assert_eq!(PartitionStat::TableReadersMem.type_label(), Some("readers-mem"));
    assert_eq!(PartitionStat::CurSizeAllMemTables.type_label(), Some("mem-tables"));
    assert_eq!(PartitionStat::EstimateNumKeys.type_label(), None);
    assert_eq!(PartitionStat::TotalSstFilesSize.family(), Family::Size);
    assert_eq!(PartitionStat::BlockCacheUsage.family(), Family::BlockCacheSize);
    assert_eq!(PartitionStat::TableReadersMem.family(), Family::Memory);
    assert_eq!(PartitionStat::CurSizeAllMemTables.family(), Family::Memory);
    assert_eq!(PartitionStat::EstimateNumKeys.family(), Family::EstimateNumKeys);
    assert_eq!(
        PartitionStat::PendingCompactionBytes.family(),
        Family::PendingCompactionBytes
    );
}

#[test]
fn partition_series_name_the_partition_first() {
    let size = PartitionStat::TotalSstFilesSize.series("raft");
    assert_eq!(size.family, Family::Size);
    assert_eq!(size.labels, vec!["raft".to_string()]);
    let readers = PartitionStat::TableReadersMem.series("lock");
    assert_eq!(readers.family, Family::Memory);
    assert_eq!(readers.labels, vec!["lock".to_string(), "readers-mem".to_string()]);
    let tables = PartitionStat::CurSizeAllMemTables.series("lock");
    assert_eq!(tables.labels, vec!["lock".to_string(), "mem-tables".to_string()]);
    let mut seen = HashSet::new();
    for cf in ["default", "lock", "write", "raft"] {
        for s in PARTITION_STATS.iter() {
            let series = s.series(cf);
            assert_eq!(series.labels.len(), s.family().label_names().len());
            assert!(seen.insert(series));
        }
    }
    assert_eq!(seen.len(), 24);
}

#[test]
fn delta_between_running_totals() {
    assert_eq!(delta_since(0, 0), 0);
    assert_eq!(delta_since(5, 8), 3);
    assert_eq!(delta_since(0, u64::MAX), u64::MAX);
    assert_eq!(delta_since(u64::MAX, 0), 1);
    assert_eq!(delta_since(u64::MAX - 1, 3), 5);
    assert_eq!(delta_since(8, 5), u64::MAX - 2);
    assert_eq!(delta_since(8, 5), 5u64.wrapping_sub(8));
    assert!(delta_since(1000, 999) > i64::MAX as u64);
}

#[test]
fn tracker_starts_every_ticker_at_zero() {
    let tracker = DeltaTracker::new();
    for t in ENGINE_TICKER_TYPES_GAUGE.iter().chain(ENGINE_TICKER_TYPES_COUNTER.iter()) {
        assert_eq!(tracker.previous(*t), 0, "{:?}", t);
    }
}

#[test]
fn tracker_hands_out_the_growth_of_each_ticker() {
    let mut tracker = DeltaTracker::new();
    assert_eq!(tracker.observe(TickerType::NumberDbSeek, 5), 5);
    assert_eq!(tracker.previous(TickerType::NumberDbSeek), 5);
    assert_eq!(tracker.observe(TickerType::NumberDbNext, 100), 100);
    assert_eq!(tracker.observe(TickerType::NumberDbSeek, 8), 3);
    assert_eq!(tracker.observe(TickerType::NumberDbSeek, 8), 0);
    assert_eq!(tracker.observe(TickerType::NumberDbNext, 101), 1);
    assert_eq!(tracker.previous(TickerType::NumberDbSeek), 8);
    assert_eq!(tracker.previous(TickerType::NumberDbNext), 101);
    assert_eq!(tracker.previous(TickerType::NumberDbPrev), 0);
}

#[test]
fn tracker_keeps_the_tickers_apart() {
    let mut tracker = DeltaTracker::new();
    let all: Vec<TickerType> = ENGINE_TICKER_TYPES_GAUGE
        .iter()
        .chain(ENGINE_TICKER_TYPES_COUNTER.iter())
        .cloned()
        .collect();
    for (i, t) in all.iter().enumerate() {
        assert_eq!(tracker.observe(*t, 1000 + i as u64), 1000 + i as u64);
    }
    for (i, t) in all.iter().enumerate() {
        assert_eq!(tracker.previous(*t), 1000 + i as u64, "{:?}", t);
    }
    for (i, t) in all.iter().enumerate() {
        assert_eq!(tracker.observe(*t, 1000 + 3 * i as u64), 2 * i as u64, "{:?}", t);
    }
}

#[test]
fn tracker_deltas_add_up_to_the_growth() {
    let mut tracker = DeltaTracker::new();
    let totals = [4u64, 4, 10, 11, 1 << 40, (1 << 40) + 7];
    let mut sum = 0;
    for total in totals {
        sum += tracker.observe(TickerType::WalFileSynced, total);
    }
    assert_eq!(sum, (1 << 40) + 7);
}

#[test]
fn tracker_shows_a_total_that_went_back_as_negative() {
    let mut tracker = DeltaTracker::new();
    assert_eq!(tracker.observe(TickerType::NoFileOpens, 1000), 1000);
    let delta = tracker.observe(TickerType::NoFileOpens, 990);
    assert_eq!(delta, (-10i64) as u64);
    assert!(delta > i64::MAX as u64);
    assert_eq!(tracker.observe(TickerType::NoFileOpens, 995), 5);
}
