//! Metric families: the named, labelled metrics that the registry holds.

use crate::histogram::{lemma_hist_types_complete, HistType, ENGINE_HIST_TYPES};
use vstd::prelude::*;
use vstd::string::StringExecFns;

verus! {

/// What every family's full name begins with.
pub const NAMESPACE: &'static str = "tikv_engine";

/// The two kinds of metric that the registry offers.
#[derive(Clone, Copy, Debug, PartialEq, Eq, Hash, Structural)]
pub enum MetricKind {
    /// Holds the value that was set last.
    Gauge,
    /// Holds the sum of all the increments it was given.
    Counter,
}

/// The four ways in which a statistic of the engine is read and exported.
#[derive(Clone, Copy, Debug, PartialEq, Eq, Hash, Structural)]
pub enum ExportKind {
    /// A ticker that is read without side effect and overwrites a gauge.
    CumulativeGauge,
    /// A ticker that is reset by each reading and is added to a counter.
    DeltaCounter,
    /// A histogram, whose summary overwrites five gauges.
    Histogram,
    /// A statistic of a partition, which overwrites a gauge of that partition.
    PartitionProperty,
}

/// A metric family of the registry.
#[derive(Clone, Copy, Debug, PartialEq, Eq, Hash, Structural)]
pub enum Family {
    /// On-disk size of each partition.
    Size,
    /// Block cache usage of each partition.
    BlockCacheSize,
    /// Memory usage of each partition, by category.
    Memory,
    /// Estimated number of keys of each partition.
    EstimateNumKeys,
    /// Bytes of each partition that await compaction.
    PendingCompactionBytes,
    /// Hits and misses of the block cache.
    CacheEfficiency,
    /// Hits and misses of the memtable.
    MemtableEfficiency,
    /// Levels that served the get queries.
    GetServed,
    /// Usefulness of the bloom filter.
    BloomEfficiency,
    /// Bytes and keys read and written.
    Flow,
    /// Time spent stalled.
    StallMicros,
    /// Bytes read and written during compaction.
    CompactionFlow,
    /// Keys dropped during compaction, by reason.
    CompactionKeyDrop,
    /// Calls to seek, next and prev.
    Locate,
    /// Files opened, closed and failed.
    FileStatus,
    /// Bytes of read amplification.
    ReadAmpFlow,
    /// Iterators currently open.
    NoIterator,
    /// Syncs of the write-ahead log.
    WalFileSynced,
    /// The five-field summary of one histogram.
    Histogram(HistType),
}

/// The families that hold tickers and partition statistics. The families of
/// the histograms come on top, one for each histogram.
pub const PLAIN_FAMILIES: [Family; 18] = [
    Family::Size,
    Family::BlockCacheSize,
    Family::Memory,
    Family::EstimateNumKeys,
    Family::PendingCompactionBytes,
    Family::CacheEfficiency,
    Family::MemtableEfficiency,
    Family::GetServed,
    Family::BloomEfficiency,
    Family::Flow,
    Family::StallMicros,
    Family::CompactionFlow,
    Family::CompactionKeyDrop,
    Family::Locate,
    Family::FileStatus,
    Family::ReadAmpFlow,
    Family::NoIterator,
    Family::WalFileSynced,
];

impl Family {
    /// The families of the delta tickers are counters; every other family is
    /// a gauge.
    pub open spec fn spec_kind(self) -> MetricKind {
        match self.spec_export_kind() {
            ExportKind::DeltaCounter => MetricKind::Counter,
            _ => MetricKind::Gauge,
        }
    }

    /// How the statistics that the family holds are read and exported.
    pub open spec fn spec_export_kind(self) -> ExportKind {
        match self {
            Family::Size
            | Family::BlockCacheSize
            | Family::Memory
            | Family::EstimateNumKeys
            | Family::PendingCompactionBytes => ExportKind::PartitionProperty,
            Family::Histogram(_) => ExportKind::Histogram,
            Family::CompactionKeyDrop
            | Family::Locate
            | Family::FileStatus
            | Family::ReadAmpFlow
            | Family::WalFileSynced => ExportKind::DeltaCounter,
            _ => ExportKind::CumulativeGauge,
        }
    }

    /// The family's name without the namespace.
    pub open spec fn spec_name(self) -> Seq<char> {
        match self {
            Family::Size => "size_bytes"@,
            Family::BlockCacheSize => "block_cache_size_bytes"@,
            Family::Memory => "memory_bytes"@,
            Family::EstimateNumKeys => "estimate_num_keys"@,
            Family::PendingCompactionBytes => "pending_compaction_bytes"@,
            Family::CacheEfficiency => "cache_efficiency"@,
            Family::MemtableEfficiency => "memtable_efficiency"@,
            Family::GetServed => "get_served"@,
            Family::BloomEfficiency => "bloom_efficiency"@,
            Family::Flow => "flow_bytes"@,
            Family::StallMicros => "stall_micro_seconds"@,
            Family::CompactionFlow => "compaction_flow_bytes"@,
            Family::CompactionKeyDrop => "compaction_key_drop"@,
            Family::Locate => "locate_total"@,
            Family::FileStatus => "file_status"@,
            Family::ReadAmpFlow => "read_amp_flow_bytes"@,
            Family::NoIterator => "no_iterator"@,
            Family::WalFileSynced => "wal_file_synced"@,
            Family::Histogram(t) => t.spec_family_name(),
        }
    }

    /// The name under which the registry knows the family: the namespace, an
    /// underscore and the family's own name.
    pub open spec fn spec_full_name(self) -> Seq<char> {
        NAMESPACE@ + "_"@ + self.spec_name()
    }

    /// The family's help text.
    pub open spec fn spec_help(self) -> Seq<char> {
        match self {
            Family::Size => "Sizes of each column families"@,
            Family::BlockCacheSize => "Usage of each column families' block cache"@,
            Family::Memory => "Sizes of each column families"@,
            Family::EstimateNumKeys => "Estimate num keys of each column families"@,
            Family::PendingCompactionBytes => "Pending compaction bytes"@,
            Family::CacheEfficiency => "Efficiency of rocksdb's block cache"@,
            Family::MemtableEfficiency => "Hit and miss of memtable"@,
            Family::GetServed => "Get queries served by"@,
            Family::BloomEfficiency => "Efficiency of rocksdb's bloom filter"@,
            Family::Flow => "Bytes and keys of read/written"@,
            Family::StallMicros => "Stall micros"@,
            Family::CompactionFlow => "Bytes of read/written during compaction"@,
            Family::CompactionKeyDrop => "Count the reasons for key drop during compaction"@,
            Family::Locate => "Number of calls to seek/next/prev"@,
            Family::FileStatus => "Number of different status of files"@,
            Family::ReadAmpFlow => "Bytes of read amplification"@,
            Family::NoIterator => "Number of iterators currently open"@,
            Family::WalFileSynced => "Number of times WAL sync is done"@,
            Family::Histogram(t) => t.spec_help(),
        }
    }

    /// The names of the labels that tell the family's series apart, in the
    /// order in which a series gives their values.
    pub open spec fn spec_label_names(self) -> Seq<Seq<char>> {
        match self {
            Family::StallMicros | Family::NoIterator | Family::WalFileSynced => seq![],
            Family::Size
            | Family::BlockCacheSize
            | Family::EstimateNumKeys
            | Family::PendingCompactionBytes => seq!["cf"@],
            Family::Memory => seq!["cf"@, "type"@],
            _ => seq!["type"@],
        }
    }

    /// The families of the delta tickers are counters; every other family is
    /// a gauge.
    #[verifier::when_used_as_spec(spec_kind)]
    pub fn kind(self) -> (kind: MetricKind)
        ensures
            kind == self.spec_kind(),
    {
        match self.export_kind() {
            ExportKind::DeltaCounter => MetricKind::Counter,
            _ => MetricKind::Gauge,
        }
    }

    /// How the statistics that the family holds are read and exported.
    #[verifier::when_used_as_spec(spec_export_kind)]
    pub fn export_kind(self) -> (kind: ExportKind)
        ensures
            kind == self.spec_export_kind(),
    {
        match self {
            Family::Size
            | Family::BlockCacheSize
            | Family::Memory
            | Family::EstimateNumKeys
            | Family::PendingCompactionBytes => ExportKind::PartitionProperty,
            Family::Histogram(_) => ExportKind::Histogram,
            Family::CompactionKeyDrop
            | Family::Locate
            | Family::FileStatus
            | Family::ReadAmpFlow
            | Family::WalFileSynced => ExportKind::DeltaCounter,
            _ => ExportKind::CumulativeGauge,
        }
    }

    /// The family's name without the namespace.
    pub fn name(self) -> (name: &'static str)
        ensures
            name@ == self.spec_name(),
    {
        match self {
            Family::Size => "size_bytes",
            Family::BlockCacheSize => "block_cache_size_bytes",
            Family::Memory => "memory_bytes",
            Family::EstimateNumKeys => "estimate_num_keys",
            Family::PendingCompactionBytes => "pending_compaction_bytes",
            Family::CacheEfficiency => "cache_efficiency",
            Family::MemtableEfficiency => "memtable_efficiency",
            Family::GetServed => "get_served",
            Family::BloomEfficiency => "bloom_efficiency",
            Family::Flow => "flow_bytes",
            Family::StallMicros => "stall_micro_seconds",
            Family::CompactionFlow => "compaction_flow_bytes",
            Family::CompactionKeyDrop => "compaction_key_drop",
            Family::Locate => "locate_total",
            Family::FileStatus => "file_status",
            Family::ReadAmpFlow => "read_amp_flow_bytes",
            Family::NoIterator => "no_iterator",
            Family::WalFileSynced => "wal_file_synced",
            Family::Histogram(t) => t.family_name(),
        }
    }

    /// The name under which the registry knows the family: the namespace, an
    /// underscore and the family's own name.
    pub fn full_name(self) -> (name: String)
        ensures
            name@ == self.spec_full_name(),
    {
        let mut name = String::from_str(NAMESPACE);
        name.append("_");
        name.append(self.name());
        name
    }

    /// The family's help text.
    pub fn help(self) -> (help: &'static str)
        ensures
            help@ == self.spec_help(),
    {
        match self {
            Family::Size => "Sizes of each column families",
            Family::BlockCacheSize => "Usage of each column families' block cache",
            Family::Memory => "Sizes of each column families",
            Family::EstimateNumKeys => "Estimate num keys of each column families",
            Family::PendingCompactionBytes => "Pending compaction bytes",
            Family::CacheEfficiency => "Efficiency of rocksdb's block cache",
            Family::MemtableEfficiency => "Hit and miss of memtable",
            Family::GetServed => "Get queries served by",
            Family::BloomEfficiency => "Efficiency of rocksdb's bloom filter",
            Family::Flow => "Bytes and keys of read/written",
            Family::StallMicros => "Stall micros",
            Family::CompactionFlow => "Bytes of read/written during compaction",
            Family::CompactionKeyDrop => "Count the reasons for key drop during compaction",
            Family::Locate => "Number of calls to seek/next/prev",
            Family::FileStatus => "Number of different status of files",
            Family::ReadAmpFlow => "Bytes of read amplification",
            Family::NoIterator => "Number of iterators currently open",
            Family::WalFileSynced => "Number of times WAL sync is done",
            Family::Histogram(t) => t.help(),
        }
    }

    /// The names of the labels that tell the family's series apart, in the
    /// order in which a series gives their values.
    pub fn label_names(self) -> (names: Vec<&'static str>)
        ensures
            names.deep_view() == self.spec_label_names(),
    {
        let mut names: Vec<&'static str> = Vec::new();
        match self {
            Family::StallMicros | Family::NoIterator | Family::WalFileSynced => {},
            Family::Size
            | Family::BlockCacheSize
            | Family::EstimateNumKeys
            | Family::PendingCompactionBytes => {
                names.push("cf");
            },
            Family::Memory => {
                names.push("cf");
                names.push("type");
            },
            _ => {
                names.push("type");
            },
        }
        assert(names.deep_view() =~= self.spec_label_names());
        names
    }
}

/// Every family of partition statistics tells the partitions apart by the
/// label `cf`, which comes first; every other family has a label `type` or
/// none at all.
pub proof fn lemma_partition_families_are_labelled_by_cf(family: Family)
    ensures
        family.spec_export_kind() == ExportKind::PartitionProperty
            ==> family.spec_label_names().len() >= 1 && family.spec_label_names()[0] == "cf"@,
        family.spec_export_kind() != ExportKind::PartitionProperty
            ==> family.spec_label_names() == seq!["type"@] || family.spec_label_names()
            == Seq::<Seq<char>>::empty(),
{
    assert(seq!["cf"@][0] == "cf"@);
    assert(seq!["cf"@, "type"@][0] == "cf"@);
    assert(Seq::<Seq<char>>::empty() =~= seq![]);
}

/// What tells two names apart: the length and the first two characters.
spec fn name_marks(name: Seq<char>) -> (nat, char, char) {
    (name.len(), name[0], name[1])
}

/// No two families share a name, with or without the namespace.
pub proof fn lemma_family_names_injective(a: Family, b: Family)
    requires
        a.spec_name() == b.spec_name() || a.spec_full_name() == b.spec_full_name(),
    ensures
        a == b,
{
    reveal_strlit("size_bytes");
    reveal_strlit("block_cache_size_bytes");
    reveal_strlit("memory_bytes");
    reveal_strlit("estimate_num_keys");
    reveal_strlit("pending_compaction_bytes");
    reveal_strlit("cache_efficiency");
    reveal_strlit("memtable_efficiency");
    reveal_strlit("get_served");
    reveal_strlit("bloom_efficiency");
    reveal_strlit("flow_bytes");
    reveal_strlit("stall_micro_seconds");
    reveal_strlit("compaction_flow_bytes");
    reveal_strlit("compaction_key_drop");
    reveal_strlit("locate_total");
    reveal_strlit("file_status");
    reveal_strlit("read_amp_flow_bytes");
    reveal_strlit("no_iterator");
    reveal_strlit("wal_file_synced");
    reveal_strlit("get_micro_seconds");
    reveal_strlit("write_micro_seconds");
    reveal_strlit("compaction_time");
    reveal_strlit("table_sync_micro_seconds");
    reveal_strlit("compaction_outfile_sync_micro_seconds");
    reveal_strlit("wal_file_sync_micro_seconds");
    reveal_strlit("manifest_file_sync_micro_seconds");
    reveal_strlit("stall_l0_slowdown_count");
    reveal_strlit("stall_memtable_compaction_count");
    reveal_strlit("stall_l0_num_files_count");
    reveal_strlit("hard_rate_limit_delay_count");
    reveal_strlit("soft_rate_limit_delay_count");
    reveal_strlit("num_files_in_single_compaction");
    reveal_strlit("seek_micro_seconds");
    reveal_strlit("write_stall");
    reveal_strlit("sst_read_micros");
    reveal_strlit("num_subcompaction_scheduled");
    reveal_strlit("bytes_per_read");
    reveal_strlit("bytes_per_write");
    reveal_strlit("bytes_compressed");
    reveal_strlit("bytes_decompressed");
    reveal_strlit("compression_time_nanos");
    reveal_strlit("decompression_time_nanos");
    let prefix = NAMESPACE@ + "_"@;
    if a.spec_full_name() == b.spec_full_name() {
        let full_a = prefix + a.spec_name();
        let full_b = prefix + b.spec_name();
        assert(full_a.len() == full_b.len());
        assert(full_a[prefix.len() as int] == a.spec_name()[0]);
        assert(full_b[prefix.len() as int] == b.spec_name()[0]);
        assert(full_a[prefix.len() as int + 1] == a.spec_name()[1]);
        assert(full_b[prefix.len() as int + 1] == b.spec_name()[1]);
    }
    assert(name_marks(a.spec_name()) == name_marks(b.spec_name()));
}

/// Every metric family, each once: the plain ones, then one for each
/// histogram.
pub open spec fn spec_families() -> Seq<Family> {
    PLAIN_FAMILIES@ + ENGINE_HIST_TYPES@.map_values(|t: HistType| Family::Histogram(t))
}

/// Every metric family, each once: the plain ones, then one for each
/// histogram.
pub fn families() -> (families: Vec<Family>)
    ensures
        families@ == spec_families(),
{
    let mut families: Vec<Family> = Vec::new();
    let mut i: usize = 0;
    while i < PLAIN_FAMILIES.len()
        invariant
            i <= PLAIN_FAMILIES@.len(),
            families@ == PLAIN_FAMILIES@.take(i as int),
        decreases PLAIN_FAMILIES@.len() - i,
    {
        families.push(PLAIN_FAMILIES[i]);
        i += 1;
        assert(families@ =~= PLAIN_FAMILIES@.take(i as int));
    }
    assert(PLAIN_FAMILIES@.take(i as int) =~= PLAIN_FAMILIES@);
    let mut i: usize = 0;
    while i < ENGINE_HIST_TYPES.len()
        invariant
            i <= ENGINE_HIST_TYPES@.len(),
            families@ == PLAIN_FAMILIES@ + ENGINE_HIST_TYPES@.take(i as int).map_values(
                |t: HistType| Family::Histogram(t),
            ),
        decreases ENGINE_HIST_TYPES@.len() - i,
    {
        families.push(Family::Histogram(ENGINE_HIST_TYPES[i]));
        i += 1;
        assert(families@ =~= PLAIN_FAMILIES@ + ENGINE_HIST_TYPES@.take(i as int).map_values(
            |t: HistType| Family::Histogram(t),
        ));
    }
    assert(ENGINE_HIST_TYPES@.take(i as int) =~= ENGINE_HIST_TYPES@);
    families
}

/// Where a plain family stands in the list of plain families.
spec fn position(family: Family) -> int {
    match family {
        Family::Size => 0,
        Family::BlockCacheSize => 1,
        Family::Memory => 2,
        Family::EstimateNumKeys => 3,
        Family::PendingCompactionBytes => 4,
        Family::CacheEfficiency => 5,
        Family::MemtableEfficiency => 6,
        Family::GetServed => 7,
        Family::BloomEfficiency => 8,
        Family::Flow => 9,
        Family::StallMicros => 10,
        Family::CompactionFlow => 11,
        Family::CompactionKeyDrop => 12,
        Family::Locate => 13,
        Family::FileStatus => 14,
        Family::ReadAmpFlow => 15,
        Family::NoIterator => 16,
        Family::WalFileSynced => 17,
        Family::Histogram(_) => -1,
    }
}

/// The list of families names every family, and none twice.
pub proof fn lemma_families_complete(family: Family)
    ensures
        spec_families().contains(family),
        spec_families().no_duplicates(),
{
    let histograms = ENGINE_HIST_TYPES@.map_values(|t: HistType| Family::Histogram(t));
    let all = spec_families();
    match family {
        Family::Histogram(t) => {
            lemma_hist_types_complete(t);
            let i = choose|i: int| 0 <= i < ENGINE_HIST_TYPES@.len() && ENGINE_HIST_TYPES@[i] == t;
            assert(all[PLAIN_FAMILIES@.len() + i] == histograms[i]);
        },
        _ => {
            assert(all[position(family)] == family);
        },
    }
    lemma_hist_types_complete(HistType::GetMicros);
    assert forall|i: int, j: int| 0 <= i < all.len() && 0 <= j < all.len() && i != j implies all[i]
        != all[j] by {
        if i < PLAIN_FAMILIES@.len() {
            assert(position(all[i]) == i);
        } else {
            assert(all[i] == Family::Histogram(ENGINE_HIST_TYPES@[i - PLAIN_FAMILIES@.len()]));
        }
        if j < PLAIN_FAMILIES@.len() {
            assert(position(all[j]) == j);
        } else {
            assert(all[j] == Family::Histogram(ENGINE_HIST_TYPES@[j - PLAIN_FAMILIES@.len()]));
        }
    }
}

} // verus!
