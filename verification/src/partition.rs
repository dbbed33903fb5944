//! Partitions: the column families of the storage engine, and the sizes and
//! usages that the engine reports of each.

use crate::family::Family;
use crate::update::{opt_str_view, Series, SeriesView};
use vstd::prelude::*;

verus! {

/// The engine's name for the on-disk size of a partition.
pub const ROCKSDB_TOTAL_SST_FILES_SIZE: &'static str = "rocksdb.total-sst-files-size";

/// The engine's name for the memory that the table readers of a partition
/// hold: its index and filter blocks.
pub const ROCKSDB_TABLE_READERS_MEM: &'static str = "rocksdb.estimate-table-readers-mem";

/// The engine's name for the memory that the memtables of a partition hold.
pub const ROCKSDB_CUR_SIZE_ALL_MEM_TABLES: &'static str = "rocksdb.cur-size-all-mem-tables";

/// The engine's name for the estimated number of keys of a partition.
pub const ROCKSDB_ESTIMATE_NUM_KEYS: &'static str = "rocksdb.estimate-num-keys";

/// The engine's name for the bytes of a partition that await compaction.
pub const ROCKSDB_PENDING_COMPACTION_BYTES: &'static str =
    "rocksdb.estimate-pending-compaction-bytes";

/// A statistic that the engine keeps for each partition.
#[derive(Clone, Copy, Debug, PartialEq, Eq, Hash, Structural)]
pub enum PartitionStat {
    /// On-disk size. Every supported engine reports it.
    TotalSstFilesSize,
    /// Block cache usage. It is queried directly and always defined.
    BlockCacheUsage,
    /// Memory of the table readers.
    TableReadersMem,
    /// Memory of the memtables.
    CurSizeAllMemTables,
    /// Estimated number of keys.
    EstimateNumKeys,
    /// Bytes that await compaction.
    PendingCompactionBytes,
}

/// The statistics of a partition, in the order in which they are published.
pub const PARTITION_STATS: [PartitionStat; 6] = [
    PartitionStat::TotalSstFilesSize,
    PartitionStat::BlockCacheUsage,
    PartitionStat::TableReadersMem,
    PartitionStat::CurSizeAllMemTables,
    PartitionStat::EstimateNumKeys,
    PartitionStat::PendingCompactionBytes,
];

impl PartitionStat {
    /// The engine may leave the statistic out, and it is then not published.
    pub open spec fn spec_optional(self) -> bool {
        match self {
            PartitionStat::TotalSstFilesSize | PartitionStat::BlockCacheUsage => false,
            _ => true,
        }
    }

    /// The name of the engine property that holds the statistic, or `None`
    /// where the engine is asked by a query of its own.
    pub open spec fn spec_property_name(self) -> Option<Seq<char>> {
        match self {
            PartitionStat::TotalSstFilesSize => Some(ROCKSDB_TOTAL_SST_FILES_SIZE@),
            PartitionStat::BlockCacheUsage => None,
            PartitionStat::TableReadersMem => Some(ROCKSDB_TABLE_READERS_MEM@),
            PartitionStat::CurSizeAllMemTables => Some(ROCKSDB_CUR_SIZE_ALL_MEM_TABLES@),
            PartitionStat::EstimateNumKeys => Some(ROCKSDB_ESTIMATE_NUM_KEYS@),
            PartitionStat::PendingCompactionBytes => Some(ROCKSDB_PENDING_COMPACTION_BYTES@),
        }
    }

    /// The metric family that the statistic is published under.
    pub open spec fn spec_family(self) -> Family {
        match self {
            PartitionStat::TotalSstFilesSize => Family::Size,
            PartitionStat::BlockCacheUsage => Family::BlockCacheSize,
            PartitionStat::TableReadersMem | PartitionStat::CurSizeAllMemTables => Family::Memory,
            PartitionStat::EstimateNumKeys => Family::EstimateNumKeys,
            PartitionStat::PendingCompactionBytes => Family::PendingCompactionBytes,
        }
    }

    /// The value of the `type` label that tells the statistic apart within the
    /// memory family; `None` for the statistics that have a family of their
    /// own.
    pub open spec fn spec_type_label(self) -> Option<Seq<char>> {
        match self {
            PartitionStat::TableReadersMem => Some("readers-mem"@),
            PartitionStat::CurSizeAllMemTables => Some("mem-tables"@),
            _ => None,
        }
    }

    /// The series that the statistic of the partition `cf` is published to.
    pub open spec fn spec_series(self, cf: Seq<char>) -> SeriesView {
        SeriesView {
            family: self.spec_family(),
            labels: match self.spec_type_label() {
                Some(label) => seq![cf, label],
                None => seq![cf],
            },
        }
    }

    /// The engine may leave the statistic out, and it is then not published.
    #[verifier::when_used_as_spec(spec_optional)]
    pub fn optional(self) -> (optional: bool)
        ensures
            optional == self.spec_optional(),
    {
        match self {
            PartitionStat::TotalSstFilesSize | PartitionStat::BlockCacheUsage => false,
            _ => true,
        }
    }

    /// The name of the engine property that holds the statistic, or `None`
    /// where the engine is asked by a query of its own.
    pub fn property_name(self) -> (name: Option<&'static str>)
        ensures
            opt_str_view(name) == self.spec_property_name(),
    {
        match self {
            PartitionStat::TotalSstFilesSize => Some(ROCKSDB_TOTAL_SST_FILES_SIZE),
            PartitionStat::BlockCacheUsage => None,
            PartitionStat::TableReadersMem => Some(ROCKSDB_TABLE_READERS_MEM),
            PartitionStat::CurSizeAllMemTables => Some(ROCKSDB_CUR_SIZE_ALL_MEM_TABLES),
            PartitionStat::EstimateNumKeys => Some(ROCKSDB_ESTIMATE_NUM_KEYS),
            PartitionStat::PendingCompactionBytes => Some(ROCKSDB_PENDING_COMPACTION_BYTES),
        }
    }

    /// The metric family that the statistic is published under.
    #[verifier::when_used_as_spec(spec_family)]
    pub fn family(self) -> (family: Family)
        ensures
            family == self.spec_family(),
    {
        match self {
            PartitionStat::TotalSstFilesSize => Family::Size,
            PartitionStat::BlockCacheUsage => Family::BlockCacheSize,
            PartitionStat::TableReadersMem | PartitionStat::CurSizeAllMemTables => Family::Memory,
            PartitionStat::EstimateNumKeys => Family::EstimateNumKeys,
            PartitionStat::PendingCompactionBytes => Family::PendingCompactionBytes,
        }
    }

    /// The value of the `type` label that tells the statistic apart within the
    /// memory family; `None` for the statistics that have a family of their
    /// own.
    pub fn type_label(self) -> (label: Option<&'static str>)
        ensures
            opt_str_view(label) == self.spec_type_label(),
    {
        match self {
            PartitionStat::TableReadersMem => Some("readers-mem"),
            PartitionStat::CurSizeAllMemTables => Some("mem-tables"),
            _ => None,
        }
    }

    /// The series that the statistic of the partition `cf` is published to.
    pub fn series(self, cf: &str) -> (series: Series)
        ensures
            series@ == self.spec_series(cf@),
    {
        match self.type_label() {
            Some(label) => Series::labelled2(self.family(), cf, label),
            None => Series::labelled(self.family(), cf),
        }
    }
}

/// No two statistics of any partitions share a series: the family and the
/// `type` label identify the statistic, and the first label is the partition.
pub proof fn lemma_partition_series_injective(
    a: PartitionStat,
    cf_a: Seq<char>,
    b: PartitionStat,
    cf_b: Seq<char>,
)
    requires
        a.spec_series(cf_a) == b.spec_series(cf_b),
    ensures
        a == b,
        cf_a == cf_b,
{
    reveal_strlit("readers-mem");
    reveal_strlit("mem-tables");
    assert(a.spec_family() == b.spec_family());
    assert(a.spec_series(cf_a).labels[0] == cf_a);
    assert(b.spec_series(cf_b).labels[0] == cf_b);
    if a != b {
        assert(a.spec_series(cf_a).labels[1] == a.spec_type_label().unwrap());
        assert(b.spec_series(cf_b).labels[1] == b.spec_type_label().unwrap());
        assert(a.spec_type_label().unwrap().len() != b.spec_type_label().unwrap().len());
    }
}

/// What the engine reported of one partition during a pass. A statistic that
/// the engine does not expose is `None`.
#[derive(Clone, Debug, PartialEq, Eq, Hash)]
pub struct CfProperties {
    /// The partition's name.
    pub cf: String,
    pub total_sst_files_size: Option<i64>,
    pub block_cache_usage: i64,
    pub table_readers_mem: Option<i64>,
    pub cur_size_all_mem_tables: Option<i64>,
    pub estimate_num_keys: Option<i64>,
    pub pending_compaction_bytes: Option<i64>,
}

/// The readings of a partition as contracts see them.
pub struct CfPropertiesView {
    pub cf: Seq<char>,
    pub total_sst_files_size: Option<i64>,
    pub block_cache_usage: i64,
    pub table_readers_mem: Option<i64>,
    pub cur_size_all_mem_tables: Option<i64>,
    pub estimate_num_keys: Option<i64>,
    pub pending_compaction_bytes: Option<i64>,
}

impl DeepView for CfProperties {
    type V = CfPropertiesView;

    open spec fn deep_view(&self) -> CfPropertiesView {
        CfPropertiesView {
            cf: self.cf@,
            total_sst_files_size: self.total_sst_files_size,
            block_cache_usage: self.block_cache_usage,
            table_readers_mem: self.table_readers_mem,
            cur_size_all_mem_tables: self.cur_size_all_mem_tables,
            estimate_num_keys: self.estimate_num_keys,
            pending_compaction_bytes: self.pending_compaction_bytes,
        }
    }
}

impl View for CfProperties {
    type V = CfPropertiesView;

    open spec fn view(&self) -> CfPropertiesView {
        self.deep_view()
    }
}

impl CfPropertiesView {
    /// The reading of one statistic, if the engine gave one.
    pub open spec fn reading(self, stat: PartitionStat) -> Option<i64> {
        match stat {
            PartitionStat::TotalSstFilesSize => self.total_sst_files_size,
            PartitionStat::BlockCacheUsage => Some(self.block_cache_usage),
            PartitionStat::TableReadersMem => self.table_readers_mem,
            PartitionStat::CurSizeAllMemTables => self.cur_size_all_mem_tables,
            PartitionStat::EstimateNumKeys => self.estimate_num_keys,
            PartitionStat::PendingCompactionBytes => self.pending_compaction_bytes,
        }
    }

    /// The same readings, but with one optional statistic not exposed.
    pub open spec fn without(self, stat: PartitionStat) -> CfPropertiesView {
        match stat {
            PartitionStat::TableReadersMem => CfPropertiesView { table_readers_mem: None, ..self },
            PartitionStat::CurSizeAllMemTables => CfPropertiesView {
                cur_size_all_mem_tables: None,
                ..self
            },
            PartitionStat::EstimateNumKeys => CfPropertiesView { estimate_num_keys: None, ..self },
            PartitionStat::PendingCompactionBytes => CfPropertiesView {
                pending_compaction_bytes: None,
                ..self
            },
            _ => self,
        }
    }
}

impl CfProperties {
    /// The reading of one statistic, if the engine gave one.
    pub fn reading(&self, stat: PartitionStat) -> (reading: Option<i64>)
        ensures
            reading == self@.reading(stat),
    {
        match stat {
            PartitionStat::TotalSstFilesSize => self.total_sst_files_size,
            PartitionStat::BlockCacheUsage => Some(self.block_cache_usage),
            PartitionStat::TableReadersMem => self.table_readers_mem,
            PartitionStat::CurSizeAllMemTables => self.cur_size_all_mem_tables,
            PartitionStat::EstimateNumKeys => self.estimate_num_keys,
            PartitionStat::PendingCompactionBytes => self.pending_compaction_bytes,
        }
    }
}

} // verus!
