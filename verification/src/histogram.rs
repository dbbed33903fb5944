//! Histograms: the latency and size distributions that the storage engine
//! summarises, and where each summary is published.

use crate::family::Family;
use crate::update::{Series, SeriesView};
use vstd::prelude::*;
use vstd::string::StringExecFns;

verus! {

/// A distribution that the storage engine summarises.
#[derive(Clone, Copy, Debug, PartialEq, Eq, Hash, Structural)]
pub enum HistType {
    GetMicros,
    WriteMicros,
    CompactionTime,
    TableSyncMicros,
    CompactionOutfileSyncMicros,
    WalFileSyncMicros,
    ManifestFileSyncMicros,
    StallL0SlowdownCount,
    StallMemtableCompactionCount,
    StallL0NumFilesCount,
    HardRateLimitDelayCount,
    SoftRateLimitDelayCount,
    NumFilesInSingleCompaction,
    SeekMicros,
    WriteStall,
    SSTReadMicros,
    NumSubcompactionsScheduled,
    BytesPerRead,
    BytesPerWrite,
    BytesCompressed,
    BytesDecompressed,
    CompressionTimesNanos,
    DecompressionTimesNanos,
}

/// The histograms, in the order in which a pass reads them.
pub const ENGINE_HIST_TYPES: [HistType; 23] = [
    HistType::GetMicros,
    HistType::WriteMicros,
    HistType::CompactionTime,
    HistType::TableSyncMicros,
    HistType::CompactionOutfileSyncMicros,
    HistType::WalFileSyncMicros,
    HistType::ManifestFileSyncMicros,
    HistType::StallL0SlowdownCount,
    HistType::StallMemtableCompactionCount,
    HistType::StallL0NumFilesCount,
    HistType::HardRateLimitDelayCount,
    HistType::SoftRateLimitDelayCount,
    HistType::NumFilesInSingleCompaction,
    HistType::SeekMicros,
    HistType::WriteStall,
    HistType::SSTReadMicros,
    HistType::NumSubcompactionsScheduled,
    HistType::BytesPerRead,
    HistType::BytesPerWrite,
    HistType::BytesCompressed,
    HistType::BytesDecompressed,
    HistType::CompressionTimesNanos,
    HistType::DecompressionTimesNanos,
];

/// One of the five numbers that summarise a distribution.
#[derive(Clone, Copy, Debug, PartialEq, Eq, Hash, Structural)]
pub enum HistField {
    Median,
    Percentile95,
    Percentile99,
    Average,
    StandardDeviation,
}

/// The fields of a summary, in the order in which they are published.
pub const HIST_FIELDS: [HistField; 5] = [
    HistField::Median,
    HistField::Percentile95,
    HistField::Percentile99,
    HistField::Average,
    HistField::StandardDeviation,
];

impl HistField {
    /// What the `type` label of the field's series ends with.
    pub open spec fn spec_suffix(self) -> Seq<char> {
        match self {
            HistField::Median => "_median"@,
            HistField::Percentile95 => "_percentile95"@,
            HistField::Percentile99 => "_percentile99"@,
            HistField::Average => "_average"@,
            HistField::StandardDeviation => "_standard_deviation"@,
        }
    }

    /// What the `type` label of the field's series ends with.
    pub fn suffix(self) -> (suffix: &'static str)
        ensures
            suffix@ == self.spec_suffix(),
    {
        match self {
            HistField::Median => "_median",
            HistField::Percentile95 => "_percentile95",
            HistField::Percentile99 => "_percentile99",
            HistField::Average => "_average",
            HistField::StandardDeviation => "_standard_deviation",
        }
    }
}

/// A summary of a distribution, taken at one point in time. Each field holds
/// the bit pattern of an IEEE 754 double, which is carried through untouched.
#[derive(Clone, Copy, Debug, PartialEq, Eq, Hash, Structural)]
pub struct HistogramData {
    pub median: u64,
    pub percentile95: u64,
    pub percentile99: u64,
    pub average: u64,
    pub standard_deviation: u64,
}

impl HistogramData {
    /// The bits of one field of the summary.
    pub open spec fn spec_field(self, field: HistField) -> u64 {
        match field {
            HistField::Median => self.median,
            HistField::Percentile95 => self.percentile95,
            HistField::Percentile99 => self.percentile99,
            HistField::Average => self.average,
            HistField::StandardDeviation => self.standard_deviation,
        }
    }

    /// The summary to publish of a histogram that has recorded `count`
    /// values: none where it has recorded nothing, so that no spurious zero
    /// is published.
    pub fn if_recorded(self, count: u64) -> (summary: Option<HistogramData>)
        ensures
            summary == if count == 0 {
                None
            } else {
                Some(self)
            },
    {
        if count == 0 {
            None
        } else {
            Some(self)
        }
    }

    /// The bits of one field of the summary.
    #[verifier::when_used_as_spec(spec_field)]
    pub fn field(self, field: HistField) -> (bits: u64)
        ensures
            bits == self.spec_field(field),
    {
        match field {
            HistField::Median => self.median,
            HistField::Percentile95 => self.percentile95,
            HistField::Percentile99 => self.percentile99,
            HistField::Average => self.average,
            HistField::StandardDeviation => self.standard_deviation,
        }
    }
}

impl HistType {
    /// The metric family that holds the histogram's five series.
    pub open spec fn spec_family(self) -> Family {
        Family::Histogram(self)
    }

    /// The value of the `type` label of one field's series: the histogram's
    /// prefix followed by the field's suffix.
    pub open spec fn spec_label(self, field: HistField) -> Seq<char> {
        self.spec_label_prefix() + field.spec_suffix()
    }

    /// The series that one field of the histogram is published to.
    pub open spec fn spec_series(self, field: HistField) -> SeriesView {
        SeriesView { family: self.spec_family(), labels: seq![self.spec_label(field)] }
    }

    /// The metric family that holds the histogram's five series.
    #[verifier::when_used_as_spec(spec_family)]
    pub fn family(self) -> (family: Family)
        ensures
            family == self.spec_family(),
    {
        Family::Histogram(self)
    }

    /// The value of the `type` label of one field's series: the histogram's
    /// prefix followed by the field's suffix.
    pub fn label(self, field: HistField) -> (label: String)
        ensures
            label@ == self.spec_label(field),
    {
        String::from_str(self.label_prefix()).concat(field.suffix())
    }

    /// The series that one field of the histogram is published to.
    pub fn series(self, field: HistField) -> (series: Series)
        ensures
            series@ == self.spec_series(field),
    {
        let label = self.label(field);
        Series::labelled(self.family(), label.as_str())
    }

    /// What the `type` label of each of the histogram's five series begins with.
    pub open spec fn spec_label_prefix(self) -> Seq<char> {
        match self {
            HistType::GetMicros => "get"@,
            HistType::WriteMicros => "write"@,
            HistType::CompactionTime => "compaction_time"@,
            HistType::TableSyncMicros => "table_sync"@,
            HistType::CompactionOutfileSyncMicros => "compaction_outfile_sync"@,
            HistType::WalFileSyncMicros => "wal_file_sync"@,
            HistType::ManifestFileSyncMicros => "manifest_file_sync"@,
            HistType::StallL0SlowdownCount => "stall_l0_slowdown_count"@,
            HistType::StallMemtableCompactionCount => "stall_memtable_compaction_count"@,
            HistType::StallL0NumFilesCount => "stall_l0_num_files_count"@,
            HistType::HardRateLimitDelayCount => "hard_rate_limit_delay"@,
            HistType::SoftRateLimitDelayCount => "soft_rate_limit_delay"@,
            HistType::NumFilesInSingleCompaction => "num_files_in_single_compaction"@,
            HistType::SeekMicros => "seek"@,
            HistType::WriteStall => "write_stall"@,
            HistType::SSTReadMicros => "sst_read_micros"@,
            HistType::NumSubcompactionsScheduled => "num_subcompaction_scheduled"@,
            HistType::BytesPerRead => "bytes_per_read"@,
            HistType::BytesPerWrite => "bytes_per_write"@,
            HistType::BytesCompressed => "bytes_compressed"@,
            HistType::BytesDecompressed => "bytes_decompressed"@,
            HistType::CompressionTimesNanos => "compression_time_nanos"@,
            HistType::DecompressionTimesNanos => "decompression_time_nanos"@,
        }
    }

    /// The name of the histogram's metric family, without the namespace.
    pub open spec fn spec_family_name(self) -> Seq<char> {
        match self {
            HistType::GetMicros => "get_micro_seconds"@,
            HistType::WriteMicros => "write_micro_seconds"@,
            HistType::CompactionTime => "compaction_time"@,
            HistType::TableSyncMicros => "table_sync_micro_seconds"@,
            HistType::CompactionOutfileSyncMicros => "compaction_outfile_sync_micro_seconds"@,
            HistType::WalFileSyncMicros => "wal_file_sync_micro_seconds"@,
            HistType::ManifestFileSyncMicros => "manifest_file_sync_micro_seconds"@,
            HistType::StallL0SlowdownCount => "stall_l0_slowdown_count"@,
            HistType::StallMemtableCompactionCount => "stall_memtable_compaction_count"@,
            HistType::StallL0NumFilesCount => "stall_l0_num_files_count"@,
            HistType::HardRateLimitDelayCount => "hard_rate_limit_delay_count"@,
            HistType::SoftRateLimitDelayCount => "soft_rate_limit_delay_count"@,
            HistType::NumFilesInSingleCompaction => "num_files_in_single_compaction"@,
            HistType::SeekMicros => "seek_micro_seconds"@,
            HistType::WriteStall => "write_stall"@,
            HistType::SSTReadMicros => "sst_read_micros"@,
            HistType::NumSubcompactionsScheduled => "num_subcompaction_scheduled"@,
            HistType::BytesPerRead => "bytes_per_read"@,
            HistType::BytesPerWrite => "bytes_per_write"@,
            HistType::BytesCompressed => "bytes_compressed"@,
            HistType::BytesDecompressed => "bytes_decompressed"@,
            HistType::CompressionTimesNanos => "compression_time_nanos"@,
            HistType::DecompressionTimesNanos => "decompression_time_nanos"@,
        }
    }

    /// The help text of the histogram's metric family.
    pub open spec fn spec_help(self) -> Seq<char> {
        match self {
            HistType::GetMicros => "Histogram of get micros"@,
            HistType::WriteMicros => "Histogram of write micros"@,
            HistType::CompactionTime => "Histogram of compaction time"@,
            HistType::TableSyncMicros => "Histogram of table sync micros"@,
            HistType::CompactionOutfileSyncMicros => "Histogram of compaction outfile sync micros"@,
            HistType::WalFileSyncMicros => "Histogram of WAL file sync micros"@,
            HistType::ManifestFileSyncMicros => "Histogram of manifest file sync micros"@,
            HistType::StallL0SlowdownCount => "Histogram of stall l0 slowdown count"@,
            HistType::StallMemtableCompactionCount => {
                "Histogram of stall memtable compaction count"@
            },
            HistType::StallL0NumFilesCount => "Histogram of stall l0 num files count"@,
            HistType::HardRateLimitDelayCount => "Histogram of hard rate limit delay count"@,
            HistType::SoftRateLimitDelayCount => "Histogram of soft rate limit delay count"@,
            HistType::NumFilesInSingleCompaction => {
                "Histogram of number of files in single compaction"@
            },
            HistType::SeekMicros => "Histogram of seek micros"@,
            HistType::WriteStall => "Histogram of write stall"@,
            HistType::SSTReadMicros => "Histogram of SST read micros"@,
            HistType::NumSubcompactionsScheduled => {
                "Histogram of number of subcompaction scheduled"@
            },
            HistType::BytesPerRead => "Histogram of bytes per read"@,
            HistType::BytesPerWrite => "Histogram of bytes per write"@,
            HistType::BytesCompressed => "Histogram of bytes compressed"@,
            HistType::BytesDecompressed => "Histogram of bytes decompressed"@,
            HistType::CompressionTimesNanos => "Histogram of compression time nanos"@,
            HistType::DecompressionTimesNanos => "Histogram of decompression time nanos"@,
        }
    }

    /// What the `type` label of each of the histogram's five series begins with.
    pub fn label_prefix(self) -> (prefix: &'static str)
        ensures
            prefix@ == self.spec_label_prefix(),
    {
        match self {
            HistType::GetMicros => "get",
            HistType::WriteMicros => "write",
            HistType::CompactionTime => "compaction_time",
            HistType::TableSyncMicros => "table_sync",
            HistType::CompactionOutfileSyncMicros => "compaction_outfile_sync",
            HistType::WalFileSyncMicros => "wal_file_sync",
            HistType::ManifestFileSyncMicros => "manifest_file_sync",
            HistType::StallL0SlowdownCount => "stall_l0_slowdown_count",
            HistType::StallMemtableCompactionCount => "stall_memtable_compaction_count",
            HistType::StallL0NumFilesCount => "stall_l0_num_files_count",
            HistType::HardRateLimitDelayCount => "hard_rate_limit_delay",
            HistType::SoftRateLimitDelayCount => "soft_rate_limit_delay",
            HistType::NumFilesInSingleCompaction => "num_files_in_single_compaction",
            HistType::SeekMicros => "seek",
            HistType::WriteStall => "write_stall",
            HistType::SSTReadMicros => "sst_read_micros",
            HistType::NumSubcompactionsScheduled => "num_subcompaction_scheduled",
            HistType::BytesPerRead => "bytes_per_read",
            HistType::BytesPerWrite => "bytes_per_write",
            HistType::BytesCompressed => "bytes_compressed",
            HistType::BytesDecompressed => "bytes_decompressed",
            HistType::CompressionTimesNanos => "compression_time_nanos",
            HistType::DecompressionTimesNanos => "decompression_time_nanos",
        }
    }

    /// The name of the histogram's metric family, without the namespace.
    pub fn family_name(self) -> (name: &'static str)
        ensures
            name@ == self.spec_family_name(),
    {
        match self {
            HistType::GetMicros => "get_micro_seconds",
            HistType::WriteMicros => "write_micro_seconds",
            HistType::CompactionTime => "compaction_time",
            HistType::TableSyncMicros => "table_sync_micro_seconds",
            HistType::CompactionOutfileSyncMicros => "compaction_outfile_sync_micro_seconds",
            HistType::WalFileSyncMicros => "wal_file_sync_micro_seconds",
            HistType::ManifestFileSyncMicros => "manifest_file_sync_micro_seconds",
            HistType::StallL0SlowdownCount => "stall_l0_slowdown_count",
            HistType::StallMemtableCompactionCount => "stall_memtable_compaction_count",
            HistType::StallL0NumFilesCount => "stall_l0_num_files_count",
            HistType::HardRateLimitDelayCount => "hard_rate_limit_delay_count",
            HistType::SoftRateLimitDelayCount => "soft_rate_limit_delay_count",
            HistType::NumFilesInSingleCompaction => "num_files_in_single_compaction",
            HistType::SeekMicros => "seek_micro_seconds",
            HistType::WriteStall => "write_stall",
            HistType::SSTReadMicros => "sst_read_micros",
            HistType::NumSubcompactionsScheduled => "num_subcompaction_scheduled",
            HistType::BytesPerRead => "bytes_per_read",
            HistType::BytesPerWrite => "bytes_per_write",
            HistType::BytesCompressed => "bytes_compressed",
            HistType::BytesDecompressed => "bytes_decompressed",
            HistType::CompressionTimesNanos => "compression_time_nanos",
            HistType::DecompressionTimesNanos => "decompression_time_nanos",
        }
    }

    /// The help text of the histogram's metric family.
    pub fn help(self) -> (help: &'static str)
        ensures
            help@ == self.spec_help(),
    {
        match self {
            HistType::GetMicros => "Histogram of get micros",
            HistType::WriteMicros => "Histogram of write micros",
            HistType::CompactionTime => "Histogram of compaction time",
            HistType::TableSyncMicros => "Histogram of table sync micros",
            HistType::CompactionOutfileSyncMicros => "Histogram of compaction outfile sync micros",
            HistType::WalFileSyncMicros => "Histogram of WAL file sync micros",
            HistType::ManifestFileSyncMicros => "Histogram of manifest file sync micros",
            HistType::StallL0SlowdownCount => "Histogram of stall l0 slowdown count",
            HistType::StallMemtableCompactionCount => {
                "Histogram of stall memtable compaction count"
            },
            HistType::StallL0NumFilesCount => "Histogram of stall l0 num files count",
            HistType::HardRateLimitDelayCount => "Histogram of hard rate limit delay count",
            HistType::SoftRateLimitDelayCount => "Histogram of soft rate limit delay count",
            HistType::NumFilesInSingleCompaction => {
                "Histogram of number of files in single compaction"
            },
            HistType::SeekMicros => "Histogram of seek micros",
            HistType::WriteStall => "Histogram of write stall",
            HistType::SSTReadMicros => "Histogram of SST read micros",
            HistType::NumSubcompactionsScheduled => {
                "Histogram of number of subcompaction scheduled"
            },
            HistType::BytesPerRead => "Histogram of bytes per read",
            HistType::BytesPerWrite => "Histogram of bytes per write",
            HistType::BytesCompressed => "Histogram of bytes compressed",
            HistType::BytesDecompressed => "Histogram of bytes decompressed",
            HistType::CompressionTimesNanos => "Histogram of compression time nanos",
            HistType::DecompressionTimesNanos => "Histogram of decompression time nanos",
        }
    }
}

/// Where a histogram stands in the list of histograms.
spec fn position(t: HistType) -> int {
    match t {
        HistType::GetMicros => 0,
        HistType::WriteMicros => 1,
        HistType::CompactionTime => 2,
        HistType::TableSyncMicros => 3,
        HistType::CompactionOutfileSyncMicros => 4,
        HistType::WalFileSyncMicros => 5,
        HistType::ManifestFileSyncMicros => 6,
        HistType::StallL0SlowdownCount => 7,
        HistType::StallMemtableCompactionCount => 8,
        HistType::StallL0NumFilesCount => 9,
        HistType::HardRateLimitDelayCount => 10,
        HistType::SoftRateLimitDelayCount => 11,
        HistType::NumFilesInSingleCompaction => 12,
        HistType::SeekMicros => 13,
        HistType::WriteStall => 14,
        HistType::SSTReadMicros => 15,
        HistType::NumSubcompactionsScheduled => 16,
        HistType::BytesPerRead => 17,
        HistType::BytesPerWrite => 18,
        HistType::BytesCompressed => 19,
        HistType::BytesDecompressed => 20,
        HistType::CompressionTimesNanos => 21,
        HistType::DecompressionTimesNanos => 22,
    }
}

/// The list of histograms names every histogram, and none twice.
pub proof fn lemma_hist_types_complete(t: HistType)
    ensures
        ENGINE_HIST_TYPES@.contains(t),
        ENGINE_HIST_TYPES@.no_duplicates(),
{
    assert(ENGINE_HIST_TYPES@[position(t)] == t);
    assert forall|i: int| 0 <= i < ENGINE_HIST_TYPES@.len() implies position(
        #[trigger] ENGINE_HIST_TYPES@[i],
    ) == i by {}
}

/// No two fields of any histograms share a series: the family identifies the
/// histogram, and the end of the label identifies the field.
pub proof fn lemma_histogram_series_injective(a: HistType, f: HistField, b: HistType, g: HistField)
    requires
        a.spec_series(f) == b.spec_series(g),
    ensures
        a == b,
        f == g,
{
    reveal_strlit("_median");
    reveal_strlit("_percentile95");
    reveal_strlit("_percentile99");
    reveal_strlit("_average");
    reveal_strlit("_standard_deviation");
    assert(a.spec_family() == b.spec_family());
    let prefix = a.spec_label_prefix();
    let left = prefix + f.spec_suffix();
    let right = prefix + g.spec_suffix();
    assert(a.spec_series(f).labels[0] == left);
    assert(b.spec_series(g).labels[0] == right);
    assert(left.len() == right.len());
    if f.spec_suffix().len() > 12 {
        assert(left[prefix.len() as int + 12] == f.spec_suffix()[12]);
        assert(right[prefix.len() as int + 12] == g.spec_suffix()[12]);
    }
}

} // verus!
