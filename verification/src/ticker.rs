//! Tickers: the running counters that the storage engine keeps, and where each
//! one is published.

use crate::family::{Family, MetricKind};
use crate::update::{opt_str_view, Series, SeriesView};
use vstd::prelude::*;

verus! {

/// A running counter maintained by the storage engine.
#[derive(Clone, Copy, Debug, PartialEq, Eq, Hash, Structural)]
pub enum TickerType {
    BlockCacheMiss,
    BlockCacheHit,
    BlockCacheIndexMiss,
    BlockCacheIndexHit,
    BlockCacheFilterMiss,
    BlockCacheFilterHit,
    BlockCacheDataMiss,
    BlockCacheDataHit,
    BlockCacheByteRead,
    BlockCacheByteWrite,
    BloomFilterUseful,
    MemtableHit,
    MemtableMiss,
    GetHitL0,
    GetHitL1,
    GetHitL2AndUp,
    CompactionKeyDropNewerEntry,
    CompactionKeyDropObsolete,
    CompactionKeyDropRangeDel,
    CompactionRangeDelDropObsolete,
    NumberKeysWritten,
    NumberKeysRead,
    BytesWritten,
    BytesRead,
    NumberDbSeek,
    NumberDbNext,
    NumberDbPrev,
    NumberDbSeekFound,
    NumberDbNextFound,
    NumberDbPrevFound,
    IterBytesRead,
    NoFileCloses,
    NoFileOpens,
    NoFileErrors,
    StallMicros,
    NoIterators,
    BloomFilterPrefixChecked,
    BloomFilterPrefixUseful,
    WalFileSynced,
    WalFileBytes,
    CompactReadBytes,
    CompactWriteBytes,
    FlushWriteBytes,
    ReadAmpEstimateUsefulBytes,
    ReadAmpTotalReadBytes,
}

/// The cumulative tickers, in the order in which a pass reads them. They are
/// read without side effect and each overwrites a gauge.
pub const ENGINE_TICKER_TYPES_GAUGE: [TickerType; 29] = [
    TickerType::BlockCacheMiss,
    TickerType::BlockCacheHit,
    TickerType::BlockCacheIndexMiss,
    TickerType::BlockCacheIndexHit,
    TickerType::BlockCacheFilterMiss,
    TickerType::BlockCacheFilterHit,
    TickerType::BlockCacheDataMiss,
    TickerType::BlockCacheDataHit,
    TickerType::BlockCacheByteRead,
    TickerType::BlockCacheByteWrite,
    TickerType::BloomFilterUseful,
    TickerType::MemtableHit,
    TickerType::MemtableMiss,
    TickerType::GetHitL0,
    TickerType::GetHitL1,
    TickerType::GetHitL2AndUp,
    TickerType::NumberKeysWritten,
    TickerType::NumberKeysRead,
    TickerType::BytesWritten,
    TickerType::BytesRead,
    TickerType::IterBytesRead,
    TickerType::StallMicros,
    TickerType::NoIterators,
    TickerType::BloomFilterPrefixChecked,
    TickerType::BloomFilterPrefixUseful,
    TickerType::WalFileBytes,
    TickerType::CompactReadBytes,
    TickerType::CompactWriteBytes,
    TickerType::FlushWriteBytes,
];

/// The delta tickers, in the order in which a pass reads them. Reading one
/// resets it to zero, and each reading is added to a counter.
pub const ENGINE_TICKER_TYPES_COUNTER: [TickerType; 16] = [
    TickerType::CompactionKeyDropNewerEntry,
    TickerType::CompactionKeyDropObsolete,
    TickerType::CompactionKeyDropRangeDel,
    TickerType::CompactionRangeDelDropObsolete,
    TickerType::NumberDbSeek,
    TickerType::NumberDbNext,
    TickerType::NumberDbPrev,
    TickerType::NumberDbSeekFound,
    TickerType::NumberDbNextFound,
    TickerType::NumberDbPrevFound,
    TickerType::NoFileCloses,
    TickerType::NoFileOpens,
    TickerType::NoFileErrors,
    TickerType::WalFileSynced,
    TickerType::ReadAmpEstimateUsefulBytes,
    TickerType::ReadAmpTotalReadBytes,
];

impl TickerType {
    /// The metric family that the ticker is published under.
    pub open spec fn spec_family(self) -> Family {
        match self {
            TickerType::BlockCacheMiss
            | TickerType::BlockCacheHit
            | TickerType::BlockCacheIndexMiss
            | TickerType::BlockCacheIndexHit
            | TickerType::BlockCacheFilterMiss
            | TickerType::BlockCacheFilterHit
            | TickerType::BlockCacheDataMiss
            | TickerType::BlockCacheDataHit => Family::CacheEfficiency,
            TickerType::BlockCacheByteRead
            | TickerType::BlockCacheByteWrite
            | TickerType::NumberKeysWritten
            | TickerType::NumberKeysRead
            | TickerType::BytesWritten
            | TickerType::BytesRead
            | TickerType::IterBytesRead
            | TickerType::WalFileBytes
            | TickerType::FlushWriteBytes => Family::Flow,
            TickerType::BloomFilterUseful
            | TickerType::BloomFilterPrefixChecked
            | TickerType::BloomFilterPrefixUseful => Family::BloomEfficiency,
            TickerType::MemtableHit
            | TickerType::MemtableMiss => Family::MemtableEfficiency,
            TickerType::GetHitL0
            | TickerType::GetHitL1
            | TickerType::GetHitL2AndUp => Family::GetServed,
            TickerType::CompactionKeyDropNewerEntry
            | TickerType::CompactionKeyDropObsolete
            | TickerType::CompactionKeyDropRangeDel
            | TickerType::CompactionRangeDelDropObsolete => Family::CompactionKeyDrop,
            TickerType::NumberDbSeek
            | TickerType::NumberDbNext
            | TickerType::NumberDbPrev
            | TickerType::NumberDbSeekFound
            | TickerType::NumberDbNextFound
            | TickerType::NumberDbPrevFound => Family::Locate,
            TickerType::NoFileCloses
            | TickerType::NoFileOpens
            | TickerType::NoFileErrors => Family::FileStatus,
            TickerType::StallMicros => Family::StallMicros,
            TickerType::NoIterators => Family::NoIterator,
            TickerType::WalFileSynced => Family::WalFileSynced,
            TickerType::CompactReadBytes
            | TickerType::CompactWriteBytes => Family::CompactionFlow,
            TickerType::ReadAmpEstimateUsefulBytes
            | TickerType::ReadAmpTotalReadBytes => Family::ReadAmpFlow,
        }
    }

    /// The value of the `type` label that tells the ticker apart within its
    /// family, or `None` where the family holds this ticker alone.
    pub open spec fn spec_label(self) -> Option<Seq<char>> {
        match self {
            TickerType::BlockCacheMiss => Some("block_cache_miss"@),
            TickerType::BlockCacheHit => Some("block_cache_hit"@),
            TickerType::BlockCacheIndexMiss => Some("block_cache_index_miss"@),
            TickerType::BlockCacheIndexHit => Some("block_cache_index_hit"@),
            TickerType::BlockCacheFilterMiss => Some("block_cache_filter_miss"@),
            TickerType::BlockCacheFilterHit => Some("block_cache_filter_hit"@),
            TickerType::BlockCacheDataMiss => Some("block_cache_data_miss"@),
            TickerType::BlockCacheDataHit => Some("block_cache_data_hit"@),
            TickerType::BlockCacheByteRead => Some("block_cache_byte_read"@),
            TickerType::BlockCacheByteWrite => Some("block_cache_byte_write"@),
            TickerType::BloomFilterUseful => Some("bloom_useful"@),
            TickerType::MemtableHit => Some("memtable_hit"@),
            TickerType::MemtableMiss => Some("memtable_miss"@),
            TickerType::GetHitL0 => Some("get_hit_l0"@),
            TickerType::GetHitL1 => Some("get_hit_l1"@),
            TickerType::GetHitL2AndUp => Some("get_hit_l2_and_up"@),
            TickerType::CompactionKeyDropNewerEntry => Some("compaction_key_drop_newer_entry"@),
            TickerType::CompactionKeyDropObsolete => Some("compaction_key_drop_obsolete"@),
            TickerType::CompactionKeyDropRangeDel => Some("compaction_key_drop_range_del"@),
            TickerType::CompactionRangeDelDropObsolete => Some("range_del_drop_obsolete"@),
            TickerType::NumberKeysWritten => Some("keys_written"@),
            TickerType::NumberKeysRead => Some("keys_read"@),
            TickerType::BytesWritten => Some("bytes_written"@),
            TickerType::BytesRead => Some("bytes_read"@),
            TickerType::NumberDbSeek => Some("number_db_seek"@),
            TickerType::NumberDbNext => Some("number_db_next"@),
            TickerType::NumberDbPrev => Some("number_db_prev"@),
            TickerType::NumberDbSeekFound => Some("number_db_seek_found"@),
            TickerType::NumberDbNextFound => Some("number_db_next_found"@),
            TickerType::NumberDbPrevFound => Some("number_db_prev_found"@),
            TickerType::IterBytesRead => Some("iter_bytes_read"@),
            TickerType::NoFileCloses => Some("no_file_closes"@),
            TickerType::NoFileOpens => Some("no_file_opens"@),
            TickerType::NoFileErrors => Some("no_file_errors"@),
            TickerType::StallMicros => None,
            TickerType::NoIterators => None,
            TickerType::BloomFilterPrefixChecked => Some("bloom_prefix_checked"@),
            TickerType::BloomFilterPrefixUseful => Some("bloom_prefix_useful"@),
            TickerType::WalFileSynced => None,
            TickerType::WalFileBytes => Some("wal_file_bytes"@),
            TickerType::CompactReadBytes => Some("bytes_read"@),
            TickerType::CompactWriteBytes => Some("bytes_written"@),
            TickerType::FlushWriteBytes => Some("flush_write_bytes"@),
            TickerType::ReadAmpEstimateUsefulBytes => Some("read_amp_estimate_useful_bytes"@),
            TickerType::ReadAmpTotalReadBytes => Some("read_amp_total_read_bytes"@),
        }
    }

    /// How the ticker is exported: a ticker of a gauge family is cumulative, a
    /// ticker of a counter family is a delta.
    pub open spec fn spec_kind(self) -> MetricKind {
        self.spec_family().spec_kind()
    }

    /// The series that the ticker is published to.
    pub open spec fn spec_series(self) -> SeriesView {
        SeriesView {
            family: self.spec_family(),
            labels: match self.spec_label() {
                Some(label) => seq![label],
                None => seq![],
            },
        }
    }

    /// The metric family that the ticker is published under.
    #[verifier::when_used_as_spec(spec_family)]
    pub fn family(self) -> (family: Family)
        ensures
            family == self.spec_family(),
    {
        match self {
            TickerType::BlockCacheMiss
            | TickerType::BlockCacheHit
            | TickerType::BlockCacheIndexMiss
            | TickerType::BlockCacheIndexHit
            | TickerType::BlockCacheFilterMiss
            | TickerType::BlockCacheFilterHit
            | TickerType::BlockCacheDataMiss
            | TickerType::BlockCacheDataHit => Family::CacheEfficiency,
            TickerType::BlockCacheByteRead
            | TickerType::BlockCacheByteWrite
            | TickerType::NumberKeysWritten
            | TickerType::NumberKeysRead
            | TickerType::BytesWritten
            | TickerType::BytesRead
            | TickerType::IterBytesRead
            | TickerType::WalFileBytes
            | TickerType::FlushWriteBytes => Family::Flow,
            TickerType::BloomFilterUseful
            | TickerType::BloomFilterPrefixChecked
            | TickerType::BloomFilterPrefixUseful => Family::BloomEfficiency,
            TickerType::MemtableHit
            | TickerType::MemtableMiss => Family::MemtableEfficiency,
            TickerType::GetHitL0
            | TickerType::GetHitL1
            | TickerType::GetHitL2AndUp => Family::GetServed,
            TickerType::CompactionKeyDropNewerEntry
            | TickerType::CompactionKeyDropObsolete
            | TickerType::CompactionKeyDropRangeDel
            | TickerType::CompactionRangeDelDropObsolete => Family::CompactionKeyDrop,
            TickerType::NumberDbSeek
            | TickerType::NumberDbNext
            | TickerType::NumberDbPrev
            | TickerType::NumberDbSeekFound
            | TickerType::NumberDbNextFound
            | TickerType::NumberDbPrevFound => Family::Locate,
            TickerType::NoFileCloses
            | TickerType::NoFileOpens
            | TickerType::NoFileErrors => Family::FileStatus,
            TickerType::StallMicros => Family::StallMicros,
            TickerType::NoIterators => Family::NoIterator,
            TickerType::WalFileSynced => Family::WalFileSynced,
            TickerType::CompactReadBytes
            | TickerType::CompactWriteBytes => Family::CompactionFlow,
            TickerType::ReadAmpEstimateUsefulBytes
            | TickerType::ReadAmpTotalReadBytes => Family::ReadAmpFlow,
        }
    }

    /// The value of the `type` label that tells the ticker apart within its
    /// family, or `None` where the family holds this ticker alone.
    pub fn label(self) -> (label: Option<&'static str>)
        ensures
            opt_str_view(label) == self.spec_label(),
    {
        match self {
            TickerType::BlockCacheMiss => Some("block_cache_miss"),
            TickerType::BlockCacheHit => Some("block_cache_hit"),
            TickerType::BlockCacheIndexMiss => Some("block_cache_index_miss"),
            TickerType::BlockCacheIndexHit => Some("block_cache_index_hit"),
            TickerType::BlockCacheFilterMiss => Some("block_cache_filter_miss"),
            TickerType::BlockCacheFilterHit => Some("block_cache_filter_hit"),
            TickerType::BlockCacheDataMiss => Some("block_cache_data_miss"),
            TickerType::BlockCacheDataHit => Some("block_cache_data_hit"),
            TickerType::BlockCacheByteRead => Some("block_cache_byte_read"),
            TickerType::BlockCacheByteWrite => Some("block_cache_byte_write"),
            TickerType::BloomFilterUseful => Some("bloom_useful"),
            TickerType::MemtableHit => Some("memtable_hit"),
            TickerType::MemtableMiss => Some("memtable_miss"),
            TickerType::GetHitL0 => Some("get_hit_l0"),
            TickerType::GetHitL1 => Some("get_hit_l1"),
            TickerType::GetHitL2AndUp => Some("get_hit_l2_and_up"),
            TickerType::CompactionKeyDropNewerEntry => Some("compaction_key_drop_newer_entry"),
            TickerType::CompactionKeyDropObsolete => Some("compaction_key_drop_obsolete"),
            TickerType::CompactionKeyDropRangeDel => Some("compaction_key_drop_range_del"),
            TickerType::CompactionRangeDelDropObsolete => Some("range_del_drop_obsolete"),
            TickerType::NumberKeysWritten => Some("keys_written"),
            TickerType::NumberKeysRead => Some("keys_read"),
            TickerType::BytesWritten => Some("bytes_written"),
            TickerType::BytesRead => Some("bytes_read"),
            TickerType::NumberDbSeek => Some("number_db_seek"),
            TickerType::NumberDbNext => Some("number_db_next"),
            TickerType::NumberDbPrev => Some("number_db_prev"),
            TickerType::NumberDbSeekFound => Some("number_db_seek_found"),
            TickerType::NumberDbNextFound => Some("number_db_next_found"),
            TickerType::NumberDbPrevFound => Some("number_db_prev_found"),
            TickerType::IterBytesRead => Some("iter_bytes_read"),
            TickerType::NoFileCloses => Some("no_file_closes"),
            TickerType::NoFileOpens => Some("no_file_opens"),
            TickerType::NoFileErrors => Some("no_file_errors"),
            TickerType::StallMicros => None,
            TickerType::NoIterators => None,
            TickerType::BloomFilterPrefixChecked => Some("bloom_prefix_checked"),
            TickerType::BloomFilterPrefixUseful => Some("bloom_prefix_useful"),
            TickerType::WalFileSynced => None,
            TickerType::WalFileBytes => Some("wal_file_bytes"),
            TickerType::CompactReadBytes => Some("bytes_read"),
            TickerType::CompactWriteBytes => Some("bytes_written"),
            TickerType::FlushWriteBytes => Some("flush_write_bytes"),
            TickerType::ReadAmpEstimateUsefulBytes => Some("read_amp_estimate_useful_bytes"),
            TickerType::ReadAmpTotalReadBytes => Some("read_amp_total_read_bytes"),
        }
    }

    /// The series that the ticker is published to.
    pub fn series(self) -> (series: Series)
        ensures
            series@ == self.spec_series(),
    {
        match self.label() {
            Some(label) => Series::labelled(self.family(), label),
            None => Series::plain(self.family()),
        }
    }

    /// How the ticker is exported: a ticker of a gauge family is cumulative, a
    /// ticker of a counter family is a delta.
    #[verifier::when_used_as_spec(spec_kind)]
    pub fn kind(self) -> (kind: MetricKind)
        ensures
            kind == self.spec_kind(),
    {
        self.family().kind()
    }
}

/// What a running total grew by between two readings, for an engine that
/// cannot reset a ticker as it reads it: the difference of the two totals as
/// the engine counts, modulo two to the power 64. A total that has gone back
/// gives a delta that reads as a negative number when taken as signed.
pub open spec fn spec_delta_since(previous: u64, current: u64) -> u64 {
    if current >= previous {
        (current - previous) as u64
    } else {
        (0x1_0000_0000_0000_0000 + current - previous) as u64
    }
}

/// What a running total grew by between two readings, for an engine that
/// cannot reset a ticker as it reads it: the difference of the two totals as
/// the engine counts, modulo two to the power 64. A total that has gone back
/// gives a delta that reads as a negative number when taken as signed.
#[verifier::when_used_as_spec(spec_delta_since)]
pub fn delta_since(previous: u64, current: u64) -> (delta: u64)
    ensures
        delta == spec_delta_since(previous, current),
{
    if current >= previous {
        current - previous
    } else {
        u64::MAX - (previous - current) + 1
    }
}

/// The running total of every ticker at the reading before, for an engine
/// that cannot reset a ticker as it reads it. Before the first reading of a
/// ticker its total is zero, so that the first delta is all that the engine
/// has counted.
#[derive(Clone, Debug)]
pub struct DeltaTracker {
    totals: [u64; 45],
}

impl DeltaTracker {
    /// The total of the ticker at the reading before; zero before the first.
    pub closed spec fn spec_previous(&self, t: TickerType) -> u64 {
        self.totals@[slot(t)]
    }

    /// A tracker that has seen no reading.
    pub fn new() -> (tracker: DeltaTracker)
        ensures
            forall|t: TickerType| tracker.spec_previous(t) == 0,
    {
        let tracker = DeltaTracker { totals: [0u64; 45] };
        proof {
            assert forall|t: TickerType| tracker.spec_previous(t) == 0 by {
                lemma_slots(t, t);
            }
        }
        tracker
    }

    /// The total of the ticker at the reading before; zero before the first.
    #[verifier::when_used_as_spec(spec_previous)]
    pub fn previous(&self, t: TickerType) -> (total: u64)
        ensures
            total == self.spec_previous(t),
    {
        self.totals[slot_of(t)]
    }

    /// Takes in the running total that the engine reports of a ticker, and
    /// hands out what the total grew by since the reading before. The totals
    /// of the other tickers are left as they are.
    pub fn observe(&mut self, t: TickerType, total: u64) -> (delta: u64)
        ensures
            delta == spec_delta_since(old(self).spec_previous(t), total),
            final(self).spec_previous(t) == total,
            forall|u: TickerType|
                u != t ==> final(self).spec_previous(u) == old(self).spec_previous(u),
    {
        let i = slot_of(t);
        let delta = delta_since(self.totals[i], total);
        self.totals.set(i, total);
        proof {
            assert forall|u: TickerType| u != t implies self.spec_previous(u) == old(
                self,
            ).spec_previous(u) by {
                lemma_slots(u, t);
            }
        }
        delta
    }
}

/// What tells two labels of one family apart: the length, and the characters
/// at two places.
spec fn label_marks(label: Option<Seq<char>>) -> (nat, char, char) {
    match label {
        Some(label) => (label.len(), label[9], label[13]),
        None => (0, ' ', ' '),
    }
}

/// No two tickers share a series: a ticker's family and label identify it.
pub proof fn lemma_ticker_series_injective(a: TickerType, b: TickerType)
    requires
        a.spec_series() == b.spec_series(),
    ensures
        a == b,
{
    reveal_strlit("block_cache_miss");
    reveal_strlit("block_cache_hit");
    reveal_strlit("block_cache_index_miss");
    reveal_strlit("block_cache_index_hit");
    reveal_strlit("block_cache_filter_miss");
    reveal_strlit("block_cache_filter_hit");
    reveal_strlit("block_cache_data_miss");
    reveal_strlit("block_cache_data_hit");
    reveal_strlit("block_cache_byte_read");
    reveal_strlit("block_cache_byte_write");
    reveal_strlit("bloom_useful");
    reveal_strlit("memtable_hit");
    reveal_strlit("memtable_miss");
    reveal_strlit("get_hit_l0");
    reveal_strlit("get_hit_l1");
    reveal_strlit("get_hit_l2_and_up");
    reveal_strlit("compaction_key_drop_newer_entry");
    reveal_strlit("compaction_key_drop_obsolete");
    reveal_strlit("compaction_key_drop_range_del");
    reveal_strlit("range_del_drop_obsolete");
    reveal_strlit("keys_written");
    reveal_strlit("keys_read");
    reveal_strlit("bytes_written");
    reveal_strlit("bytes_read");
    reveal_strlit("number_db_seek");
    reveal_strlit("number_db_next");
    reveal_strlit("number_db_prev");
    reveal_strlit("number_db_seek_found");
    reveal_strlit("number_db_next_found");
    reveal_strlit("number_db_prev_found");
    reveal_strlit("iter_bytes_read");
    reveal_strlit("no_file_closes");
    reveal_strlit("no_file_opens");
    reveal_strlit("no_file_errors");
    reveal_strlit("bloom_prefix_checked");
    reveal_strlit("bloom_prefix_useful");
    reveal_strlit("wal_file_bytes");
    reveal_strlit("flush_write_bytes");
    reveal_strlit("read_amp_estimate_useful_bytes");
    reveal_strlit("read_amp_total_read_bytes");
    if a != b {
        assert(a.spec_family() == b.spec_family());
        assert(a.spec_series().labels.len() == b.spec_series().labels.len());
        assert(a.spec_label() is Some && b.spec_label() is Some);
        assert(a.spec_series().labels[0] == b.spec_series().labels[0]);
        assert(label_marks(a.spec_label()) != label_marks(b.spec_label()));
    }
}

/// Where a ticker stands in the list of its kind.
spec fn position(t: TickerType) -> int {
    match t {
        TickerType::BlockCacheMiss => 0,
        TickerType::BlockCacheHit => 1,
        TickerType::BlockCacheIndexMiss => 2,
        TickerType::BlockCacheIndexHit => 3,
        TickerType::BlockCacheFilterMiss => 4,
        TickerType::BlockCacheFilterHit => 5,
        TickerType::BlockCacheDataMiss => 6,
        TickerType::BlockCacheDataHit => 7,
        TickerType::BlockCacheByteRead => 8,
        TickerType::BlockCacheByteWrite => 9,
        TickerType::BloomFilterUseful => 10,
        TickerType::MemtableHit => 11,
        TickerType::MemtableMiss => 12,
        TickerType::GetHitL0 => 13,
        TickerType::GetHitL1 => 14,
        TickerType::GetHitL2AndUp => 15,
        TickerType::CompactionKeyDropNewerEntry => 0,
        TickerType::CompactionKeyDropObsolete => 1,
        TickerType::CompactionKeyDropRangeDel => 2,
        TickerType::CompactionRangeDelDropObsolete => 3,
        TickerType::NumberKeysWritten => 16,
        TickerType::NumberKeysRead => 17,
        TickerType::BytesWritten => 18,
        TickerType::BytesRead => 19,
        TickerType::NumberDbSeek => 4,
        TickerType::NumberDbNext => 5,
        TickerType::NumberDbPrev => 6,
        TickerType::NumberDbSeekFound => 7,
        TickerType::NumberDbNextFound => 8,
        TickerType::NumberDbPrevFound => 9,
        TickerType::IterBytesRead => 20,
        TickerType::NoFileCloses => 10,
        TickerType::NoFileOpens => 11,
        TickerType::NoFileErrors => 12,
        TickerType::StallMicros => 21,
        TickerType::NoIterators => 22,
        TickerType::BloomFilterPrefixChecked => 23,
        TickerType::BloomFilterPrefixUseful => 24,
        TickerType::WalFileSynced => 13,
        TickerType::WalFileBytes => 25,
        TickerType::CompactReadBytes => 26,
        TickerType::CompactWriteBytes => 27,
        TickerType::FlushWriteBytes => 28,
        TickerType::ReadAmpEstimateUsefulBytes => 14,
        TickerType::ReadAmpTotalReadBytes => 15,
    }
}

/// Where a ticker stands among all tickers: the cumulative tickers come
/// first, the delta tickers after them, each in the order of its list.
spec fn slot(t: TickerType) -> int {
    match t.spec_kind() {
        MetricKind::Gauge => position(t),
        MetricKind::Counter => ENGINE_TICKER_TYPES_GAUGE@.len() + position(t),
    }
}

/// Every ticker has a place among the 45, and no two share one.
proof fn lemma_slots(t: TickerType, u: TickerType)
    ensures
        0 <= slot(t) < 45,
        slot(t) == slot(u) ==> t == u,
{
}

/// Each list holds at every place the ticker whose position that place is.
proof fn lemma_positions()
    ensures
        forall|i: int|
            0 <= i < ENGINE_TICKER_TYPES_GAUGE@.len() ==> slot(
                #[trigger] ENGINE_TICKER_TYPES_GAUGE@[i],
            ) == i,
        forall|i: int|
            0 <= i < ENGINE_TICKER_TYPES_COUNTER@.len() ==> slot(
                #[trigger] ENGINE_TICKER_TYPES_COUNTER@[i],
            ) == ENGINE_TICKER_TYPES_GAUGE@.len() + i,
{
    assert forall|i: int| 0 <= i < ENGINE_TICKER_TYPES_GAUGE@.len() implies slot(
        #[trigger] ENGINE_TICKER_TYPES_GAUGE@[i],
    ) == i by {}
    assert forall|i: int| 0 <= i < ENGINE_TICKER_TYPES_COUNTER@.len() implies slot(
        #[trigger] ENGINE_TICKER_TYPES_COUNTER@[i],
    ) == ENGINE_TICKER_TYPES_GAUGE@.len() + i by {}
}

/// Finds the place of a ticker among all tickers by looking it up in the two
/// lists.
fn slot_of(t: TickerType) -> (i: usize)
    ensures
        i == slot(t),
        i < 45,
{
    proof {
        lemma_positions();
        lemma_slots(t, t);
    }
    let mut i: usize = 0;
    while i < ENGINE_TICKER_TYPES_GAUGE.len()
        invariant
            i <= ENGINE_TICKER_TYPES_GAUGE@.len(),
            forall|j: int| 0 <= j < i ==> ENGINE_TICKER_TYPES_GAUGE@[j] != t,
            forall|j: int|
                0 <= j < ENGINE_TICKER_TYPES_GAUGE@.len() ==> slot(
                    #[trigger] ENGINE_TICKER_TYPES_GAUGE@[j],
                ) == j,
        decreases ENGINE_TICKER_TYPES_GAUGE@.len() - i,
    {
        if ENGINE_TICKER_TYPES_GAUGE[i] == t {
            return i;
        }
        i += 1;
    }
    let mut k: usize = 0;
    while k < ENGINE_TICKER_TYPES_COUNTER.len()
        invariant
            k <= ENGINE_TICKER_TYPES_COUNTER@.len(),
            ENGINE_TICKER_TYPES_GAUGE@.len() == 29,
            ENGINE_TICKER_TYPES_COUNTER@.len() == 16,
            forall|j: int| 0 <= j < k ==> ENGINE_TICKER_TYPES_COUNTER@[j] != t,
            forall|j: int|
                0 <= j < ENGINE_TICKER_TYPES_COUNTER@.len() ==> slot(
                    #[trigger] ENGINE_TICKER_TYPES_COUNTER@[j],
                ) == ENGINE_TICKER_TYPES_GAUGE@.len() + j,
        decreases ENGINE_TICKER_TYPES_COUNTER@.len() - k,
    {
        if ENGINE_TICKER_TYPES_COUNTER[k] == t {
            return ENGINE_TICKER_TYPES_GAUGE.len() + k;
        }
        k += 1;
    }
    proof {
        lemma_ticker_lists_follow_kind(t);
        assert(false);
    }
    0
}

/// The two lists divide the tickers between them by kind: the list of
/// cumulative tickers holds exactly the tickers of gauge families, the list
/// of delta tickers exactly those of counter families.
pub proof fn lemma_ticker_lists_follow_kind(t: TickerType)
    ensures
        ENGINE_TICKER_TYPES_GAUGE@.contains(t) <==> t.spec_kind() == MetricKind::Gauge,
        ENGINE_TICKER_TYPES_COUNTER@.contains(t) <==> t.spec_kind() == MetricKind::Counter,
{
    if t.spec_kind() == MetricKind::Gauge {
        assert(ENGINE_TICKER_TYPES_GAUGE@[position(t)] == t);
    } else {
        assert(ENGINE_TICKER_TYPES_COUNTER@[position(t)] == t);
    }
    assert forall|i: int| 0 <= i < ENGINE_TICKER_TYPES_GAUGE@.len() implies (
    #[trigger] ENGINE_TICKER_TYPES_GAUGE@[i]).spec_kind() == MetricKind::Gauge by {
        assert(position(ENGINE_TICKER_TYPES_GAUGE@[i]) == i);
    }
    assert forall|i: int| 0 <= i < ENGINE_TICKER_TYPES_COUNTER@.len() implies (
    #[trigger] ENGINE_TICKER_TYPES_COUNTER@[i]).spec_kind() == MetricKind::Counter by {
        assert(position(ENGINE_TICKER_TYPES_COUNTER@[i]) == i);
    }
}

/// Neither list names a ticker twice.
pub proof fn lemma_ticker_lists_have_no_duplicates()
    ensures
        ENGINE_TICKER_TYPES_GAUGE@.no_duplicates(),
        ENGINE_TICKER_TYPES_COUNTER@.no_duplicates(),
{
    assert forall|i: int| 0 <= i < ENGINE_TICKER_TYPES_GAUGE@.len() implies position(
        #[trigger] ENGINE_TICKER_TYPES_GAUGE@[i],
    ) == i by {}
    assert forall|i: int| 0 <= i < ENGINE_TICKER_TYPES_COUNTER@.len() implies position(
        #[trigger] ENGINE_TICKER_TYPES_COUNTER@[i],
    ) == i by {}
}

} // verus!
