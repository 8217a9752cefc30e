//! Foundation types shared by the B-tree, catalog and checkpoint code:
//! block numbers, transaction and undo identifiers, on-page bit fields and
//! the small enums that describe tree operations.
//!
//! Every packed field is described by a spec function over the raw word, so
//! that accessors, setters and constructors can be stated and related to one
//! another exactly.
use vstd::arithmetic::power2::{lemma2_to64, lemma2_to64_rest, lemma_pow2_unfold, pow2};
use vstd::bits::{lemma_usize_low_bits_mask_is_mod, low_bits_mask};
use vstd::prelude::*;

verus! {

// ============================================================================
// Engine constants
// ============================================================================

/// Size of an OrioleDB page in bytes.
pub const ORIOLEDB_BLCKSZ: usize = 8192;

/// Size of one compressed page chunk on disk.
pub const ORIOLEDB_COMP_BLCKSZ: usize = 512;

/// Maximum B-tree depth.
pub const ORIOLEDB_MAX_DEPTH: usize = 32;

/// Number of meta-page LWLocks.
pub const BTREE_NUM_META_LWLOCKS: usize = 128;

/// OrioleDB WAL resource manager ID.
pub const ORIOLEDB_RMGR_ID: u8 = 129;

/// Number of usage-count levels in the UCM.
pub const UCM_USAGE_LEVELS: u8 = 7;

/// Invalid usage-count level.
pub const UCM_INVALID_LEVEL: u8 = 0xF;

/// Free-pages level in the UCM.
pub const UCM_FREE_PAGES_LEVEL: u8 = 0x7;

/// Total number of UCM levels including free.
pub const UCM_LEVELS: u8 = 8;

/// Maximum number of concurrently locked pages per process.
pub const MAX_PAGES_PER_PROCESS: usize = 8;

/// Number of sequential-scan slots per meta page.
pub const NUM_SEQ_SCANS_ARRAY_SIZE: usize = 32;

/// Size in bytes of the fixed part of `BTreePageHeader` as laid out on a
/// page (the chunk descriptor array starts right after it).
pub const BTREE_PAGE_HEADER_SIZE: usize = 56;

/// Size of a `LocationIndex` entry in bytes.
pub const LOCATION_INDEX_SIZE: usize = 2;

/// Size of a `BTreePageChunkDesc` in bytes.
pub const CHUNK_DESC_SIZE: usize = 4;

/// Maximum items that can fit on a page:
/// `(BLCKSZ - header) / (align(LocationIndex) + size(LocationIndex))`.
pub const BTREE_PAGE_MAX_ITEMS: usize = (ORIOLEDB_BLCKSZ - BTREE_PAGE_HEADER_SIZE) / (
LOCATION_INDEX_SIZE + LOCATION_INDEX_SIZE);

/// Maximum chunks per page:
/// `(512 - offset(chunkDesc)) / (align(ChunkDesc) + size(ChunkDesc))`.
pub const BTREE_PAGE_MAX_CHUNKS: usize = (512 - BTREE_PAGE_HEADER_SIZE) / (CHUNK_DESC_SIZE
    + CHUNK_DESC_SIZE);

/// Maximum items a single chunk can hold.
pub const BTREE_PAGE_MAX_CHUNK_ITEMS: usize = ORIOLEDB_BLCKSZ / (1 + LOCATION_INDEX_SIZE);

/// Maximum items for split operations.
pub const BTREE_PAGE_MAX_SPLIT_ITEMS: usize = 2 * BTREE_PAGE_MAX_CHUNK_ITEMS;

/// Minimum page pool size in pages.
pub const PPOOL_MIN_SIZE: usize = 1024;

/// Number of page-pool reserve kinds.
pub const PPOOL_RESERVE_COUNT: usize = 4;

/// Reserve kinds of the page pool.
#[derive(Clone, Copy, Debug, PartialEq, Eq, Structural)]
pub enum PagePoolReserveKind {
    Meta,
    Insert,
    Find,
    SharedInfoInsert,
}

// ============================================================================
// Core integer aliases
// ============================================================================

/// B-tree page block number stored in memory.
///
/// Bit 31 tells whether the page is in local memory; bits 0-30 are the block
/// number within the shared buffer pool.
pub type OInMemoryBlkno = u32;

/// Invalid sentinel for `OInMemoryBlkno`.
pub const O_INVALID_IN_MEMORY_BLKNO: OInMemoryBlkno = 0xFFFFFFFF;

/// Mask to extract the local block number from an `OInMemoryBlkno`.
pub const O_BLKNO_MASK: OInMemoryBlkno = 0x7FFFFFFF;

/// Returns `true` if the block number refers to a local (backend-private) page.
pub fn o_page_is_local(blkno: OInMemoryBlkno) -> (r: bool)
    ensures
        r == (blkno >= 0x8000_0000),
{
    let r = (blkno >> 31u32) != 0;
    assert(((blkno >> 31u32) != 0) == (blkno >= 0x8000_0000)) by (bit_vector);
    r
}

/// Returns `true` if `blkno` is a valid (non-sentinel) block number.
pub fn o_in_memory_blkno_is_valid(blkno: OInMemoryBlkno) -> (r: bool)
    ensures
        r == (blkno != O_INVALID_IN_MEMORY_BLKNO),
{
    blkno != O_INVALID_IN_MEMORY_BLKNO
}

/// Root page block number stored in a tree descriptor.
pub type ORootPageBlkno = OInMemoryBlkno;

/// Meta page block number.
pub type OMetaPageBlkno = OInMemoryBlkno;

/// Transaction identifier (64-bit).
pub type OXid = u64;

/// Invalid Oxid value.
pub const INVALID_OXID: OXid = 0x7FFFFFFFFFFFFFFF;

/// Returns `true` if `oxid` is valid.
pub fn oxid_is_valid(oxid: OXid) -> (r: bool)
    ensures
        r == (oxid != INVALID_OXID),
{
    oxid != INVALID_OXID
}

/// LXID used for local transactions.
pub const LXID_NORMAL_FROM: i32 = 1;

/// 64-bit undo location.
pub type UndoLocation = u64;

/// Invalid undo location (the flag bit 61).
pub const INVALID_UNDO_LOCATION: UndoLocation = 0x2000000000000000;

/// Maximum undo location.
pub const MAX_UNDO_LOCATION: UndoLocation = 0x1FFFFFFFFFFFFFFE;

/// Mask for the undo value bits.
pub const UNDO_LOCATION_VALUE_MASK: UndoLocation = 0x1FFFFFFFFFFFFFFF;

/// Sentinel for a pending secondary-key undo location meaning "self-created table".
pub const WAITING_SK_UNDO_LOC: UndoLocation = 0x2000000000000001;

/// Returns `true` if `loc` is a valid undo location, i.e. its invalid-flag
/// bit (bit 61) is clear.
pub fn undo_location_is_valid(loc: UndoLocation) -> (r: bool)
    ensures
        r == ((loc & INVALID_UNDO_LOCATION) == 0),
{
    (loc & INVALID_UNDO_LOCATION) == 0
}

/// Extracts the pure value from an undo location: its low 61 bits.
pub fn undo_location_get_value(loc: UndoLocation) -> (r: UndoLocation)
    ensures
        r == loc % 0x2000_0000_0000_0000,
{
    let r = loc & UNDO_LOCATION_VALUE_MASK;
    assert(loc & 0x1FFFFFFFFFFFFFFF == loc % 0x2000_0000_0000_0000) by (bit_vector);
    r
}

/// Commit sequence number type.
pub type CommitSeqNo = u64;

/// Placeholder for an uncommitted CSN.
pub const COMMITSEQNO_INPROGRESS: CommitSeqNo = 0;

/// Placeholder for a frozen (already committed) CSN.
pub const COMMITSEQNO_FROZEN: CommitSeqNo = 3;

/// Returns `true` if `csn` represents a normal value: neither the
/// in-progress nor the frozen placeholder.
pub fn commitseqno_is_normal(csn: CommitSeqNo) -> (r: bool)
    ensures
        r == (csn != COMMITSEQNO_INPROGRESS && csn != COMMITSEQNO_FROZEN),
{
    csn != COMMITSEQNO_INPROGRESS && csn != COMMITSEQNO_FROZEN
}

/// Returns `true` if `csn` is in-progress (uncommitted).
pub fn commitseqno_is_inprogress(csn: CommitSeqNo) -> (r: bool)
    ensures
        r == (csn == COMMITSEQNO_INPROGRESS),
{
    csn == COMMITSEQNO_INPROGRESS
}

/// 16-bit offset number.
pub type OffsetNumber = u16;

/// Location index: signed 16-bit offset/length within a page.
pub type LocationIndex = i16;

/// 16-bit index number.
pub type OIndexNumber = u16;

/// Primary index number.
pub const PRIMARY_INDEX_NUMBER: OIndexNumber = 0;

/// Bridge index number.
pub const BRIDGE_INDEX_NUMBER: OIndexNumber = 0xFFFD;

/// TOAST index number.
pub const TOAST_INDEX_NUMBER: OIndexNumber = 0xFFFE;

/// Invalid index number.
pub const INVALID_INDEX_NUMBER: OIndexNumber = 0xFFFF;

// ============================================================================
// Oids
// ============================================================================

/// Object identifier.
pub type OdbOid = u32;

/// The invalid object identifier.
pub const INVALID_OID: OdbOid = 0;

/// Returns `true` if `oid` is valid (non-zero).
pub fn oid_is_valid(oid: OdbOid) -> (r: bool)
    ensures
        r == (oid != INVALID_OID),
{
    oid != INVALID_OID
}

/// Triple that identifies an OrioleDB relation across shared memory.
#[derive(Clone, Copy, Debug, PartialEq, Eq, Structural)]
pub struct ORelOids {
    /// Database OID.
    pub datoid: OdbOid,
    /// Relation OID.
    pub reloid: OdbOid,
    /// Relation node number.
    pub relnode: OdbOid,
}

impl ORelOids {
    /// All three components are valid.
    pub open spec fn spec_valid(self) -> bool {
        self.datoid != INVALID_OID && self.reloid != INVALID_OID && self.relnode != INVALID_OID
    }

    /// Returns `true` if all three components are valid.
    pub fn is_valid(&self) -> (r: bool)
        ensures
            r == self.spec_valid(),
    {
        oid_is_valid(self.datoid) && oid_is_valid(self.reloid) && oid_is_valid(self.relnode)
    }

    /// Sets all three fields to invalid.
    pub fn set_invalid(&mut self)
        ensures
            *final(self) == (ORelOids { datoid: INVALID_OID, reloid: INVALID_OID, relnode: INVALID_OID }),
    {
        self.datoid = INVALID_OID;
        self.reloid = INVALID_OID;
        self.relnode = INVALID_OID;
    }

    /// Returns `true` if the two triples are equal component-wise.
    pub fn is_equal(&self, other: &Self) -> (r: bool)
        ensures
            r == (*self == *other),
    {
        self.datoid == other.datoid && self.reloid == other.reloid && self.relnode
            == other.relnode
    }

    /// Returns `true` if any field is invalid.
    pub fn is_invalid(&self) -> (r: bool)
        ensures
            r == !self.spec_valid(),
    {
        !self.is_valid()
    }
}

/// Returns `true` if all three components of `oids` are valid.
pub fn orel_oids_is_valid(oids: &ORelOids) -> (r: bool)
    ensures
        r == oids.spec_valid(),
{
    oids.is_valid()
}

// ============================================================================
// OIndexType
// ============================================================================

/// Kind of index.
#[derive(Clone, Copy, Debug, PartialEq, Eq, Structural)]
pub enum OIndexType {
    Invalid,
    Toast,
    Bridge,
    Primary,
    Unique,
    Regular,
    Exclusion,
}

// ============================================================================
// FileExtent
// ============================================================================

/// An on-disk file extent: length in 512-byte chunks and byte offset.
#[derive(Clone, Copy, Debug, PartialEq, Eq, Structural)]
pub struct FileExtent {
    /// Length in 512-byte chunks.
    pub len: u16,
    /// File offset (48 significant bits).
    pub off: u64,
}

/// Invalid file extent length.
pub const INVALID_FILE_EXTENT_LEN: u16 = 0;

/// Invalid file extent offset.
pub const INVALID_FILE_EXTENT_OFF: u64 = 0xFFFF_FFFF_FFFF;

impl Default for FileExtent {
    /// The all-zero extent.
    fn default() -> (r: Self)
        ensures
            r == (FileExtent { len: 0, off: 0 }),
    {
        FileExtent { len: 0, off: 0 }
    }
}

impl FileExtent {
    /// Returns `true` if `len` is a valid extent length.
    pub fn len_is_valid(len: u16) -> (r: bool)
        ensures
            r == (len != INVALID_FILE_EXTENT_LEN),
    {
        len != 0
    }

    /// Returns `true` if `off` is a valid extent offset.
    pub fn off_is_valid(off: u64) -> (r: bool)
        ensures
            r == (off != INVALID_FILE_EXTENT_OFF),
    {
        off != 0xFFFF_FFFF_FFFF
    }

    /// Returns `true` if both length and offset are valid.
    pub fn is_valid(&self) -> (r: bool)
        ensures
            r == (self.len != INVALID_FILE_EXTENT_LEN && self.off != INVALID_FILE_EXTENT_OFF),
    {
        Self::len_is_valid(self.len) && Self::off_is_valid(self.off)
    }
}

// ============================================================================
// OCompress
// ============================================================================

/// Compression level type.
pub type OCompress = i32;

/// Default compression level.
pub const O_COMPRESS_DEFAULT: OCompress = 10;

/// Invalid compression level.
pub const INVALID_O_COMPRESS: OCompress = -1;

/// Returns `true` if `compress` is a valid level.
pub fn o_compress_is_valid(compress: OCompress) -> (r: bool)
    ensures
        r == (compress != INVALID_O_COMPRESS),
{
    compress != INVALID_O_COMPRESS
}

// ============================================================================
// UndoLogType
// ============================================================================

/// Which undo log a record belongs to.
#[derive(Clone, Copy, Debug, PartialEq, Eq, Structural)]
pub enum UndoLogType {
    /// Invalid / none.
    Invalid,
    /// Row-level user-data modifications.
    Regular,
    /// Page-level user-data modifications.
    RegularPageLevel,
    /// System-tree modifications.
    System,
}

/// Number of real undo logs (all kinds but `Invalid`).
pub const UNDO_LOG_TYPE_COUNT: usize = 3;

impl UndoLogType {
    /// The page-level counterpart of an undo type: `Regular` maps to
    /// `RegularPageLevel`, every other type maps to itself.
    pub open spec fn spec_page_level(self) -> UndoLogType {
        if self == UndoLogType::Regular {
            UndoLogType::RegularPageLevel
        } else {
            self
        }
    }

    /// Returns the page-level undo type corresponding to this one.
    pub fn get_page_level(self) -> (r: UndoLogType)
        ensures
            r == self.spec_page_level(),
    {
        match self {
            UndoLogType::Regular => UndoLogType::RegularPageLevel,
            other => other,
        }
    }
}

/// Maps a regular undo type to its page-level counterpart.
pub fn get_page_level_undo_type(undo_type: UndoLogType) -> (r: UndoLogType)
    ensures
        r == undo_type.spec_page_level(),
{
    undo_type.get_page_level()
}

// ============================================================================
// Page state word
// ============================================================================

/// Bit set when the page is locked.
pub const PAGE_STATE_LOCKED_FLAG: u64 = 0x0000_0000_0004_0000;

/// Bit set when reads to the page are blocked.
pub const PAGE_STATE_NO_READ_FLAG: u64 = 0x0000_0000_0008_0000;

/// Bit set when the change count is known to be exactly one waiter.
pub const PAGE_STATE_CHANGE_COUNT_ONE: u64 = 0x0000_0000_0010_0000;

/// Mask for the change-count bits.
pub const PAGE_STATE_CHANGE_COUNT_MASK: u64 = 0x000F_FFFF_FFFF_0000;

/// Mask for change-count bits excluding waiters.
pub const PAGE_STATE_CHANGE_NON_WAITERS_MASK: u64 = 0x000F_FFFF_FFFC_0000;

/// Mask for the usage-count field (4 bits at bit 52).
pub const PAGE_STATE_CHANGE_USAGE_COUNT_MASK: u64 = 0x00F0_0000_0000_0000;

/// Single unit for the usage count.
pub const PAGE_STATE_CHANGE_USAGE_COUNT_ONE: u64 = 0x0010_0000_0000_0000;

/// Shift for the usage-count field.
pub const PAGE_STATE_CHANGE_USAGE_COUNT_SHIFT: u32 = 52;

/// Mask for the list-tail process number.
pub const PAGE_STATE_LIST_TAIL_MASK: u64 = 0x0000_0000_0003_FFFF;

/// An invalid process number used as a sentinel.
pub const PAGE_STATE_INVALID_PROCNO: u64 = 0x0000_0000_0003_FFFF;

/// In-memory header of every OrioleDB shared page: the state word, the
/// change counter and the checkpoint number of the last write.
#[derive(Clone, Copy, Debug, PartialEq, Eq, Structural)]
pub struct OrioleDBPageHeader {
    /// State word (lock, usage count, change count, ...).
    pub state: u64,
    /// Monotonically increasing change counter.
    pub page_change_count: u32,
    /// Checkpoint number when the page was last written to disk.
    pub checkpoint_num: u32,
}

/// On-disk header of an OrioleDB page; the same size as `OrioleDBPageHeader`.
#[derive(Clone, Copy, Debug, PartialEq, Eq, Structural)]
pub struct OrioleDBOndiskPageHeader {
    /// Checkpoint number.
    pub checkpoint_num: u32,
    /// Compressed page size (zero for uncompressed pages).
    pub compress_page_size: u16,
    /// Compression format version (zero for uncompressed pages).
    pub compress_version: u8,
    /// Version of the binary page format.
    pub page_version: u8,
    /// Reserved.
    pub reserved1: u32,
    /// Reserved.
    pub reserved2: u32,
}

/// Size of an OrioleDB page header (both in-memory and on-disk forms).
pub const O_PAGE_HEADER_SIZE: usize = 16;

/// Maximum change count.
pub const O_PAGE_CHANGE_COUNT_MAX: u32 = 0x7FFFFFFF;

/// Invalid / sentinel change count.
pub const INVALID_O_PAGE_CHANGE_COUNT: u32 = O_PAGE_CHANGE_COUNT_MAX;

/// Returns the change count of a page header.
pub fn o_page_get_change_count(page_change_count: u32) -> (r: u32)
    ensures
        r == page_change_count,
{
    page_change_count
}

/// Which page pool a page belongs to.
#[derive(Clone, Copy, Debug, PartialEq, Eq, Structural)]
pub enum OPagePoolType {
    Main,
    FreeTree,
    Catalog,
}

/// Number of page pools.
pub const O_PAGE_POOL_TYPES_COUNT: usize = 3;

// ============================================================================
// OTuple
// ============================================================================

/// A tuple handed around by the B-tree: the address of its data (zero for
/// the null tuple) and its format flags.
#[derive(Clone, Copy, Debug, PartialEq, Eq, Structural)]
pub struct OTuple {
    /// Address of the tuple data; zero means the null tuple.
    pub data: usize,
    /// Format flags of the tuple.
    pub format_flags: u8,
}

impl OTuple {
    /// Returns `true` if this tuple is null.
    pub fn is_null(&self) -> (r: bool)
        ensures
            r == (self.data == 0),
    {
        self.data == 0
    }

    /// Sets this tuple to null.
    pub fn set_null(&mut self)
        ensures
            *final(self) == (OTuple { data: 0, format_flags: 0 }),
    {
        self.data = 0;
        self.format_flags = 0;
    }
}

// ============================================================================
// Transaction info word
// ============================================================================

/// Bit-packed transaction info stored inside leaf tuples.
pub type OTupleXactInfo = u64;

/// Lock-only flag (bit 60).
pub const XACT_INFO_LOCK_ONLY_BIT: u64 = 0x1000_0000_0000_0000;

/// Mask for the lock mode (bits 61-62).
pub const XACT_INFO_LOCK_MODE_MASK: u64 = 0x6000_0000_0000_0000;

/// Mask for the Oxid (bits 0-59).
pub const XACT_INFO_LOCK_OXID_MASK: u64 = 0x0FFF_FFFF_FFFF_FFFF;

/// Shift for the lock mode.
pub const XACT_INFO_LOCK_MODE_SHIFT: u32 = 61;

/// Returns `true` if `xact_info` is a lock-only entry (bit 60 set).
pub fn xact_info_is_lock_only(xact_info: OTupleXactInfo) -> (r: bool)
    ensures
        r == ((xact_info / 0x1000_0000_0000_0000) % 2 == 1),
{
    let r = (xact_info & XACT_INFO_LOCK_ONLY_BIT) != 0;
    assert(((xact_info & 0x1000_0000_0000_0000) != 0) == ((xact_info / 0x1000_0000_0000_0000)
        % 2 == 1)) by (bit_vector);
    r
}

/// Extracts the Oxid from a transaction info word: its low 60 bits.
pub fn xact_info_get_oxid(xact_info: OTupleXactInfo) -> (r: OXid)
    ensures
        r == xact_info % 0x1000_0000_0000_0000,
{
    let r = xact_info & XACT_INFO_LOCK_OXID_MASK;
    assert(xact_info & 0x0FFF_FFFF_FFFF_FFFF == xact_info % 0x1000_0000_0000_0000) by (bit_vector);
    r
}

/// Extracts the lock mode from a transaction info word: bits 61-62.
pub fn xact_info_get_lock_mode(xact_info: OTupleXactInfo) -> (r: u64)
    ensures
        r == (xact_info / 0x2000_0000_0000_0000) % 4,
{
    let r = (xact_info & XACT_INFO_LOCK_MODE_MASK) >> XACT_INFO_LOCK_MODE_SHIFT;
    assert((xact_info & 0x6000_0000_0000_0000) >> 61u32 == (xact_info / 0x2000_0000_0000_0000)
        % 4) by (bit_vector);
    r
}

/// What length is being measured.
#[derive(Clone, Copy, Debug, PartialEq, Eq, Structural)]
pub enum OLengthType {
    Tuple,
    Key,
    TupleKey,
    TupleKeyNoVersion,
}

/// Tag of the storage manager union.
#[derive(Clone, Copy, Debug, PartialEq, Eq, Structural)]
pub enum SmgrTag {
    Array,
    S3Hash,
}

// ============================================================================
// BTreeRootInfo
// ============================================================================

/// Cached location of the root and meta pages of a B-tree.
#[derive(Clone, Copy, Debug, PartialEq, Eq, Structural)]
pub struct BTreeRootInfo {
    /// Block number of the root page.
    pub root_page_blkno: OInMemoryBlkno,
    /// Change count of the root page.
    pub root_page_change_count: u32,
    /// Block number of the meta page.
    pub meta_page_blkno: OInMemoryBlkno,
}

impl Default for BTreeRootInfo {
    /// The all-zero root information.
    fn default() -> (r: Self)
        ensures
            r == (BTreeRootInfo { root_page_blkno: 0, root_page_change_count: 0, meta_page_blkno: 0 }),
    {
        BTreeRootInfo { root_page_blkno: 0, root_page_change_count: 0, meta_page_blkno: 0 }
    }
}

impl BTreeRootInfo {
    /// Returns `true` if the root page block number is valid.
    pub fn root_page_is_valid(&self) -> (r: bool)
        ensures
            r == (self.root_page_blkno != O_INVALID_IN_MEMORY_BLKNO),
    {
        o_in_memory_blkno_is_valid(self.root_page_blkno)
    }

    /// Returns `true` if the meta page block number is valid.
    pub fn meta_page_is_valid(&self) -> (r: bool)
        ensures
            r == (self.meta_page_blkno != O_INVALID_IN_MEMORY_BLKNO),
    {
        o_in_memory_blkno_is_valid(self.meta_page_blkno)
    }
}

/// Persistence semantics of a B-tree.
#[derive(Clone, Copy, Debug, PartialEq, Eq, Structural)]
pub enum BTreeStorageType {
    /// In-memory only; no eviction, no checkpoint.
    InMemory,
    /// Pages can be evicted to disk but no checkpoint support.
    Temporary,
    /// Checkpoint + eviction, but no WAL for data modifications.
    Unlogged,
    /// Full persistence: checkpoint + eviction + WAL.
    Persistence,
}

/// Type of key being compared.
#[derive(Clone, Copy, Debug, PartialEq, Eq, Structural)]
pub enum BTreeKeyType {
    /// Complete tuple stored in a leaf page.
    LeafTuple,
    /// Key in non-leaf pages for navigation.
    NonLeafKey,
    /// Search boundary key for range scans.
    Bound,
    /// Lower bound for unique constraint checking.
    UniqueLowerBound,
    /// Upper bound for unique constraint checking.
    UniqueUpperBound,
    /// Requests the leftmost item/page (no key is compared).
    NoKey,
    /// High key boundary of a B-tree page.
    PageHiKey,
    /// Requests the rightmost item/page.
    Rightmost,
}

impl BTreeKeyType {
    /// The bound-type keys: `Bound`, `UniqueLowerBound` and `UniqueUpperBound`.
    pub open spec fn spec_is_bound(self) -> bool {
        self == BTreeKeyType::Bound || self == BTreeKeyType::UniqueLowerBound || self
            == BTreeKeyType::UniqueUpperBound
    }

    /// Returns `true` if this is a bound-type key.
    pub fn is_bound(self) -> (r: bool)
        ensures
            r == self.spec_is_bound(),
    {
        match self {
            BTreeKeyType::Bound | BTreeKeyType::UniqueLowerBound
            | BTreeKeyType::UniqueUpperBound => true,
            _ => false,
        }
    }
}

/// Returns `true` if `key_type` is a bound-type key.
pub fn is_bound_key_type(key_type: BTreeKeyType) -> (r: bool)
    ensures
        r == key_type.spec_is_bound(),
{
    key_type.is_bound()
}

/// Type of a tree modification.
#[derive(Clone, Copy, Debug, PartialEq, Eq, Structural)]
pub enum BTreeOperationType {
    Insert,
    Lock,
    Update,
    Delete,
}

/// Deletion marker of a leaf tuple.
#[derive(Clone, Copy, Debug, PartialEq, Eq, Structural)]
pub enum BTreeLeafTupleDeletedStatus {
    NonDeleted,
    Deleted,
    MovedPartitions,
    PkChanged,
}

// ============================================================================
// S3 parts, free extents
// ============================================================================

/// Maximum number of dirty S3 parts per descriptor.
pub const MAX_NUM_DIRTY_PARTS: usize = 4;

/// Dirty part info for a single segment/partition.
#[derive(Clone, Copy, Debug, PartialEq, Eq, Structural)]
pub struct BTreeDirtyPart {
    pub chkp_num: u32,
    pub seg_num: i32,
    pub part_num: i32,
}

/// Pending data file parts to be synchronized with S3.
#[derive(Clone, Copy, Debug)]
pub struct BTreeS3PartsInfo {
    /// Dirty parts waiting for S3 upload.
    pub dirty_parts: [BTreeDirtyPart; 4],
    /// Maximum location among pending S3 writes.
    pub write_max_location: u64,
}

/// Backend-local free-extent list for temporary trees.
#[derive(Clone, Debug)]
pub struct BTreeLocalFreeExtents {
    /// The free extents.
    pub items: Vec<FileExtent>,
}

// ============================================================================
// BTreePageChunkDesc
// ============================================================================

/// Metadata stored alongside each chunk on a page, packed in 32 bits:
/// bits 0-11 short location, bits 12-21 offset, bits 22-28 hikey short
/// location, bit 29 chunk-keys-fixed flag, bits 30-31 hikey flags.
#[derive(Clone, Copy, Debug, PartialEq, Eq, Structural)]
pub struct BTreePageChunkDesc {
    packed: u32,
}

/// Multiplier converting a short location to a byte offset.
pub const SHORT_LOCATION_MULTIPLIER: u32 = 4;

/// Limit for the hikey short location.
pub const HIKEY_SHORT_LOCATION_LIMIT: u32 = 128 * SHORT_LOCATION_MULTIPLIER;

/// Short location: bits 0-11 of a packed chunk descriptor.
pub open spec fn chunk_short_location(packed: u32) -> u32 {
    packed & 0xFFF
}

/// Item offset: bits 12-21 of a packed chunk descriptor.
pub open spec fn chunk_offset(packed: u32) -> u32 {
    (packed >> 12u32) & 0x3FF
}

/// Hikey short location: bits 22-28 of a packed chunk descriptor.
pub open spec fn chunk_hikey_short_location(packed: u32) -> u32 {
    (packed >> 22u32) & 0x7F
}

/// Chunk-keys-fixed flag: bit 29 of a packed chunk descriptor.
pub open spec fn chunk_keys_fixed_bit(packed: u32) -> bool {
    (packed & 0x2000_0000) != 0
}

/// Hikey flags: bits 30-31 of a packed chunk descriptor.
pub open spec fn chunk_hikey_flags(packed: u32) -> u32 {
    (packed >> 30u32) & 0x3
}

impl BTreePageChunkDesc {
    /// The packed 32-bit word.
    pub closed spec fn spec_packed(self) -> u32 {
        self.packed
    }

    /// Create from a packed value.
    pub fn from_packed(packed: u32) -> (r: Self)
        ensures
            r.spec_packed() == packed,
    {
        Self { packed }
    }

    /// The raw packed value.
    pub fn packed(&self) -> (r: u32)
        ensures
            r == self.spec_packed(),
    {
        self.packed
    }

    /// A descriptor is its packed word: two descriptors with the same word
    /// are equal, so rebuilding a descriptor from its word gives it back.
    pub proof fn lemma_packed_determines(a: Self, b: Self)
        ensures
            a.spec_packed() == b.spec_packed() ==> a == b,
    {
    }

    /// Short location (bits 0-11).
    pub fn short_location(&self) -> (r: u32)
        ensures
            r == chunk_short_location(self.spec_packed()),
    {
        self.packed & 0xFFF
    }

    /// Offset of the chunk's first item (bits 12-21).
    pub fn offset(&self) -> (r: u32)
        ensures
            r == chunk_offset(self.spec_packed()),
    {
        (self.packed >> 12u32) & 0x3FF
    }

    /// Hikey short location (bits 22-28).
    pub fn hikey_short_location(&self) -> (r: u32)
        ensures
            r == chunk_hikey_short_location(self.spec_packed()),
    {
        (self.packed >> 22u32) & 0x7F
    }

    /// Chunk-keys-fixed flag (bit 29).
    pub fn chunk_keys_fixed(&self) -> (r: bool)
        ensures
            r == chunk_keys_fixed_bit(self.spec_packed()),
    {
        (self.packed & 0x2000_0000) != 0
    }

    /// Hikey flags (bits 30-31).
    pub fn hikey_flags(&self) -> (r: u32)
        ensures
            r == chunk_hikey_flags(self.spec_packed()),
    {
        (self.packed >> 30u32) & 0x3
    }
}

/// Convert a short location to a byte offset.
pub fn short_get_location(s: u32) -> (r: u32)
    requires
        s * 4 <= u32::MAX,
    ensures
        r == s * 4,
{
    s * SHORT_LOCATION_MULTIPLIER
}

/// Convert a byte location to its short form.
pub fn location_get_short(l: u32) -> (r: u32)
    ensures
        r == l / 4,
{
    l / 4
}

/// A chunk descriptor is exactly its five fields put together.
pub proof fn lemma_chunk_desc_fields_determine(packed: u32)
    ensures
        packed == chunk_short_location(packed) | (chunk_offset(packed) << 12u32) | (
        chunk_hikey_short_location(packed) << 22u32) | ((if chunk_keys_fixed_bit(packed) {
            1u32
        } else {
            0u32
        }) << 29u32) | (chunk_hikey_flags(packed) << 30u32),
{
    assert((packed & 0x2000_0000 != 0 ==> packed == (packed & 0xFFF) | (((packed >> 12u32)
        & 0x3FF) << 12u32) | (((packed >> 22u32) & 0x7F) << 22u32) | (1u32 << 29u32) | (((packed
        >> 30u32) & 0x3) << 30u32)) && (packed & 0x2000_0000 == 0 ==> packed == (packed & 0xFFF)
        | (((packed >> 12u32) & 0x3FF) << 12u32) | (((packed >> 22u32) & 0x7F) << 22u32) | (0u32
        << 29u32) | (((packed >> 30u32) & 0x3) << 30u32))) by (bit_vector);
}

/// A short location converted to a byte location and back is unchanged, and
/// a byte location that is a multiple of 4 survives the opposite trip.
pub proof fn lemma_short_location_roundtrip(s: u32, l: u32)
    ensures
        (s * 4) / 4 == s,
        l % 4 == 0 ==> (l / 4) * 4 == l,
{
}

/// A chunk of items stored contiguously on a page: its location-index array.
#[derive(Clone, Debug)]
pub struct BTreePageChunk {
    /// Item location indices.
    pub items: Vec<LocationIndex>,
}

// ============================================================================
// BTreePageItemLocator
// ============================================================================

/// Locator pointing at an item within a page's chunk structure.
#[derive(Clone, Copy, Debug, PartialEq, Eq, Structural)]
pub struct BTreePageItemLocator {
    /// Which chunk the item is in.
    pub chunk_offset: OffsetNumber,
    /// Which item within the chunk.
    pub item_offset: OffsetNumber,
    /// How many items are in this chunk.
    pub chunk_items_count: OffsetNumber,
    /// Total size of this chunk in bytes.
    pub chunk_size: LocationIndex,
    /// Byte location of the chunk within the page; `None` for no chunk.
    pub chunk: Option<usize>,
}

/// Item offset of a location-index entry: its low 14 bits.
pub open spec fn item_offset_of(item: LocationIndex) -> u32 {
    ((item as u16) & 0x3FFF) as u32
}

/// Item flags of a location-index entry: the entry shifted right
/// arithmetically by 14 bits and taken as `u32` (0 or 1 for non-negative
/// entries, `u32::MAX - 1` or `u32::MAX` for negative ones).
pub open spec fn item_flags_of(item: LocationIndex) -> u32 {
    if item >= 0 {
        (item / 16384) as u32
    } else {
        (item / 16384 + 0x1_0000_0000) as u32
    }
}

impl BTreePageItemLocator {
    /// Returns `true` if this locator points to an item of its chunk.
    pub fn is_valid(&self) -> (r: bool)
        ensures
            r == (self.chunk.is_some() && self.item_offset < self.chunk_items_count),
    {
        self.chunk.is_some() && self.item_offset < self.chunk_items_count
    }

    /// Sets this locator to point at no item.
    pub fn set_invalid(&mut self)
        ensures
            *final(self) == (BTreePageItemLocator {
                chunk: None,
                item_offset: 0,
                chunk_items_count: 0,
                ..*old(self)
            }),
    {
        self.chunk = None;
        self.item_offset = 0;
        self.chunk_items_count = 0;
    }

    /// The item offset stored in a location-index entry (low 14 bits).
    pub fn item_get_offset(item: LocationIndex) -> (r: u32)
        ensures
            r == item_offset_of(item),
            r < 16384,
    {
        let r = ((item as u16) & 0x3FFFu16) as u32;
        assert((item as u16) & 0x3FFFu16 < 16384) by (bit_vector);
        r
    }

    /// The flags stored in a location-index entry (bits 14 and up,
    /// shifted arithmetically).
    pub fn item_get_flags(item: LocationIndex) -> (r: u32)
        ensures
            r == item_flags_of(item),
    {
        let s: i16 = item >> 14u32;
        assert(item >> 14u32 == item / 16384) by (bit_vector);
        if item >= 0 {
            s as u32
        } else {
            (s as i64 + 0x1_0000_0000i64) as u32
        }
    }

    /// The item offset stored at index `item_offset` of a chunk's
    /// location-index array, or 0 when there is no chunk.
    pub fn item_get_offset_at(chunk: Option<&BTreePageChunk>, item_offset: OffsetNumber) -> (r:
        usize)
        requires
            chunk matches Some(c) ==> item_offset < c.items@.len(),
        ensures
            chunk is None ==> r == 0,
            chunk matches Some(c) ==> r == item_offset_of(c.items@[item_offset as int]),
    {
        match chunk {
            None => 0,
            Some(c) => Self::item_get_offset(c.items[item_offset as usize]) as usize,
        }
    }

    /// Sets (`flags == true`) or clears bit 14 of a location-index entry,
    /// leaving every other bit unchanged.
    pub fn item_set_flags(item: LocationIndex, flags: bool) -> (r: LocationIndex)
        ensures
            r == spec_item_set_flags(item, flags),
            ((r as u16) & 0x4000u16 != 0) == flags,
            (r as u16) & !0x4000u16 == (item as u16) & !0x4000u16,
    {
        let u: u16 = item as u16;
        let v: u16 = if flags {
            u | 0x4000u16
        } else {
            u & !0x4000u16
        };
        assert((u | 0x4000u16) & 0x4000u16 != 0 && (u & !0x4000u16) & 0x4000u16 == 0 && (u
            | 0x4000u16) & !0x4000u16 == u & !0x4000u16 && (u & !0x4000u16) & !0x4000u16 == u
            & !0x4000u16 && (v as i16) as u16 == v) by (bit_vector);
        v as i16
    }
}

/// A location-index entry with bit 14 set (`flags`) or cleared.
pub open spec fn spec_item_set_flags(item: LocationIndex, flags: bool) -> LocationIndex {
    if flags {
        ((item as u16) | 0x4000u16) as i16
    } else {
        ((item as u16) & !0x4000u16) as i16
    }
}

/// Setting or clearing the flag of a location-index entry keeps its item
/// offset, and the fixed-format flag then read back (bit 0 of the item
/// flags) is the one set.
pub proof fn lemma_item_set_flags_roundtrip(item: LocationIndex, flags: bool)
    ensures
        item_offset_of(spec_item_set_flags(item, flags)) == item_offset_of(item),
        (item_flags_of(spec_item_set_flags(item, flags)) % 2 == 1) == flags,
{
    let r = spec_item_set_flags(item, flags);
    let u = item as u16;
    assert(((((u | 0x4000u16) as i16) as u16) & 0x3FFFu16) == u & 0x3FFFu16 && ((((u
        & !0x4000u16) as i16) as u16) & 0x3FFFu16) == u & 0x3FFFu16 && (((u | 0x4000u16) as i16)
        as u16) & 0x4000u16 != 0 && (((u & !0x4000u16) as i16) as u16) & 0x4000u16 == 0)
        by (bit_vector);
    lemma_item_flags_bit14(r);
}

/// Bit 0 of the item flags of an entry is its bit 14.
pub proof fn lemma_item_flags_bit14(x: LocationIndex)
    ensures
        (item_flags_of(x) % 2 == 1) == ((x as u16) & 0x4000u16 != 0),
{
    assert(((0 <= x && x < 16384) ==> (x as u16) & 0x4000u16 == 0) && ((16384 <= x) ==> (x as u16)
        & 0x4000u16 != 0) && ((-16384 <= x && x < 0) ==> (x as u16) & 0x4000u16 != 0) && ((x
        < -16384) ==> (x as u16) & 0x4000u16 == 0)) by (bit_vector);
}

/// An item being operated on.
#[derive(Clone, Copy, Debug, PartialEq, Eq, Structural)]
pub struct BTreePageItem {
    /// Address of the item data.
    pub data: usize,
    /// Size of the item data.
    pub size: LocationIndex,
    /// Item flags.
    pub flags: u8,
}

/// Result of a page-fit check.
#[derive(Clone, Copy, Debug, PartialEq, Eq, Structural)]
pub enum BTreeItemPageFitType {
    /// Item fits without any changes.
    AsIs,
    /// Page needs compaction to fit the item.
    CompactRequired,
    /// Page needs splitting.
    SplitRequired,
}

// ============================================================================
// BTreePageHeader
// ============================================================================

/// Page is the leftmost page in its level.
pub const O_BTREE_FLAG_LEFTMOST: u32 = 0x0001;
/// Page is the rightmost page in its level.
pub const O_BTREE_FLAG_RIGHTMOST: u32 = 0x0002;
/// Page is a leaf page.
pub const O_BTREE_FLAG_LEAF: u32 = 0x0004;
/// Page is part of a split that has not yet completed.
pub const O_BTREE_FLAG_BROKEN_SPLIT: u32 = 0x0008;
/// Page is undergoing pre-cleanup.
pub const O_BTREE_FLAG_PRE_CLEANUP: u32 = 0x0010;
/// Page hikeys have been fixed up.
pub const O_BTREE_FLAG_HIKEYS_FIXED: u32 = 0x0020;

/// Combined flags for a freshly initialized root page.
pub const O_BTREE_FLAGS_ROOT_INIT: u32 = O_BTREE_FLAG_LEAF | O_BTREE_FLAG_RIGHTMOST
    | O_BTREE_FLAG_LEFTMOST;

/// Flag bits of the page bit field: bits 0-5.
pub open spec fn flags_low(f: u32) -> u32 {
    f & 0x3F
}

/// First counter of the page bit field (the level of non-leaf pages):
/// bits 6-16.
pub open spec fn flags_field1(f: u32) -> u32 {
    (f >> 6u32) & 0x7FF
}

/// Second counter of the page bit field (on-disk downlinks of non-leaf
/// pages, vacated bytes of leaf pages): bits 17-31.
pub open spec fn flags_field2(f: u32) -> u32 {
    (f >> 17u32) & 0x7FFF
}

/// The page bit field is exactly its three parts put together: no bit lies
/// outside the flags, the first counter and the second counter.
pub proof fn lemma_page_flags_decompose(f: u32)
    ensures
        f == flags_low(f) | (flags_field1(f) << 6u32) | (flags_field2(f) << 17u32),
        flags_low(f) < 0x40,
        flags_field1(f) < 0x800,
        flags_field2(f) < 0x8000,
{
    assert(f == (f & 0x3F) | (((f >> 6u32) & 0x7FF) << 6u32) | (((f >> 17u32) & 0x7FFF)
        << 17u32) && (f & 0x3F) < 0x40 && ((f >> 6u32) & 0x7FF) < 0x800 && ((f >> 17u32)
        & 0x7FFF) < 0x8000) by (bit_vector);
}

/// The bit field `f` with its first counter replaced by `v & 0x7FF`.
fn flags_with_field1(f: u32, v: u32) -> (r: u32)
    ensures
        flags_low(r) == flags_low(f),
        flags_field1(r) == v & 0x7FF,
        flags_field2(r) == flags_field2(f),
{
    let r = (f & !(0x7FFu32 << 6u32)) | ((v & 0x7FF) << 6u32);
    assert(((((f & !(0x7FFu32 << 6u32)) | ((v & 0x7FF) << 6u32)) & 0x3F) == f & 0x3F) && (((((f
        & !(0x7FFu32 << 6u32)) | ((v & 0x7FF) << 6u32)) >> 6u32) & 0x7FF) == v & 0x7FF) && (((((f
        & !(0x7FFu32 << 6u32)) | ((v & 0x7FF) << 6u32)) >> 17u32) & 0x7FFF) == (f >> 17u32)
        & 0x7FFF)) by (bit_vector);
    r
}

/// The bit field `f` with its second counter replaced by `v & 0x7FFF`.
fn flags_with_field2(f: u32, v: u32) -> (r: u32)
    ensures
        flags_low(r) == flags_low(f),
        flags_field1(r) == flags_field1(f),
        flags_field2(r) == v & 0x7FFF,
{
    let r = (f & !(0x7FFFu32 << 17u32)) | ((v & 0x7FFF) << 17u32);
    assert(((((f & !(0x7FFFu32 << 17u32)) | ((v & 0x7FFF) << 17u32)) & 0x3F) == f & 0x3F) && (((((f
        & !(0x7FFFu32 << 17u32)) | ((v & 0x7FFF) << 17u32)) >> 6u32) & 0x7FF) == (f >> 6u32)
        & 0x7FF) && (((((f & !(0x7FFFu32 << 17u32)) | ((v & 0x7FFF) << 17u32)) >> 17u32)
        & 0x7FFF) == v & 0x7FFF)) by (bit_vector);
    r
}

/// Header of a B-tree data page (the fixed part; the chunk descriptors
/// follow it on the page).
#[derive(Clone, Copy, Debug, PartialEq, Eq, Structural)]
pub struct BTreePageHeader {
    /// Common page header.
    pub o_header: OrioleDBPageHeader,
    /// Link to the page-level undo item.
    pub undo_location: UndoLocation,
    /// Commit sequence number.
    pub csn: CommitSeqNo,
    /// Right-page link.
    pub right_link: u64,
    /// Bit field: bits 0-5 flags, bits 6-16 first counter, bits 17-31
    /// second counter.
    pub flags: u32,
    /// Maximum key length on this page.
    pub max_key_len: LocationIndex,
    /// Offset of the previous insert.
    pub prev_insert_offset: OffsetNumber,
    /// Number of chunks.
    pub chunks_count: OffsetNumber,
    /// Number of items.
    pub items_count: OffsetNumber,
    /// Offset after the last hikey.
    pub hikeys_end: OffsetNumber,
    /// Total data size on this page.
    pub data_size: LocationIndex,
}

/// The end of the hikeys area of a page: 256 bytes on leaf pages, 512 on
/// non-leaf pages.
pub open spec fn spec_hikeys_end(is_leaf: bool) -> u16 {
    if is_leaf {
        256
    } else {
        512
    }
}

/// Returns the hikeys end value for a page (256 for leaf, 512 for non-leaf).
pub fn btree_page_hikeys_end(is_leaf: bool) -> (r: u16)
    ensures
        r == spec_hikeys_end(is_leaf),
{
    if is_leaf {
        256
    } else {
        512
    }
}

impl BTreePageHeader {
    /// Returns `true` if the page has one of the bits of `flag` set.
    pub fn has_flag(&self, flag: u32) -> (r: bool)
        ensures
            r == (self.flags & flag != 0),
    {
        (self.flags & flag) != 0
    }

    /// Returns `true` if this is a leaf page.
    pub fn is_leaf(&self) -> (r: bool)
        ensures
            r == (self.flags & O_BTREE_FLAG_LEAF != 0),
    {
        self.has_flag(O_BTREE_FLAG_LEAF)
    }

    /// Returns `true` if this is the leftmost page.
    pub fn is_leftmost(&self) -> (r: bool)
        ensures
            r == (self.flags & O_BTREE_FLAG_LEFTMOST != 0),
    {
        self.has_flag(O_BTREE_FLAG_LEFTMOST)
    }

    /// Returns `true` if this is the rightmost page.
    pub fn is_rightmost(&self) -> (r: bool)
        ensures
            r == (self.flags & O_BTREE_FLAG_RIGHTMOST != 0),
    {
        self.has_flag(O_BTREE_FLAG_RIGHTMOST)
    }

    /// Returns `true` if this page is part of a broken split.
    pub fn is_broken_split(&self) -> (r: bool)
        ensures
            r == (self.flags & O_BTREE_FLAG_BROKEN_SPLIT != 0),
    {
        self.has_flag(O_BTREE_FLAG_BROKEN_SPLIT)
    }

    /// Returns `true` if hikeys have been fixed.
    pub fn hikeys_fixed(&self) -> (r: bool)
        ensures
            r == (self.flags & O_BTREE_FLAG_HIKEYS_FIXED != 0),
    {
        self.has_flag(O_BTREE_FLAG_HIKEYS_FIXED)
    }

    /// The number of items on the page.
    pub fn items_count(&self) -> (r: OffsetNumber)
        ensures
            r == self.items_count,
    {
        self.items_count
    }

    /// The right link.
    pub fn right_link(&self) -> (r: u64)
        ensures
            r == self.right_link,
    {
        self.right_link
    }

    /// The page level (first counter of the bit field).
    pub fn level(&self) -> (r: u16)
        ensures
            r == flags_field1(self.flags),
            r < 0x800,
    {
        let f = self.flags;
        let v = (f >> 6u32) & 0x7FF;
        assert((f >> 6u32) & 0x7FF < 0x800) by (bit_vector);
        v as u16
    }

    /// Sets the page level to `level` (kept to its low 11 bits); nothing
    /// else in the header changes.
    pub fn set_level(&mut self, level: u16)
        ensures
            flags_field1(final(self).flags) == level as u32 % 0x800,
            flags_low(final(self).flags) == flags_low(old(self).flags),
            flags_field2(final(self).flags) == flags_field2(old(self).flags),
            *final(self) == (BTreePageHeader { flags: final(self).flags, ..*old(self) }),
    {
        let l = level as u32;
        assert(l & 0x7FF == l % 0x800) by (bit_vector);
        self.flags = flags_with_field1(self.flags, l);
    }

    /// The number of on-disk downlinks (second counter of the bit field).
    pub fn n_ondisk(&self) -> (r: u16)
        ensures
            r == flags_field2(self.flags),
            r < 0x8000,
    {
        let f = self.flags;
        let v = (f >> 17u32) & 0x7FFF;
        assert((f >> 17u32) & 0x7FFF < 0x8000) by (bit_vector);
        v as u16
    }

    /// Sets the number of on-disk downlinks to `n` (kept to its low 15
    /// bits); nothing else in the header changes.
    pub fn set_n_ondisk(&mut self, n: u16)
        ensures
            flags_field2(final(self).flags) == n as u32 % 0x8000,
            flags_low(final(self).flags) == flags_low(old(self).flags),
            flags_field1(final(self).flags) == flags_field1(old(self).flags),
            *final(self) == (BTreePageHeader { flags: final(self).flags, ..*old(self) }),
    {
        let v = n as u32;
        assert(v & 0x7FFF == v % 0x8000) by (bit_vector);
        self.flags = flags_with_field2(self.flags, v);
    }

    /// Increments the number of on-disk downlinks; the 15-bit counter wraps
    /// from 0x7FFF to 0.
    pub fn inc_n_ondisk(&mut self)
        ensures
            flags_field2(final(self).flags) == (flags_field2(old(self).flags) + 1) % 0x8000,
            flags_low(final(self).flags) == flags_low(old(self).flags),
            flags_field1(final(self).flags) == flags_field1(old(self).flags),
            *final(self) == (BTreePageHeader { flags: final(self).flags, ..*old(self) }),
    {
        let n = self.n_ondisk();
        self.set_n_ondisk(n + 1);
    }

    /// Decrements the number of on-disk downlinks unless it is zero.
    pub fn dec_n_ondisk(&mut self)
        ensures
            flags_field2(old(self).flags) > 0 ==> flags_field2(final(self).flags) == flags_field2(
                old(self).flags,
            ) - 1,
            flags_field2(old(self).flags) == 0 ==> *final(self) == *old(self),
            flags_low(final(self).flags) == flags_low(old(self).flags),
            flags_field1(final(self).flags) == flags_field1(old(self).flags),
            *final(self) == (BTreePageHeader { flags: final(self).flags, ..*old(self) }),
    {
        let n = self.n_ondisk();
        if n > 0 {
            self.set_n_ondisk(n - 1);
        }
    }

    /// The number of vacated bytes (second counter of the bit field).
    pub fn n_vacated(&self) -> (r: u16)
        ensures
            r == flags_field2(self.flags),
            r < 0x8000,
    {
        let f = self.flags;
        let v = (f >> 17u32) & 0x7FFF;
        assert((f >> 17u32) & 0x7FFF < 0x8000) by (bit_vector);
        v as u16
    }

    /// Sets the number of vacated bytes to `n` (kept to its low 15 bits);
    /// nothing else in the header changes.
    pub fn set_n_vacated(&mut self, n: u16)
        ensures
            flags_field2(final(self).flags) == n as u32 % 0x8000,
            flags_low(final(self).flags) == flags_low(old(self).flags),
            flags_field1(final(self).flags) == flags_field1(old(self).flags),
            *final(self) == (BTreePageHeader { flags: final(self).flags, ..*old(self) }),
    {
        let v = n as u32;
        assert(v & 0x7FFF == v % 0x8000) by (bit_vector);
        self.flags = flags_with_field2(self.flags, v);
    }

    /// Adds `delta` to the number of vacated bytes, modulo 2^15.
    pub fn add_n_vacated(&mut self, delta: u16)
        requires
            flags_field2(old(self).flags) + delta <= u16::MAX,
        ensures
            flags_field2(final(self).flags) == (flags_field2(old(self).flags) + delta) % 0x8000,
            flags_low(final(self).flags) == flags_low(old(self).flags),
            flags_field1(final(self).flags) == flags_field1(old(self).flags),
            *final(self) == (BTreePageHeader { flags: final(self).flags, ..*old(self) }),
    {
        let n = self.n_vacated();
        self.set_n_vacated(n + delta);
    }

    /// Subtracts `delta` from the number of vacated bytes unless that would
    /// go below zero, in which case nothing changes.
    pub fn sub_n_vacated(&mut self, delta: u16)
        ensures
            flags_field2(old(self).flags) >= delta ==> flags_field2(final(self).flags)
                == flags_field2(old(self).flags) - delta,
            flags_field2(old(self).flags) < delta ==> *final(self) == *old(self),
            flags_low(final(self).flags) == flags_low(old(self).flags),
            flags_field1(final(self).flags) == flags_field1(old(self).flags),
            *final(self) == (BTreePageHeader { flags: final(self).flags, ..*old(self) }),
    {
        let n = self.n_vacated();
        if n >= delta {
            self.set_n_vacated(n - delta);
        }
    }

    /// Free space on the page: the page size minus the header and the data,
    /// or zero when they fill the page.  A negative data size counts as a
    /// huge one.
    pub fn free_space(&self) -> (r: usize)
        requires
            self.data_size as usize + BTREE_PAGE_HEADER_SIZE <= usize::MAX,
        ensures
            self.data_size >= 0 ==> r == (if self.data_size + BTREE_PAGE_HEADER_SIZE
                >= ORIOLEDB_BLCKSZ {
                0
            } else {
                ORIOLEDB_BLCKSZ - BTREE_PAGE_HEADER_SIZE - self.data_size
            }),
            self.data_size < 0 ==> r == 0,
    {
        let d = self.data_size as usize;
        let ds = self.data_size;
        if ds < 0 {
            assert(ds < 0 ==> (ds as usize) >= 0x8000) by (bit_vector);
        }
        ORIOLEDB_BLCKSZ.saturating_sub(BTREE_PAGE_HEADER_SIZE + d)
    }
}

// ============================================================================
// BTreeLeafTuphdr
// ============================================================================

/// Header of a leaf tuple, packed in 128 bits: bits 0-60 transaction info,
/// bits 61-62 deletion status, bit 63 chain-has-locks flag, bits 64-125 undo
/// location, bits 126-127 format flags.
#[derive(Clone, Copy, Debug, PartialEq, Eq, Structural)]
pub struct BTreeLeafTuphdr {
    low: u64,
    high: u64,
}

/// Size of a leaf tuple header.
pub const BTREE_LEAF_TUPHDR_SIZE: usize = 16;

/// Size of a non-leaf tuple header.
pub const BTREE_NON_LEAF_TUPHDR_SIZE: usize = 8;

/// Maximum tuple size that can fit on a page:
/// `MAXALIGN_DOWN((BLCKSZ - header) / 3 - sizeof(LocationIndex) - leaf header)`.
pub const O_BTREE_MAX_TUPLE_SIZE: usize = 2688;

/// Maximum key size (same as the maximum tuple size).
pub const O_BTREE_MAX_KEY_SIZE: usize = O_BTREE_MAX_TUPLE_SIZE;

/// Transaction info of a leaf header's low word: bits 0-60.
pub open spec fn tuphdr_xact_info(low: u64) -> u64 {
    low % 0x2000_0000_0000_0000
}

/// Deletion status of a leaf header's low word: bits 61-62.
pub open spec fn tuphdr_deleted(low: u64) -> u64 {
    (low / 0x2000_0000_0000_0000) % 4
}

/// Chain-has-locks flag of a leaf header's low word: bit 63.
pub open spec fn tuphdr_chain_has_locks(low: u64) -> bool {
    low >= 0x8000_0000_0000_0000
}

/// Undo location of a leaf header's high word: bits 64-125 of the header.
pub open spec fn tuphdr_undo_location(high: u64) -> u64 {
    high % 0x4000_0000_0000_0000
}

/// Format flags of a leaf header's high word: bits 126-127 of the header.
pub open spec fn tuphdr_format_flags(high: u64) -> u64 {
    high / 0x4000_0000_0000_0000
}

/// The deletion status named by a two-bit code.
pub open spec fn deleted_status_of(d: u64) -> BTreeLeafTupleDeletedStatus {
    if d == 1 {
        BTreeLeafTupleDeletedStatus::Deleted
    } else if d == 2 {
        BTreeLeafTupleDeletedStatus::MovedPartitions
    } else if d == 3 {
        BTreeLeafTupleDeletedStatus::PkChanged
    } else {
        BTreeLeafTupleDeletedStatus::NonDeleted
    }
}

impl BTreeLeafTuphdr {
    /// The low 64 bits.
    pub closed spec fn spec_low(self) -> u64 {
        self.low
    }

    /// The high 64 bits.
    pub closed spec fn spec_high(self) -> u64 {
        self.high
    }

    /// Creates a header from its two 64-bit halves.
    pub fn from_parts(low: u64, high: u64) -> (r: Self)
        ensures
            r.spec_low() == low,
            r.spec_high() == high,
    {
        Self { low, high }
    }

    /// The two 64-bit halves (low, high).
    pub fn parts(&self) -> (r: (u64, u64))
        ensures
            r == (self.spec_low(), self.spec_high()),
    {
        (self.low, self.high)
    }

    /// A header is its two halves: two headers with the same halves are
    /// equal, so rebuilding a header from its parts gives it back.
    pub proof fn lemma_parts_determine(a: Self, b: Self)
        ensures
            a.spec_low() == b.spec_low() && a.spec_high() == b.spec_high() ==> a == b,
    {
    }

    /// Transaction info (bits 0-60).
    pub fn xact_info(&self) -> (r: u64)
        ensures
            r == tuphdr_xact_info(self.spec_low()),
    {
        let lo = self.low;
        let r = lo & 0x1FFF_FFFF_FFFF_FFFF;
        assert(lo & 0x1FFF_FFFF_FFFF_FFFF == lo % 0x2000_0000_0000_0000)
            by (bit_vector);
        r
    }

    /// Deletion status code (bits 61-62).
    pub fn deleted(&self) -> (r: u8)
        ensures
            r == tuphdr_deleted(self.spec_low()),
    {
        let lo = self.low;
        let v = (lo >> 61u32) & 0x3;
        assert((lo >> 61u32) & 0x3 == (lo / 0x2000_0000_0000_0000) % 4)
            by (bit_vector);
        v as u8
    }

    /// Chain-has-locks flag (bit 63).
    pub fn chain_has_locks(&self) -> (r: bool)
        ensures
            r == tuphdr_chain_has_locks(self.spec_low()),
    {
        let lo = self.low;
        let r = (lo & 0x8000_0000_0000_0000) != 0;
        assert(((lo & 0x8000_0000_0000_0000) != 0) == (lo >= 0x8000_0000_0000_0000))
            by (bit_vector);
        r
    }

    /// Undo location (bits 64-125).
    pub fn undo_location(&self) -> (r: u64)
        ensures
            r == tuphdr_undo_location(self.spec_high()),
    {
        let hi = self.high;
        let r = hi & 0x3FFF_FFFF_FFFF_FFFF;
        assert(hi & 0x3FFF_FFFF_FFFF_FFFF == hi % 0x4000_0000_0000_0000)
            by (bit_vector);
        r
    }

    /// Format flags (bits 126-127).
    pub fn format_flags(&self) -> (r: u8)
        ensures
            r == tuphdr_format_flags(self.spec_high()),
    {
        let hi = self.high;
        let v = hi >> 62u32;
        assert(hi >> 62u32 == hi / 0x4000_0000_0000_0000) by (bit_vector);
        v as u8
    }

    /// The deletion status named by the deletion code.
    pub fn deleted_status(&self) -> (r: BTreeLeafTupleDeletedStatus)
        ensures
            r == deleted_status_of(tuphdr_deleted(self.spec_low()) as u64),
    {
        match self.deleted() {
            0 => BTreeLeafTupleDeletedStatus::NonDeleted,
            1 => BTreeLeafTupleDeletedStatus::Deleted,
            2 => BTreeLeafTupleDeletedStatus::MovedPartitions,
            3 => BTreeLeafTupleDeletedStatus::PkChanged,
            _ => BTreeLeafTupleDeletedStatus::NonDeleted,
        }
    }
}

/// The fields of a leaf tuple header determine it: its low word is the
/// transaction info plus the deletion code at bit 61 plus the lock flag at
/// bit 63, and its high word is the undo location plus the format flags at
/// bit 126.
pub proof fn lemma_leaf_tuphdr_fields_determine(h: BTreeLeafTuphdr)
    ensures
        h.spec_low() == tuphdr_xact_info(h.spec_low()) + tuphdr_deleted(h.spec_low())
            * 0x2000_0000_0000_0000 + (if tuphdr_chain_has_locks(h.spec_low()) {
            0x8000_0000_0000_0000int
        } else {
            0
        }),
        h.spec_high() == tuphdr_undo_location(h.spec_high()) + tuphdr_format_flags(h.spec_high())
            * 0x4000_0000_0000_0000,
{
}

/// Header of a non-leaf tuple: its downlink.
#[derive(Clone, Copy, Debug, PartialEq, Eq, Structural)]
pub struct BTreeNonLeafTuphdr {
    /// Downlink (block number or on-disk address).
    pub downlink: u64,
}

// ============================================================================
// Downlinks and right links
// ============================================================================

/// Bit 63 is set when a downlink points to an on-disk page.
pub const DOWNLINK_DISK_BIT: u64 = 0x8000_0000_0000_0000;

/// Mask for the in-memory block number of a downlink.
pub const DOWNLINK_IO_BUF_MASK: u64 = 0x7FFF_FFFF_FFFF_FFFF;

/// Returns `true` if `downlink` points to an in-memory page (bit 63 clear).
pub fn downlink_is_in_memory(downlink: u64) -> (r: bool)
    ensures
        r == (downlink < 0x8000_0000_0000_0000),
{
    let r = (downlink & DOWNLINK_DISK_BIT) == 0;
    assert(((downlink & 0x8000_0000_0000_0000) == 0) == (downlink < 0x8000_0000_0000_0000))
        by (bit_vector);
    r
}

/// Returns `true` if `downlink` points to an in-memory page and is not zero.
pub fn downlink_is_in_io(downlink: u64) -> (r: bool)
    ensures
        r == (downlink < 0x8000_0000_0000_0000 && downlink != 0),
{
    downlink_is_in_memory(downlink) && (downlink != 0)
}

/// Returns `true` if `downlink` points to an on-disk page (bit 63 set).
pub fn downlink_is_on_disk(downlink: u64) -> (r: bool)
    ensures
        r == (downlink >= 0x8000_0000_0000_0000),
{
    let r = (downlink & DOWNLINK_DISK_BIT) != 0;
    assert(((downlink & 0x8000_0000_0000_0000) != 0) == (downlink >= 0x8000_0000_0000_0000))
        by (bit_vector);
    r
}

/// The in-memory block number of a downlink: its low 32 bits.
pub fn downlink_get_in_memory_blkno(downlink: u64) -> (r: OInMemoryBlkno)
    ensures
        r == downlink % 0x1_0000_0000,
{
    let m = downlink & DOWNLINK_IO_BUF_MASK;
    assert(((downlink & 0x7FFF_FFFF_FFFF_FFFF) as u32) as u64 == downlink % 0x1_0000_0000)
        by (bit_vector);
    m as u32
}

/// Creates an in-memory downlink from a block number.
pub fn make_in_memory_downlink(blkno: OInMemoryBlkno) -> (r: u64)
    ensures
        r == blkno,
{
    blkno as u64
}

/// Invalid disk downlink.
pub const INVALID_DISK_DOWNLINK: u64 = 0;

/// Returns `true` if a disk downlink is valid.
pub fn disk_downlink_is_valid(dl: u64) -> (r: bool)
    ensures
        r == (dl != INVALID_DISK_DOWNLINK),
{
    dl != INVALID_DISK_DOWNLINK
}

/// Invalid right link.
pub const INVALID_RIGHT_LINK: u64 = 0;

/// Returns `true` if a right link is valid.
pub fn right_link_is_valid(rl: u64) -> (r: bool)
    ensures
        r == (rl != INVALID_RIGHT_LINK),
{
    rl != INVALID_RIGHT_LINK
}

/// Creates an in-memory right link from a block number.
pub fn make_in_memory_rightlink(blkno: OInMemoryBlkno) -> (r: u64)
    ensures
        r == blkno,
{
    blkno as u64
}

/// A block number survives the trip through an in-memory downlink: the
/// downlink made from it is in memory, and reading its block number back
/// gives the block number.
pub proof fn lemma_in_memory_downlink_roundtrip(blkno: OInMemoryBlkno)
    ensures
        (blkno as u64) < 0x8000_0000_0000_0000,
        (blkno as u64) % 0x1_0000_0000 == blkno,
{
}

// ============================================================================
// Fixed tuples, read results, waiters, lock results
// ============================================================================

/// Fixed-size container for a tuple.
#[derive(Clone, Copy, Debug, PartialEq, Eq, Structural)]
pub struct OFixedTuple {
    pub tuple: OTuple,
}

/// Fixed-size container for a key.
#[derive(Clone, Copy, Debug, PartialEq, Eq, Structural)]
pub struct OFixedKey {
    pub tuple: OTuple,
}

/// Result of a page read attempt.
#[derive(Clone, Copy, Debug, PartialEq, Eq, Structural)]
pub enum ReadPageResult {
    /// Page read succeeded.
    ReadOk,
    /// Page change count mismatch (page was modified during read).
    WrongPageChangeCount,
    /// Page read failed.
    Failed,
}

/// Why a process is waiting on a page.
#[derive(Clone, Copy, Debug, PartialEq, Eq, Structural)]
pub enum OPageWaiterStatus {
    /// Waiting for exclusive access.
    Exclusive,
    /// Waiting for non-exclusive access.
    NonExclusive,
    /// Waiting for an insert to complete.
    Insert,
    /// Being woken up.
    WakeUp,
}

/// Result of locking a page with a tuple.
#[derive(Clone, Copy, Debug, PartialEq, Eq, Structural)]
pub enum OLockPageWithTupleResult {
    /// Page was locked successfully.
    Locked,
    /// The page has to be found again (it was split or merged).
    RefindNeeded,
    /// A tuple was inserted by another process while waiting.
    Inserted,
}

/// What a modify callback should do with the tuple it found.
#[derive(Clone, Copy, Debug, PartialEq, Eq, Structural)]
pub enum OBTreeModifyCallbackAction {
    DoNothing,
    Update,
    Delete,
    Lock,
    Undo,
}

/// What a wait callback should do when it finds a conflicting transaction.
#[derive(Clone, Copy, Debug, PartialEq, Eq, Structural)]
pub enum OBTreeWaitCallbackAction {
    XidNoWait,
    XidWait,
    XidExit,
}

/// Result of a B-tree modify operation.
#[derive(Clone, Copy, Debug, PartialEq, Eq, Structural)]
pub enum OBTreeModifyResult {
    Inserted,
    Updated,
    Deleted,
    Locked,
    Found,
    NotFound,
}

// ============================================================================
// Row lock modes
// ============================================================================

/// Row lock modes, from weakest to strongest.
#[derive(Clone, Copy, Debug, PartialEq, Eq, Structural)]
pub enum RowLockMode {
    KeyShare,
    Share,
    NoKeyUpdate,
    Update,
}

/// Strength of a row lock mode: 0 for `KeyShare` up to 3 for `Update`.
pub open spec fn row_lock_strength(m: RowLockMode) -> int {
    match m {
        RowLockMode::KeyShare => 0,
        RowLockMode::Share => 1,
        RowLockMode::NoKeyUpdate => 2,
        RowLockMode::Update => 3,
    }
}

/// Two row lock modes conflict when their strengths add up to 3 or more.
pub open spec fn spec_row_locks_conflict(lock1: RowLockMode, lock2: RowLockMode) -> bool {
    row_lock_strength(lock1) + row_lock_strength(lock2) >= 3
}

fn row_lock_mode_number(m: RowLockMode) -> (r: u8)
    ensures
        r == row_lock_strength(m),
{
    match m {
        RowLockMode::KeyShare => 0,
        RowLockMode::Share => 1,
        RowLockMode::NoKeyUpdate => 2,
        RowLockMode::Update => 3,
    }
}

/// Returns `true` if two lock modes conflict.
pub fn row_locks_conflict(lock1: RowLockMode, lock2: RowLockMode) -> (r: bool)
    ensures
        r == spec_row_locks_conflict(lock1, lock2),
{
    row_lock_mode_number(lock1) + row_lock_mode_number(lock2) >= 3
}

/// Row lock conflicts are symmetric, the strongest mode conflicts with every
/// mode, and the weakest mode conflicts only with the strongest.
pub proof fn lemma_row_locks_conflict_laws(a: RowLockMode, b: RowLockMode)
    ensures
        spec_row_locks_conflict(a, b) == spec_row_locks_conflict(b, a),
        spec_row_locks_conflict(RowLockMode::Update, a),
        spec_row_locks_conflict(RowLockMode::KeyShare, a) <==> a == RowLockMode::Update,
{
}

// ============================================================================
// Alignment
// ============================================================================

/// `a` is a power of two.
pub open spec fn is_power_of_two(a: usize) -> bool {
    a != 0 && a & ((a - 1) as usize) == 0
}

/// A power of two `a` is `2^n` for some `n` below the word size, and the
/// bits below it form the mask of the `n` low bits.
proof fn lemma_power_of_two_log(a: usize) -> (n: nat)
    requires
        is_power_of_two(a),
    ensures
        n < usize::BITS,
        a == pow2(n),
        a - 1 == low_bits_mask(n),
    decreases a,
{
    if a == 1 {
        lemma2_to64();
        0
    } else {
        let b: usize = a / 2;
        assert(a != 0 && a & ((a - 1) as usize) == 0 && a != 1 ==> b != 0 && b & ((b - 1) as usize)
            == 0 && a == 2 * b) by (bit_vector)
            requires
                b == a / 2,
        ;
        let m = lemma_power_of_two_log(b);
        lemma_pow2_unfold(m + 1);
        if m + 1 >= usize::BITS {
            lemma2_to64();
            lemma2_to64_rest();
            assert(m + 1 == 32 || m + 1 == 64);
            assert(false);
        }
        m + 1
    }
}

/// For a power-of-two `a`, a value whose bits below `a` are clear is a
/// multiple of `a`.
pub proof fn lemma_clear_low_bits_multiple(x: usize, a: usize)
    requires
        is_power_of_two(a),
        x & ((a - 1) as usize) == 0,
    ensures
        x % a == 0,
{
    let n = lemma_power_of_two_log(a);
    lemma_usize_low_bits_mask_is_mod(x, n);
}

/// Aligns `value` up to `alignment`.  For a power-of-two alignment the
/// result is the least value not below `value` whose bits under the
/// alignment are all clear, i.e. the next multiple of `alignment`.
pub fn my_align(value: usize, alignment: usize) -> (r: usize)
    requires
        alignment >= 1,
        value + alignment - 1 <= usize::MAX,
    ensures
        r == (((value + alignment - 1) as usize) & !((alignment - 1) as usize)),
        is_power_of_two(alignment) ==> r & ((alignment - 1) as usize) == 0 && value <= r && r
            < value + alignment,
        is_power_of_two(alignment) ==> r % alignment == 0 && r >= value && r - value < alignment,
{
    let am1: usize = alignment - 1;
    let m: usize = value + am1;
    let r = m & !am1;
    assert(am1 + 1 == alignment && m >= am1 && alignment & am1 == 0 ==> ((m & !am1) & am1 == 0
        && (m & !am1) <= m && m - am1 <= (m & !am1))) by (bit_vector);
    proof {
        if is_power_of_two(alignment) {
            lemma_clear_low_bits_multiple(r, alignment);
        }
    }
    r
}

/// Maximum alignment of the platform (that of `usize`).
pub const MAXIMUM_ALIGNOF: usize = 8;

/// Aligns `value` up to the maximum alignment: the least multiple of 8 that
/// is not below `value`.
pub fn maxalign(value: usize) -> (r: usize)
    requires
        value + MAXIMUM_ALIGNOF - 1 <= usize::MAX,
    ensures
        r % 8 == 0,
        value <= r < value + 8,
{
    assert(8usize & 7usize == 0) by (bit_vector);
    let r = my_align(value, MAXIMUM_ALIGNOF);
    assert(r & 7 == 0 ==> r % 8 == 0) by (bit_vector);
    r
}

/// Aligns `value` down to `alignment`.  For a power-of-two alignment the
/// result is the greatest value not above `value` whose bits under the
/// alignment are all clear, i.e. the previous multiple of `alignment`.
pub fn my_align_down(value: usize, alignment: usize) -> (r: usize)
    requires
        alignment >= 1,
    ensures
        r == value & !((alignment - 1) as usize),
        is_power_of_two(alignment) ==> r & ((alignment - 1) as usize) == 0 && r <= value && value
            < r + alignment,
        is_power_of_two(alignment) ==> r % alignment == 0 && r <= value && value - r < alignment,
{
    let am1: usize = alignment - 1;
    let r = value & !am1;
    assert(am1 + 1 == alignment && alignment & am1 == 0 ==> ((value & !am1) & am1 == 0 && (value
        & !am1) <= value && value - (value & !am1) <= am1)) by (bit_vector);
    proof {
        if is_power_of_two(alignment) {
            lemma_clear_low_bits_multiple(r, alignment);
        }
    }
    r
}

// ============================================================================
// Locks
// ============================================================================

/// A simple spinlock: the holder word, zero when free.
#[derive(Debug)]
pub struct SLock {
    pub holder: i32,
}

impl SLock {
    /// A free spinlock.
    pub fn new() -> (r: Self)
        ensures
            r.holder == 0,
    {
        Self { holder: 0 }
    }
}

impl Default for SLock {
    fn default() -> (r: Self)
        ensures
            r.holder == 0,
    {
        Self::new()
    }
}

/// A lightweight lock built on a spinlock.
#[derive(Debug)]
pub struct LWLock {
    pub lock: SLock,
}

impl LWLock {
    /// A free lightweight lock.
    pub fn new() -> (r: Self)
        ensures
            r.lock.holder == 0,
    {
        Self { lock: SLock::new() }
    }
}

impl Default for LWLock {
    fn default() -> (r: Self)
        ensures
            r.lock.holder == 0,
    {
        Self::new()
    }
}

/// A lightweight lock padded for shared-memory arrays.
#[derive(Debug)]
pub struct LWLockPadded {
    pub lock: LWLock,
}

/// Opaque handle to a page pool.
#[derive(Debug)]
pub struct PagePool {}

/// Opaque handle to the usage count map.
#[derive(Debug)]
pub struct UsageCountMap {}

/// Result returned by the page-read path.
#[derive(Clone, Copy, Debug, PartialEq, Eq, Structural)]
pub enum PageReadResult {
    /// Page was successfully read.
    ReadOk,
    /// Change count mismatch (page was modified while reading).
    WrongPageChangeCount,
    /// Read failed.
    Failed,
}

// ============================================================================
// Row identifiers and undo locations
// ============================================================================

/// Location hint for a row (block number + change count).
#[derive(Clone, Copy, Debug, PartialEq, Eq, Structural)]
pub struct BTreeLocationHint {
    pub blkno: OInMemoryBlkno,
    pub page_change_count: u32,
}

/// Row ID addendum for CTID-based addressing.
#[derive(Clone, Copy, Debug, PartialEq, Eq, Structural)]
pub struct ORowIdAddendumCtid {
    pub hint: BTreeLocationHint,
    pub csn: CommitSeqNo,
    pub version: u32,
}

/// Row ID addendum for non-CTID addressing.
#[derive(Clone, Copy, Debug, PartialEq, Eq, Structural)]
pub struct ORowIdAddendumNonCtid {
    pub hint: BTreeLocationHint,
    pub csn: CommitSeqNo,
    pub flags: u8,
}

/// Shared undo locations for a single undo log.
#[derive(Clone, Copy, Debug, PartialEq, Eq, Structural)]
pub struct UndoStackSharedLocations {
    pub location: u64,
    pub branch_location: u64,
    pub subxact_location: u64,
    pub on_commit_location: u64,
}

/// Undo stack locations of a transaction in one undo log.
#[derive(Clone, Copy, Debug, PartialEq, Eq, Structural)]
pub struct UndoStackLocations {
    pub location: UndoLocation,
    pub branch_location: UndoLocation,
    pub subxact_location: UndoLocation,
    pub on_commit_location: UndoLocation,
}

/// Shared undo retain locations.
#[derive(Clone, Copy, Debug, PartialEq, Eq, Structural)]
pub struct UndoRetainSharedLocations {
    pub reserved_undo_location: u64,
    pub transaction_undo_retain_location: u64,
    pub snapshot_retain_undo_location: u64,
}

/// Maps an OrioleDB transaction to a server virtual transaction.
#[derive(Clone, Copy, Debug, PartialEq, Eq, Structural)]
pub struct XidVXidMapElement {
    pub oxid: OXid,
    /// Address of the virtual transaction id; zero when there is none.
    pub vxid: usize,
}

/// Per-process shared state of the transaction machinery.
#[derive(Debug)]
pub struct ODBProcData {
    /// Undo retain locations for each undo log.
    pub undo_retain_locations: [UndoRetainSharedLocations; 3],
    /// WAL location of a commit in progress.
    pub commit_in_progress_xlog_location: u64,
    /// Nesting level of autonomous transactions.
    pub autonomous_nesting_level: i32,
    /// Lock guarding the flush of undo stack locations.
    pub undo_stack_locations_flush_lock: LWLock,
    /// Whether the undo locations are to be flushed.
    pub flush_undo_locations: bool,
    /// Whether the process waits for a transaction id.
    pub waiting_for_oxid: bool,
    /// Oldest transaction the process may see.
    pub xmin: u64,
    /// Undo location of a pending secondary-index fixup.
    pub pending_sk_undo_loc: u64,
    /// Undo stack locations for each transaction slot and undo log.
    pub undo_stack_locations: [[UndoStackSharedLocations; 3]; 32],
    /// Virtual transaction ids of the transaction slots.
    pub vxids: [XidVXidMapElement; 32],
}

// ============================================================================
// Sequential buffers, storage managers and options
// ============================================================================

/// Identifies the file behind a sequential buffer.
#[derive(Clone, Copy, Debug, PartialEq, Eq, Structural)]
pub struct SeqBufTag {
    pub tag_type: i32,
    pub database_id: OdbOid,
    pub rel_node: OdbOid,
    pub extra1: i32,
    pub extra2: i32,
    pub extra3: i32,
}

/// Shared state of a sequential buffer: two pages that alternate, the
/// position in the file and the spinlock that guards them.
#[derive(Debug)]
pub struct SeqBufDescShared {
    pub pages: [OInMemoryBlkno; 2],
    pub cur_page_num: u32,
    pub file_page_num: u32,
    pub free_bytes_num: u32,
    pub location: u32,
    pub tag: SeqBufTag,
    pub prev_page_state: u8,
    pub evict_offset: u64,
    pub lock: SLock,
}

/// Backend-private handle of a sequential buffer.
#[derive(Clone, Copy, Debug, PartialEq, Eq, Structural)]
pub struct SeqBufDescPrivate {
    /// Address of the shared state.
    pub shared: usize,
    /// File descriptor.
    pub file: i32,
    /// Whether the buffer is written (rather than read).
    pub write: bool,
    pub tag: SeqBufTag,
}

/// Array form of a storage manager: the file descriptors of the segments.
#[derive(Clone, Copy, Debug, PartialEq, Eq, Structural)]
pub struct SmgrArray {
    /// Address of the array of file descriptors.
    pub files: usize,
    /// Number of file descriptors allocated.
    pub files_allocated: i32,
}

/// Storage manager of a tree: local segment files or S3 file handles.
#[derive(Clone, Copy, Debug, PartialEq, Eq, Structural)]
pub struct OSmgr {
    pub tag: SmgrTag,
    pub array: SmgrArray,
    /// Address of the hash of S3 file handles.
    pub s3_hash: usize,
}

/// Progress of loading a page image chunk by chunk.
#[derive(Clone, Copy, Debug, PartialEq, Eq, Structural)]
pub struct PartialPageState {
    /// Address of the chunk being loaded.
    pub chunk: usize,
    /// Offset within the chunk.
    pub chunk_offset: OffsetNumber,
    /// Whether the hikeys have been loaded.
    pub hikeys_loaded: bool,
    /// Address of the full page image.
    pub full_image: usize,
    /// Whether a full image is present.
    pub has_full_image: bool,
}

/// Position of a heap tuple: block number in two halves and line pointer.
#[derive(Clone, Copy, Debug, PartialEq, Eq, Structural)]
pub struct ItemPointerData {
    pub bi_hi: u16,
    pub bi_lo: u16,
    pub ip_posid: u16,
}

/// Bridge ctid of a row and whether it changed.
#[derive(Clone, Copy, Debug, PartialEq, Eq, Structural)]
pub struct ORowIdBridgeData {
    pub bridge_ctid: ItemPointerData,
    pub bridge_changed: bool,
}

/// Relation options of an OrioleDB table.
#[derive(Clone, Copy, Debug, PartialEq, Eq, Structural)]
pub struct ORelOptions {
    /// Address of the standard options.
    pub std_options: usize,
    pub compress_offset: i32,
    pub primary_compress_offset: i32,
    pub toast_compress_offset: i32,
    pub index_bridging: bool,
}

/// Options of an OrioleDB B-tree index.
#[derive(Clone, Copy, Debug, PartialEq, Eq, Structural)]
pub struct OBTOptions {
    /// Address of the server's B-tree options.
    pub bt_options: usize,
    pub compress_offset: i32,
    pub orioledb_index: bool,
}

/// The meta page of a B-tree: free-space and checkpoint buffers, file
/// lengths, counters and the locks that guard them.
#[derive(Debug)]
pub struct BTreeMetaPage {
    pub o_header: OrioleDBPageHeader,
    /// Sequential buffer of free extents.
    pub free_buf: SeqBufDescShared,
    /// Sequential buffers for the next checkpoint.
    pub next_chkp: [SeqBufDescShared; 2],
    /// Sequential buffers for temporary checkpoint tracking.
    pub tmp_buf: [SeqBufDescShared; 2],
    pub num_free_blocks: u64,
    pub datafile_length: [u64; 2],
    pub meta_lock: LWLock,
    pub copy_blkno_lock: LWLock,
    /// Surrogate ctid for a primary index without a key.
    pub ctid: u64,
    pub bridge_ctid: u64,
    pub leaf_pages_num: u32,
    /// Running sequential scans per checkpoint window.
    pub num_seq_scans: [u32; 32],
    pub to_be_freed_on_seq_scan_release: bool,
    pub dirty_flag1: bool,
    pub dirty_flag2: bool,
    pub parts_info: [BTreeS3PartsInfo; 2],
    pub punch_holes_lock: LWLock,
    pub punch_holes_chkp_num: u32,
}


/// Checks the sizes the page formats rely on: the in-memory and on-disk
/// page headers have the same size, the meta page fits in one block, a leaf
/// tuple header takes 16 bytes and a non-leaf tuple header one 64-bit word.
/// Returns whether all hold.
pub fn assert_type_sizes() -> (r: bool)
    ensures
        r == (vstd::layout::size_of::<OrioleDBPageHeader>() == vstd::layout::size_of::<
            OrioleDBOndiskPageHeader,
        >() && vstd::layout::size_of::<BTreeMetaPage>() <= ORIOLEDB_BLCKSZ
            && vstd::layout::size_of::<BTreeLeafTuphdr>() == BTREE_LEAF_TUPHDR_SIZE
            && vstd::layout::size_of::<BTreeNonLeafTuphdr>() == BTREE_NON_LEAF_TUPHDR_SIZE),
{
    std::mem::size_of::<OrioleDBPageHeader>() == std::mem::size_of::<OrioleDBOndiskPageHeader>()
        && std::mem::size_of::<BTreeMetaPage>() <= ORIOLEDB_BLCKSZ
        && std::mem::size_of::<BTreeLeafTuphdr>() == BTREE_LEAF_TUPHDR_SIZE
        && std::mem::size_of::<BTreeNonLeafTuphdr>() == BTREE_NON_LEAF_TUPHDR_SIZE
}

} // verus!
