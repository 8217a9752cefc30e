//! Structural consistency check of a B-tree page image.
//!
//! A page starts with the fixed `BTreePageHeader` (56 bytes, little-endian),
//! followed by one 32-bit chunk descriptor per chunk.  Each chunk holds an
//! array of 16-bit location indexes whose low 14 bits give item offsets
//! within the chunk.  `page_struct_ok` states every structural rule the
//! check enforces; `o_check_page_struct` decides it.
use crate::types::{
    btree_page_hikeys_end, chunk_hikey_flags, chunk_hikey_short_location, chunk_keys_fixed_bit,
    chunk_offset, chunk_short_location, item_flags_of, item_offset_of, spec_hikeys_end,
    flags_field2, BTreeKeyType, OLengthType, BTREE_LEAF_TUPHDR_SIZE, BTREE_NON_LEAF_TUPHDR_SIZE, BTreePageChunkDesc, BTreePageHeader, BTreePageItemLocator, LocationIndex, BTREE_PAGE_HEADER_SIZE,
    CHUNK_DESC_SIZE, LOCATION_INDEX_SIZE, ORIOLEDB_BLCKSZ, O_BTREE_FLAG_HIKEYS_FIXED,
    O_BTREE_FLAG_LEAF, O_BTREE_FLAG_RIGHTMOST,
};
use vstd::prelude::*;

verus! {

/// Tuple format flag: the tuple has the fixed format.
pub const O_TUPLE_FLAGS_FIXED_FORMAT: u32 = 1;

/// Offset of the `flags` bit field in the page header.
pub const PAGE_FLAGS_OFFSET: usize = 40;

/// Offset of the chunk count in the page header.
pub const PAGE_CHUNKS_COUNT_OFFSET: usize = 48;

/// Offset of the item count in the page header.
pub const PAGE_ITEMS_COUNT_OFFSET: usize = 50;

/// Offset of the hikeys end in the page header.
pub const PAGE_HIKEYS_END_OFFSET: usize = 52;

/// Offset of the data size in the page header.
pub const PAGE_DATA_SIZE_OFFSET: usize = 54;

/// Unsigned 16-bit little-endian value at `off`.
pub open spec fn page_u16(p: Seq<u8>, off: int) -> int {
    p[off] + 256 * p[off + 1]
}

/// Signed 16-bit little-endian value at `off`.
pub open spec fn page_i16(p: Seq<u8>, off: int) -> int {
    if page_u16(p, off) >= 32768 {
        page_u16(p, off) - 65536
    } else {
        page_u16(p, off)
    }
}

/// Unsigned 32-bit little-endian value at `off`.
pub open spec fn page_u32(p: Seq<u8>, off: int) -> u32 {
    (page_u16(p, off) + 65536 * page_u16(p, off + 2)) as u32
}

/// Page header bit field.
pub open spec fn hdr_flags(p: Seq<u8>) -> u32 {
    page_u32(p, PAGE_FLAGS_OFFSET as int)
}

/// The page is a leaf page.
pub open spec fn hdr_leaf(p: Seq<u8>) -> bool {
    hdr_flags(p) & O_BTREE_FLAG_LEAF != 0
}

/// The page is the rightmost one of its level.
pub open spec fn hdr_rightmost(p: Seq<u8>) -> bool {
    hdr_flags(p) & O_BTREE_FLAG_RIGHTMOST != 0
}

/// The page hikeys are fixed.
pub open spec fn hdr_hikeys_fixed(p: Seq<u8>) -> bool {
    hdr_flags(p) & O_BTREE_FLAG_HIKEYS_FIXED != 0
}

/// Number of chunks.
pub open spec fn n_chunks(p: Seq<u8>) -> int {
    page_u16(p, PAGE_CHUNKS_COUNT_OFFSET as int)
}

/// Number of items.
pub open spec fn n_items(p: Seq<u8>) -> int {
    page_u16(p, PAGE_ITEMS_COUNT_OFFSET as int)
}

/// End of the hikeys area.
pub open spec fn hikeys_end(p: Seq<u8>) -> int {
    page_u16(p, PAGE_HIKEYS_END_OFFSET as int)
}

/// Size of the data on the page.
pub open spec fn data_size(p: Seq<u8>) -> int {
    page_i16(p, PAGE_DATA_SIZE_OFFSET as int)
}

/// Packed descriptor of chunk `i`.
pub open spec fn desc_word(p: Seq<u8>, i: int) -> u32 {
    page_u32(p, BTREE_PAGE_HEADER_SIZE + 4 * i)
}

/// Byte location of chunk `i`.
pub open spec fn chunk_loc(p: Seq<u8>, i: int) -> int {
    chunk_short_location(desc_word(p, i)) * 4
}

/// Index of the first item of chunk `i`.
pub open spec fn chunk_first_item(p: Seq<u8>, i: int) -> int {
    chunk_offset(desc_word(p, i)) as int
}

/// Byte location of the hikey of chunk `i`.
pub open spec fn chunk_hikey_loc(p: Seq<u8>, i: int) -> int {
    chunk_hikey_short_location(desc_word(p, i)) * 4
}

/// Number of items of chunk `i`: up to the next chunk's first item, or up
/// to the page's item count for the last chunk.
pub open spec fn chunk_n_items(p: Seq<u8>, i: int) -> int {
    if i == n_chunks(p) - 1 {
        n_items(p) - chunk_first_item(p, i)
    } else {
        chunk_first_item(p, i + 1) - chunk_first_item(p, i)
    }
}

/// Where chunk `i` ends: at the next chunk, or at the data size for the
/// last chunk.
pub open spec fn chunk_end(p: Seq<u8>, i: int) -> int {
    if i == n_chunks(p) - 1 {
        data_size(p)
    } else {
        chunk_loc(p, i + 1)
    }
}

/// Size of chunk `i` in bytes.
pub open spec fn chunk_size(p: Seq<u8>, i: int) -> int {
    chunk_end(p, i) - chunk_loc(p, i)
}

/// `x` rounded up to a multiple of 8.
pub open spec fn maxalign_int(x: int) -> int {
    (x + 7) / 8 * 8
}

/// Location index `j` of chunk `i`.
pub open spec fn chunk_item(p: Seq<u8>, i: int, j: int) -> LocationIndex {
    page_i16(p, chunk_loc(p, i) + 2 * j) as LocationIndex
}

/// Offset of item `j` of chunk `i` within the chunk.
pub open spec fn chunk_item_offset(p: Seq<u8>, i: int, j: int) -> int {
    item_offset_of(chunk_item(p, i, j)) as int
}

/// The header rules: every chunk descriptor lies within the page, the data
/// fits in a page, and the hikeys end within the data.
pub open spec fn header_ok(p: Seq<u8>) -> bool {
    &&& BTREE_PAGE_HEADER_SIZE + 4 * n_chunks(p) <= p.len()
    &&& data_size(p) <= ORIOLEDB_BLCKSZ
    &&& hikeys_end(p) <= data_size(p)
}

/// The rules on chunk `i`: hikey format, ordering against the previous
/// chunk, placement of the first chunk, the last chunk's hikey, bounds of
/// the next chunk, and room for the location-index array.
pub open spec fn chunk_ok(p: Seq<u8>, i: int) -> bool {
    let n = n_chunks(p);
    let d = desc_word(p, i);
    &&& (!hdr_rightmost(p) || i < n - 1) ==> (chunk_hikey_flags(d) & O_TUPLE_FLAGS_FIXED_FORMAT
        != 0 || !hdr_hikeys_fixed(p))
    &&& i > 0 ==> {
        &&& chunk_loc(p, i) >= chunk_loc(p, i - 1)
        &&& chunk_first_item(p, i) >= chunk_first_item(p, i - 1)
        &&& chunk_hikey_loc(p, i) > chunk_hikey_loc(p, i - 1)
        &&& chunk_hikey_loc(p, i) <= hikeys_end(p)
        &&& chunk_loc(p, i) <= data_size(p)
        &&& chunk_first_item(p, i) <= n_items(p)
    }
    &&& i == 0 ==> {
        &&& (chunk_loc(p, 0) == hikeys_end(p) || chunk_loc(p, 0) == spec_hikeys_end(hdr_leaf(p)))
        &&& chunk_first_item(p, 0) == 0
        &&& chunk_hikey_loc(p, 0) == maxalign_int(BTREE_PAGE_HEADER_SIZE + CHUNK_DESC_SIZE * n)
    }
    &&& (i == n - 1 && !hdr_rightmost(p)) ==> chunk_hikey_loc(p, i) < hikeys_end(p)
    &&& i < n - 1 ==> {
        &&& chunk_first_item(p, i + 1) <= n_items(p)
        &&& chunk_first_item(p, i + 1) >= chunk_first_item(p, i)
        &&& chunk_loc(p, i + 1) <= data_size(p)
    }
    &&& maxalign_int(LOCATION_INDEX_SIZE * chunk_n_items(p, i)) <= chunk_size(p, i)
}

/// The rules on item `j` of chunk `i`: key format, placement after the
/// location-index array and within the chunk, and ordering of offsets
/// (strict between consecutive flag-less leaf items).
pub open spec fn item_ok(p: Seq<u8>, i: int, j: int) -> bool {
    let cnt = chunk_n_items(p, i);
    let item = chunk_item(p, i, j);
    &&& !(i == 0 && j == 0 && !hdr_leaf(p)) ==> (item_flags_of(item) & O_TUPLE_FLAGS_FIXED_FORMAT
        != 0 || !chunk_keys_fixed_bit(desc_word(p, i)))
    &&& chunk_item_offset(p, i, j) >= maxalign_int(LOCATION_INDEX_SIZE * cnt)
    &&& chunk_item_offset(p, i, j) <= chunk_size(p, i)
    &&& j > 0 ==> chunk_item_offset(p, i, j) >= chunk_item_offset(p, i, j - 1)
    &&& (j < cnt - 1 && hdr_leaf(p) && item_flags_of(item) == 0) ==> chunk_item_offset(p, i, j)
        < chunk_item_offset(p, i, j + 1)
}

/// Every item of chunk `i` satisfies the item rules.
pub open spec fn chunk_items_ok(p: Seq<u8>, i: int) -> bool {
    forall|j: int| 0 <= j < chunk_n_items(p, i) ==> #[trigger] item_ok(p, i, j)
}

/// The page has a consistent structure: the header rules, the rules on every
/// chunk and the rules on every item.
pub open spec fn page_struct_ok(p: Seq<u8>) -> bool {
    &&& header_ok(p)
    &&& forall|i: int| 0 <= i < n_chunks(p) ==> #[trigger] chunk_ok(p, i)
    &&& forall|i: int| 0 <= i < n_chunks(p) ==> #[trigger] chunk_items_ok(p, i)
}

fn rd_u16(p: &[u8], off: usize) -> (r: u16)
    requires
        off + 2 <= p.len(),
    ensures
        r as int == page_u16(p@, off as int),
{
    (p[off] as u16) + (p[off + 1] as u16) * 256
}

fn rd_i16(p: &[u8], off: usize) -> (r: i64)
    requires
        off + 2 <= p.len(),
    ensures
        r as int == page_i16(p@, off as int),
        -32768 <= r < 32768,
{
    let u = rd_u16(p, off) as i64;
    if u >= 32768 {
        u - 65536
    } else {
        u
    }
}

fn rd_u32(p: &[u8], off: usize) -> (r: u32)
    requires
        off + 4 <= p.len(),
    ensures
        r == page_u32(p@, off as int),
{
    let lo = rd_u16(p, off) as u32;
    let hi = rd_u16(p, off + 2) as u32;
    lo + hi * 65536
}

/// Header fields read from a page.
struct PageHdr {
    flags: u32,
    n: i64,
    items: i64,
    hk_end: i64,
    dsize: i64,
}

fn read_hdr(p: &[u8]) -> (h: PageHdr)
    requires
        p@.len() == ORIOLEDB_BLCKSZ,
    ensures
        h.flags == hdr_flags(p@),
        h.n == n_chunks(p@),
        h.items == n_items(p@),
        h.hk_end == hikeys_end(p@),
        h.dsize == data_size(p@),
        0 <= h.n < 65536,
        0 <= h.items < 65536,
        0 <= h.hk_end < 65536,
        -32768 <= h.dsize < 32768,
{
    PageHdr {
        flags: rd_u32(p, PAGE_FLAGS_OFFSET),
        n: rd_u16(p, PAGE_CHUNKS_COUNT_OFFSET) as i64,
        items: rd_u16(p, PAGE_ITEMS_COUNT_OFFSET) as i64,
        hk_end: rd_u16(p, PAGE_HIKEYS_END_OFFSET) as i64,
        dsize: rd_i16(p, PAGE_DATA_SIZE_OFFSET),
    }
}

/// Fields of one chunk descriptor.
struct ChunkFields {
    loc: i64,
    first: i64,
    hk_loc: i64,
    hk_flags: u32,
    keys_fixed: bool,
}

fn read_chunk(p: &[u8], i: i64) -> (c: ChunkFields)
    requires
        p@.len() == ORIOLEDB_BLCKSZ,
        0 <= i,
        BTREE_PAGE_HEADER_SIZE + 4 * (i + 1) <= p@.len(),
    ensures
        c.loc == chunk_loc(p@, i as int),
        c.first == chunk_first_item(p@, i as int),
        c.hk_loc == chunk_hikey_loc(p@, i as int),
        c.hk_flags == chunk_hikey_flags(desc_word(p@, i as int)),
        c.keys_fixed == chunk_keys_fixed_bit(desc_word(p@, i as int)),
        0 <= c.loc <= 4 * 4095,
        0 <= c.first <= 1023,
        0 <= c.hk_loc <= 4 * 127,
{
    let w = rd_u32(p, BTREE_PAGE_HEADER_SIZE + 4 * (i as usize));
    let d = BTreePageChunkDesc::from_packed(w);
    let s = d.short_location();
    let o = d.offset();
    let h = d.hikey_short_location();
    assert(w & 0xFFF <= 4095 && (w >> 12u32) & 0x3FF <= 1023 && (w >> 22u32) & 0x7F <= 127)
        by (bit_vector);
    ChunkFields {
        loc: (s as i64) * 4,
        first: o as i64,
        hk_loc: (h as i64) * 4,
        hk_flags: d.hikey_flags(),
        keys_fixed: d.chunk_keys_fixed(),
    }
}

fn maxalign_i64(x: i64) -> (r: i64)
    requires
        0 <= x <= 1_000_000,
    ensures
        r == maxalign_int(x as int),
        x <= r,
{
    (x + 7) / 8 * 8
}

/// Decides the rules on chunk `i`.
fn check_chunk(p: &[u8], h: &PageHdr, i: i64) -> (r: bool)
    requires
        p@.len() == ORIOLEDB_BLCKSZ,
        h.flags == hdr_flags(p@),
        h.n == n_chunks(p@),
        h.items == n_items(p@),
        h.hk_end == hikeys_end(p@),
        h.dsize == data_size(p@),
        0 <= h.n < 65536,
        0 <= h.items < 65536,
        0 <= h.hk_end < 65536,
        -32768 <= h.dsize < 32768,
        header_ok(p@),
        0 <= i < h.n,
    ensures
        r == chunk_ok(p@, i as int),
{
    let c = read_chunk(p, i);
    let rightmost = h.flags & O_BTREE_FLAG_RIGHTMOST != 0;
    let hikeys_fixed = h.flags & O_BTREE_FLAG_HIKEYS_FIXED != 0;
    let leaf = h.flags & O_BTREE_FLAG_LEAF != 0;
    let last = i == h.n - 1;
    if !rightmost || i < h.n - 1 {
        if !(c.hk_flags & O_TUPLE_FLAGS_FIXED_FORMAT != 0 || !hikeys_fixed) {
            return false;
        }
    }
    if i > 0 {
        let pc = read_chunk(p, i - 1);
        if !(c.loc >= pc.loc && c.first >= pc.first && c.hk_loc > pc.hk_loc && c.hk_loc
            <= h.hk_end && c.loc <= h.dsize && c.first <= h.items) {
            return false;
        }
    } else {
        let hk_default = btree_page_hikeys_end(leaf) as i64;
        let ma = maxalign_i64(56 + 4 * h.n);
        if !((c.loc == h.hk_end || c.loc == hk_default) && c.first == 0 && c.hk_loc == ma) {
            return false;
        }
    }
    let cnt: i64;
    let end: i64;
    if last {
        if !rightmost && !(c.hk_loc < h.hk_end) {
            return false;
        }
        cnt = h.items - c.first;
        end = h.dsize;
    } else {
        let nc = read_chunk(p, i + 1);
        if !(nc.first <= h.items && nc.first >= c.first && nc.loc <= h.dsize) {
            return false;
        }
        cnt = nc.first - c.first;
        end = nc.loc;
    }
    if cnt < 0 {
        return false;
    }
    let need = maxalign_i64(2 * cnt);
    need <= end - c.loc
}

fn read_item(p: &[u8], loc: i64, j: i64) -> (item: LocationIndex)
    requires
        0 <= loc,
        0 <= j,
        loc + 2 * j + 2 <= p@.len(),
        p@.len() == ORIOLEDB_BLCKSZ,
    ensures
        item == page_i16(p@, loc + 2 * j) as LocationIndex,
{
    let v = rd_i16(p, (loc + 2 * j) as usize);
    v as i16
}

/// Decides the rules on every item of chunk `i`.
fn check_chunk_items(p: &[u8], h: &PageHdr, i: i64) -> (r: bool)
    requires
        p@.len() == ORIOLEDB_BLCKSZ,
        h.flags == hdr_flags(p@),
        h.n == n_chunks(p@),
        h.items == n_items(p@),
        h.hk_end == hikeys_end(p@),
        h.dsize == data_size(p@),
        0 <= h.n < 65536,
        0 <= h.items < 65536,
        -32768 <= h.dsize < 32768,
        header_ok(p@),
        0 <= i < h.n,
        chunk_ok(p@, i as int),
    ensures
        r == chunk_items_ok(p@, i as int),
{
    let c = read_chunk(p, i);
    let leaf = h.flags & O_BTREE_FLAG_LEAF != 0;
    let cnt: i64;
    let end: i64;
    if i == h.n - 1 {
        cnt = h.items - c.first;
        end = h.dsize;
    } else {
        let nc = read_chunk(p, i + 1);
        cnt = nc.first - c.first;
        end = nc.loc;
    }
    let size = end - c.loc;
    let arr = maxalign_i64(2 * cnt);
    let ghost pp = p@;
    let ghost ii = i as int;
    assert(cnt == chunk_n_items(pp, ii));
    assert(size == chunk_size(pp, ii));
    assert(c.loc + 2 * cnt <= end <= ORIOLEDB_BLCKSZ);
    let mut j: i64 = 0;
    while j < cnt
        invariant
            0 <= j <= cnt,
            cnt == chunk_n_items(pp, ii),
            size == chunk_size(pp, ii),
            arr == maxalign_int(2 * cnt),
            c.loc == chunk_loc(pp, ii),
            c.keys_fixed == chunk_keys_fixed_bit(desc_word(pp, ii)),
            0 <= c.loc,
            c.loc + 2 * cnt <= ORIOLEDB_BLCKSZ,
            pp == p@,
            ii == i as int,
            p@.len() == ORIOLEDB_BLCKSZ,
            leaf == hdr_leaf(pp),
            forall|k: int| 0 <= k < j ==> #[trigger] item_ok(pp, ii, k),
        decreases cnt - j,
    {
        let item = read_item(p, c.loc, j);
        let off = BTreePageItemLocator::item_get_offset(item) as i64;
        let flags = BTreePageItemLocator::item_get_flags(item);
        if !(i == 0 && j == 0 && !leaf) {
            if !(flags & O_TUPLE_FLAGS_FIXED_FORMAT != 0 || !c.keys_fixed) {
                assert(!item_ok(pp, ii, j as int));
                return false;
            }
        }
        if !(off >= arr && off <= size) {
            assert(!item_ok(pp, ii, j as int));
            return false;
        }
        if j > 0 {
            let prev = read_item(p, c.loc, j - 1);
            let poff = BTreePageItemLocator::item_get_offset(prev) as i64;
            if !(off >= poff) {
                assert(!item_ok(pp, ii, j as int));
                return false;
            }
        }
        if j < cnt - 1 && leaf && flags == 0 {
            let next = read_item(p, c.loc, j + 1);
            let noff = BTreePageItemLocator::item_get_offset(next) as i64;
            if !(off < noff) {
                assert(!item_ok(pp, ii, j as int));
                return false;
            }
        }
        assert(item_ok(pp, ii, j as int));
        j = j + 1;
    }
    true
}

/// Checks that a page image has a consistent structure: the header, every
/// chunk descriptor and every item location obey the page layout rules.
pub fn o_check_page_struct(page: &[u8]) -> (r: bool)
    requires
        page@.len() == ORIOLEDB_BLCKSZ,
    ensures
        r == page_struct_ok(page@),
{
    let h = read_hdr(page);
    if !(56 + 4 * h.n <= 8192 && h.dsize <= 8192 && h.hk_end <= h.dsize) {
        return false;
    }
    let ghost pp = page@;
    let mut i: i64 = 0;
    while i < h.n
        invariant
            0 <= i <= h.n,
            pp == page@,
            page@.len() == ORIOLEDB_BLCKSZ,
            h.flags == hdr_flags(pp),
            h.n == n_chunks(pp),
            h.items == n_items(pp),
            h.hk_end == hikeys_end(pp),
            h.dsize == data_size(pp),
            0 <= h.n < 65536,
            0 <= h.items < 65536,
            0 <= h.hk_end < 65536,
            -32768 <= h.dsize < 32768,
            header_ok(pp),
            forall|k: int| 0 <= k < i ==> #[trigger] chunk_ok(pp, k),
            forall|k: int| 0 <= k < i ==> #[trigger] chunk_items_ok(pp, k),
        decreases h.n - i,
    {
        if !check_chunk(page, &h, i) {
            return false;
        }
        if !check_chunk_items(page, &h, i) {
            return false;
        }
        i = i + 1;
    }
    true
}


/// Checks the precalculated page statistics against freshly calculated
/// ones: the number of vacated bytes of a leaf page, the number of on-disk
/// downlinks of a non-leaf page.  Both are kept in the second counter of
/// the page bit field.
pub fn o_check_btree_page_statistics(stored: &BTreePageHeader, recalculated: &BTreePageHeader) -> (r:
    bool)
    ensures
        r == (flags_field2(stored.flags) == flags_field2(recalculated.flags)),
{
    if stored.is_leaf() {
        stored.n_vacated() == recalculated.n_vacated()
    } else {
        stored.n_ondisk() == recalculated.n_ondisk()
    }
}

// ============================================================================
// Checks that use the tree's tuple operations
// ============================================================================

/// The tuple operations a B-tree supplies for its tuples and keys, found by
/// their location in a page image.
pub trait BTreeOps {
    /// Length of the tuple or key whose data starts at byte `data` of `page`.
    spec fn spec_len(&self, page: Seq<u8>, data: int, format_flags: u8, length_type: OLengthType) -> int;

    /// Order of two tuples or keys of `page`: negative, zero or positive.
    spec fn spec_compare(
        &self,
        page: Seq<u8>,
        data1: int,
        flags1: u8,
        kind1: BTreeKeyType,
        data2: int,
        flags2: u8,
        kind2: BTreeKeyType,
    ) -> int;

    /// Length of the tuple or key whose data starts at byte `data` of `page`.
    fn len(&self, page: &[u8], data: usize, format_flags: u8, length_type: OLengthType) -> (r: i32)
        ensures
            r == self.spec_len(page@, data as int, format_flags, length_type),
    ;

    /// Compares two tuples or keys of `page`.
    fn compare(
        &self,
        page: &[u8],
        data1: usize,
        flags1: u8,
        kind1: BTreeKeyType,
        data2: usize,
        flags2: u8,
        kind2: BTreeKeyType,
    ) -> (r: i32)
        ensures
            r == self.spec_compare(page@, data1 as int, flags1, kind1, data2 as int, flags2, kind2),
    ;
}

/// Chunk `i` has a hikey: every chunk but the last one of a rightmost page.
pub open spec fn chunk_has_hikey(p: Seq<u8>, i: int) -> bool {
    !(hdr_rightmost(p) && i == n_chunks(p) - 1)
}

/// Format flags of the hikey of chunk `i`.
pub open spec fn chunk_hikey_format(p: Seq<u8>, i: int) -> u8 {
    chunk_hikey_flags(desc_word(p, i)) as u8
}

/// Format flags of item `j` of chunk `i`.
pub open spec fn item_format(p: Seq<u8>, i: int, j: int) -> u8 {
    item_flags_of(chunk_item(p, i, j)) as u8
}

/// Where the tuple or key of item `j` of chunk `i` starts: after the item's
/// leaf or non-leaf tuple header.
pub open spec fn item_data(p: Seq<u8>, i: int, j: int) -> int {
    chunk_loc(p, i) + chunk_item_offset(p, i, j) + (if hdr_leaf(p) {
        BTREE_LEAF_TUPHDR_SIZE as int
    } else {
        BTREE_NON_LEAF_TUPHDR_SIZE as int
    })
}

/// The first item of a non-leaf page carries no key, only its header.
pub open spec fn item_has_key(p: Seq<u8>, i: int, j: int) -> bool {
    hdr_leaf(p) || !(i == 0 && j == 0)
}

/// Bytes taken by item `j` of chunk `i`: its header plus the length of its
/// tuple (leaf pages) or key (non-leaf pages).
pub open spec fn item_len<D: BTreeOps>(d: &D, p: Seq<u8>, i: int, j: int) -> int {
    if hdr_leaf(p) {
        BTREE_LEAF_TUPHDR_SIZE + d.spec_len(p, item_data(p, i, j), item_format(p, i, j), OLengthType::Tuple)
    } else if item_has_key(p, i, j) {
        BTREE_NON_LEAF_TUPHDR_SIZE + d.spec_len(p, item_data(p, i, j), item_format(p, i, j), OLengthType::Key)
    } else {
        BTREE_NON_LEAF_TUPHDR_SIZE as int
    }
}

/// The key kind of the items of a page: leaf tuples or non-leaf keys.
pub open spec fn item_kind(p: Seq<u8>) -> BTreeKeyType {
    if hdr_leaf(p) {
        BTreeKeyType::LeafTuple
    } else {
        BTreeKeyType::NonLeafKey
    }
}

/// The rules the tuple operations decide on item `j` of chunk `i`: its key
/// lies below its chunk's hikey and not below the previous chunk's hikey,
/// and the item fits before the next item (or the end of the chunk).
pub open spec fn desc_item_ok<D: BTreeOps>(d: &D, p: Seq<u8>, i: int, j: int) -> bool {
    let cnt = chunk_n_items(p, i);
    &&& (item_has_key(p, i, j) && chunk_has_hikey(p, i)) ==> d.spec_compare(
        p,
        item_data(p, i, j),
        item_format(p, i, j),
        item_kind(p),
        chunk_hikey_loc(p, i),
        chunk_hikey_format(p, i),
        BTreeKeyType::NonLeafKey,
    ) < 0
    &&& (item_has_key(p, i, j) && i > 0) ==> d.spec_compare(
        p,
        item_data(p, i, j),
        item_format(p, i, j),
        item_kind(p),
        chunk_hikey_loc(p, i - 1),
        chunk_hikey_format(p, i - 1),
        BTreeKeyType::NonLeafKey,
    ) >= 0
    &&& j < cnt - 1 ==> chunk_item_offset(p, i, j) + item_len(d, p, i, j) <= chunk_item_offset(
        p,
        i,
        j + 1,
    )
    &&& j == cnt - 1 ==> chunk_item_offset(p, i, j) + item_len(d, p, i, j) <= chunk_size(p, i)
}

/// Every item of chunk `i` satisfies the rules of the tuple operations.
pub open spec fn desc_chunk_ok<D: BTreeOps>(d: &D, p: Seq<u8>, i: int) -> bool {
    forall|j: int| 0 <= j < chunk_n_items(p, i) ==> #[trigger] desc_item_ok(d, p, i, j)
}

/// Every item of the page satisfies the rules of the tuple operations.
pub open spec fn desc_page_ok<D: BTreeOps>(d: &D, p: Seq<u8>) -> bool {
    forall|i: int| 0 <= i < n_chunks(p) ==> #[trigger] desc_chunk_ok(d, p, i)
}

/// The previous chunk's hikey is an inclusive lower bound and a chunk's own
/// hikey an exclusive upper bound: an item whose key compares equal to the
/// previous chunk's hikey, lies below its own chunk's hikey and fits is
/// accepted; an item whose key lies below the previous chunk's hikey, or not
/// below its own chunk's hikey, is refused.
pub proof fn lemma_item_key_bounds<D: BTreeOps>(d: &D, p: Seq<u8>, i: int, j: int)
    ensures
        ({
            &&& i > 0
            &&& item_has_key(p, i, j)
            &&& d.spec_compare(
                p,
                item_data(p, i, j),
                item_format(p, i, j),
                item_kind(p),
                chunk_hikey_loc(p, i - 1),
                chunk_hikey_format(p, i - 1),
                BTreeKeyType::NonLeafKey,
            ) == 0
            &&& chunk_has_hikey(p, i) ==> d.spec_compare(
                p,
                item_data(p, i, j),
                item_format(p, i, j),
                item_kind(p),
                chunk_hikey_loc(p, i),
                chunk_hikey_format(p, i),
                BTreeKeyType::NonLeafKey,
            ) < 0
            &&& j < chunk_n_items(p, i) - 1 ==> chunk_item_offset(p, i, j) + item_len(d, p, i, j)
                <= chunk_item_offset(p, i, j + 1)
            &&& j == chunk_n_items(p, i) - 1 ==> chunk_item_offset(p, i, j) + item_len(d, p, i, j)
                <= chunk_size(p, i)
        }) ==> desc_item_ok(d, p, i, j),
        (i > 0 && item_has_key(p, i, j) && d.spec_compare(
            p,
            item_data(p, i, j),
            item_format(p, i, j),
            item_kind(p),
            chunk_hikey_loc(p, i - 1),
            chunk_hikey_format(p, i - 1),
            BTreeKeyType::NonLeafKey,
        ) < 0) ==> !desc_item_ok(d, p, i, j),
        (chunk_has_hikey(p, i) && item_has_key(p, i, j) && d.spec_compare(
            p,
            item_data(p, i, j),
            item_format(p, i, j),
            item_kind(p),
            chunk_hikey_loc(p, i),
            chunk_hikey_format(p, i),
            BTreeKeyType::NonLeafKey,
        ) >= 0) ==> !desc_item_ok(d, p, i, j),
{
}

/// The item rules decide a page: it satisfies the rules of the tuple
/// operations exactly when every item of every chunk satisfies the item
/// rules (`lemma_item_key_bounds`).
pub proof fn lemma_desc_page_ok_items<D: BTreeOps>(d: &D, p: Seq<u8>)
    ensures
        desc_page_ok(d, p) <==> forall|i: int, j: int|
            0 <= i < n_chunks(p) && 0 <= j < chunk_n_items(p, i) ==> #[trigger] desc_item_ok(
                d,
                p,
                i,
                j,
            ),
{
    if desc_page_ok(d, p) {
        assert forall|i: int, j: int|
            0 <= i < n_chunks(p) && 0 <= j < chunk_n_items(p, i) implies #[trigger] desc_item_ok(
            d,
            p,
            i,
            j,
        ) by {
            assert(desc_chunk_ok(d, p, i));
        }
    }
}

fn check_desc_chunk<D: BTreeOps>(d: &D, p: &[u8], h: &PageHdr, i: i64) -> (r: bool)
    requires
        p@.len() == ORIOLEDB_BLCKSZ,
        h.flags == hdr_flags(p@),
        h.n == n_chunks(p@),
        h.items == n_items(p@),
        h.hk_end == hikeys_end(p@),
        h.dsize == data_size(p@),
        0 <= h.n < 65536,
        0 <= h.items < 65536,
        -32768 <= h.dsize < 32768,
        header_ok(p@),
        0 <= i < h.n,
        chunk_ok(p@, i as int),
    ensures
        r == desc_chunk_ok(d, p@, i as int),
{
    let c = read_chunk(p, i);
    let leaf = h.flags & O_BTREE_FLAG_LEAF != 0;
    let rightmost = h.flags & O_BTREE_FLAG_RIGHTMOST != 0;
    let has_hikey = !(rightmost && i == h.n - 1);
    let cnt: i64;
    let end: i64;
    if i == h.n - 1 {
        cnt = h.items - c.first;
        end = h.dsize;
    } else {
        let nc = read_chunk(p, i + 1);
        cnt = nc.first - c.first;
        end = nc.loc;
    }
    let size = end - c.loc;
    let ghost pp = p@;
    let ghost ii = i as int;
    assert(cnt == chunk_n_items(pp, ii));
    assert(size == chunk_size(pp, ii));
    assert(c.loc + 2 * cnt <= end <= ORIOLEDB_BLCKSZ);
    let (prev_loc, prev_flags) = if i > 0 {
        let pc = read_chunk(p, i - 1);
        (pc.hk_loc, pc.hk_flags as u8)
    } else {
        (0, 0)
    };
    let hk_flags = c.hk_flags as u8;
    let hdr_size: i64 = if leaf {
        16
    } else {
        8
    };
    let kind = if leaf {
        BTreeKeyType::LeafTuple
    } else {
        BTreeKeyType::NonLeafKey
    };
    let mut j: i64 = 0;
    while j < cnt
        invariant
            0 <= j <= cnt,
            cnt == chunk_n_items(pp, ii),
            size == chunk_size(pp, ii),
            c.loc == chunk_loc(pp, ii),
            c.hk_loc == chunk_hikey_loc(pp, ii),
            hk_flags == chunk_hikey_format(pp, ii),
            ii > 0 ==> prev_loc == chunk_hikey_loc(pp, ii - 1) && prev_flags == chunk_hikey_format(
                pp,
                ii - 1,
            ),
            0 <= c.loc,
            0 <= c.hk_loc <= 4 * 127,
            0 <= prev_loc <= 4 * 127,
            c.loc + 2 * cnt <= ORIOLEDB_BLCKSZ,
            pp == p@,
            ii == i as int,
            p@.len() == ORIOLEDB_BLCKSZ,
            leaf == hdr_leaf(pp),
            has_hikey == chunk_has_hikey(pp, ii),
            hdr_size == (if leaf {
                BTREE_LEAF_TUPHDR_SIZE
            } else {
                BTREE_NON_LEAF_TUPHDR_SIZE
            }),
            kind == item_kind(pp),
            forall|k: int| 0 <= k < j ==> #[trigger] desc_item_ok(d, pp, ii, k),
        decreases cnt - j,
    {
        let item = read_item(p, c.loc, j);
        let off = BTreePageItemLocator::item_get_offset(item) as i64;
        let flags = BTreePageItemLocator::item_get_flags(item) as u8;
        let data = c.loc + off + hdr_size;
        let has_key = leaf || !(i == 0 && j == 0);
        let len: i64 = if has_key {
            let lt = if leaf {
                OLengthType::Tuple
            } else {
                OLengthType::Key
            };
            hdr_size + d.len(p, data as usize, flags, lt) as i64
        } else {
            hdr_size
        };
        assert(len == item_len(d, pp, ii, j as int));
        if has_key && has_hikey {
            let c1 = d.compare(
                p,
                data as usize,
                flags,
                kind,
                c.hk_loc as usize,
                hk_flags,
                BTreeKeyType::NonLeafKey,
            );
            if !(c1 < 0) {
                assert(!desc_item_ok(d, pp, ii, j as int));
                return false;
            }
        }
        if has_key && i > 0 {
            let c2 = d.compare(
                p,
                data as usize,
                flags,
                kind,
                prev_loc as usize,
                prev_flags,
                BTreeKeyType::NonLeafKey,
            );
            if !(c2 >= 0) {
                assert(!desc_item_ok(d, pp, ii, j as int));
                return false;
            }
        }
        if j < cnt - 1 {
            let next = read_item(p, c.loc, j + 1);
            let noff = BTreePageItemLocator::item_get_offset(next) as i64;
            if !(off + len <= noff) {
                assert(!desc_item_ok(d, pp, ii, j as int));
                return false;
            }
        } else {
            if !(off + len <= size) {
                assert(!desc_item_ok(d, pp, ii, j as int));
                return false;
            }
        }
        assert(desc_item_ok(d, pp, ii, j as int));
        j = j + 1;
    }
    true
}

/// Checks that a page image has a consistent structure, as
/// `o_check_page_struct` does, and that the tree's tuple operations agree
/// with it: every key lies below its chunk's hikey and not below the
/// previous chunk's hikey, and every item fits before the next one.
pub fn o_check_page_struct_with_desc<D: BTreeOps>(desc: &D, page: &[u8]) -> (r: bool)
    requires
        page@.len() == ORIOLEDB_BLCKSZ,
    ensures
        r == (page_struct_ok(page@) && desc_page_ok(desc, page@)),
{
    if !o_check_page_struct(page) {
        return false;
    }
    let h = read_hdr(page);
    let ghost pp = page@;
    let mut i: i64 = 0;
    while i < h.n
        invariant
            0 <= i <= h.n,
            pp == page@,
            page@.len() == ORIOLEDB_BLCKSZ,
            h.flags == hdr_flags(pp),
            h.n == n_chunks(pp),
            h.items == n_items(pp),
            h.hk_end == hikeys_end(pp),
            h.dsize == data_size(pp),
            0 <= h.n < 65536,
            0 <= h.items < 65536,
            0 <= h.hk_end < 65536,
            -32768 <= h.dsize < 32768,
            page_struct_ok(pp),
            forall|k: int| 0 <= k < i ==> #[trigger] desc_chunk_ok(desc, pp, k),
        decreases h.n - i,
    {
        assert(chunk_ok(pp, i as int));
        if !check_desc_chunk(desc, page, &h, i) {
            return false;
        }
        i = i + 1;
    }
    true
}

} // verus!
