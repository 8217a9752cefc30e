use orioledb::page_check::{
    o_check_btree_page_statistics, o_check_page_struct, o_check_page_struct_with_desc, BTreeOps,
};
use orioledb::btree::{o_btree_cmp, o_btree_len};
use orioledb::types::{BTreeKeyType, OLengthType, OTuple};
use orioledb::types::{BTreePageHeader, OrioleDBPageHeader, O_BTREE_FLAGS_ROOT_INIT};

fn put16(p: &mut [u8], off: usize, v: u16) {
    p[off..off + 2].copy_from_slice(&v.to_le_bytes());
}

fn put32(p: &mut [u8], off: usize, v: u32) {
    p[off..off + 4].copy_from_slice(&v.to_le_bytes());
}

/// A root leaf page with one chunk at byte 256 holding two items.
fn good_leaf_page() -> Vec<u8> {
    let mut p = vec![0u8; 8192];
    put32(&mut p, 40, O_BTREE_FLAGS_ROOT_INIT);
    put16(&mut p, 48, 1); // chunks
    put16(&mut p, 50, 2); // items
    put16(&mut p, 52, 256); // hikeys end
    put16(&mut p, 54, 328); // data size
    // chunk 0: short location 64 (byte 256), offset 0, hikey short location 16 (byte 64)
    put32(&mut p, 56, 64 | (16 << 22));
    put16(&mut p, 256, 8);
    put16(&mut p, 258, 40);
    p
}

#[test]
fn page_struct_accepts_consistent_leaf() {
    assert!(o_check_page_struct(&good_leaf_page()));
}

#[test]
fn page_struct_rejects_hikeys_beyond_data() {
    let mut p = good_leaf_page();
    put16(&mut p, 52, 400);
    assert!(!o_check_page_struct(&p));
}

#[test]
fn page_struct_rejects_oversized_data() {
    let mut p = good_leaf_page();
    put16(&mut p, 54, 9000);
    assert!(!o_check_page_struct(&p));
}

#[test]
fn page_struct_rejects_unordered_leaf_items() {
    let mut p = good_leaf_page();
    put16(&mut p, 256, 40);
    put16(&mut p, 258, 8);
    assert!(!o_check_page_struct(&p));
}

#[test]
fn page_struct_rejects_equal_leaf_items_without_flags() {
    let mut p = good_leaf_page();
    put16(&mut p, 258, 8);
    assert!(!o_check_page_struct(&p));
}

#[test]
fn page_struct_rejects_item_inside_location_array() {
    let mut p = good_leaf_page();
    put16(&mut p, 256, 4);
    assert!(!o_check_page_struct(&p));
}

#[test]
fn page_struct_rejects_item_beyond_chunk() {
    let mut p = good_leaf_page();
    put16(&mut p, 258, 80);
    assert!(!o_check_page_struct(&p));
}

#[test]
fn page_struct_rejects_misplaced_first_hikey() {
    let mut p = good_leaf_page();
    put32(&mut p, 56, 64 | (17 << 22));
    assert!(!o_check_page_struct(&p));
}

#[test]
fn page_struct_rejects_first_chunk_with_offset() {
    let mut p = good_leaf_page();
    put32(&mut p, 56, 64 | (1 << 12) | (16 << 22));
    assert!(!o_check_page_struct(&p));
}

#[test]
fn page_struct_rejects_fixed_keys_without_fixed_items() {
    let mut p = good_leaf_page();
    put32(&mut p, 56, 64 | (16 << 22) | (1 << 29));
    assert!(!o_check_page_struct(&p));
    // With the fixed-format flag on both items the chunk is fine again.
    put16(&mut p, 256, 8 | 0x4000);
    put16(&mut p, 258, 40 | 0x4000);
    assert!(o_check_page_struct(&p));
}

#[test]
fn page_struct_empty_page_without_chunks() {
    let mut p = vec![0u8; 8192];
    put32(&mut p, 40, O_BTREE_FLAGS_ROOT_INIT);
    put16(&mut p, 52, 256);
    put16(&mut p, 54, 256);
    assert!(o_check_page_struct(&p));
}

#[test]
fn page_struct_two_chunks() {
    // A non-rightmost leaf with two chunks: [256, 272) with one item and
    // [272, 304) with one item.
    let mut p = vec![0u8; 8192];
    put32(&mut p, 40, 0x4); // leaf only
    put16(&mut p, 48, 2);
    put16(&mut p, 50, 2);
    put16(&mut p, 52, 256);
    put16(&mut p, 54, 304);
    // hikeys of chunk 0 at byte 64, chunk 1 at byte 80 (< hikeys end)
    put32(&mut p, 56, 64 | (16 << 22));
    put32(&mut p, 60, 68 | (1 << 12) | (20 << 22));
    put16(&mut p, 256, 8);
    put16(&mut p, 272, 8);
    assert!(o_check_page_struct(&p));
    // The second chunk may not start before the first.
    put32(&mut p, 60, 60 | (1 << 12) | (20 << 22));
    assert!(!o_check_page_struct(&p));
}

fn hdr(flags: u32) -> BTreePageHeader {
    BTreePageHeader {
        o_header: OrioleDBPageHeader { state: 0, page_change_count: 0, checkpoint_num: 0 },
        undo_location: 0,
        csn: 0,
        right_link: 0,
        flags,
        max_key_len: 0,
        prev_insert_offset: 0,
        chunks_count: 0,
        items_count: 0,
        hikeys_end: 0,
        data_size: 0,
    }
}

#[test]
fn page_statistics_compare_second_counter() {
    let a = hdr(0x4 | (10 << 17));
    let b = hdr(0x4 | (10 << 17) | (3 << 6));
    let c = hdr(0x4 | (11 << 17));
    assert!(o_check_btree_page_statistics(&a, &b));
    assert!(!o_check_btree_page_statistics(&a, &c));
    assert!(!o_check_btree_page_statistics(&hdr(1 << 17), &hdr(2 << 17)));
}

/// Tuples whose first byte is their length and whose second byte is their
/// key.
struct ByteTuples;

impl BTreeOps for ByteTuples {
    fn spec_len(
        &self,
        _page: vstd::seq::Seq<u8>,
        _data: vstd::prelude::int,
        _format_flags: u8,
        _length_type: OLengthType,
    ) -> vstd::prelude::int {
        unreachable!()
    }

    fn spec_compare(
        &self,
        _page: vstd::seq::Seq<u8>,
        _data1: vstd::prelude::int,
        _flags1: u8,
        _kind1: BTreeKeyType,
        _data2: vstd::prelude::int,
        _flags2: u8,
        _kind2: BTreeKeyType,
    ) -> vstd::prelude::int {
        unreachable!()
    }

    fn len(&self, page: &[u8], data: usize, _format_flags: u8, _length_type: OLengthType) -> i32 {
        page[data] as i32
    }

    fn compare(
        &self,
        page: &[u8],
        data1: usize,
        _flags1: u8,
        _kind1: BTreeKeyType,
        data2: usize,
        _flags2: u8,
        _kind2: BTreeKeyType,
    ) -> i32 {
        (page[data1 + 1] as i32) - (page[data2 + 1] as i32)
    }
}

/// A non-rightmost leaf with one chunk holding two tuples, whose hikey
/// (at byte 64) has key 50.
fn leaf_with_tuples() -> Vec<u8> {
    let mut p = vec![0u8; 8192];
    put32(&mut p, 40, 0x4);
    put16(&mut p, 48, 1);
    put16(&mut p, 50, 2);
    put16(&mut p, 52, 256);
    put16(&mut p, 54, 256 + 72);
    put32(&mut p, 56, 64 | (16 << 22));
    p[65] = 50;
    put16(&mut p, 256, 8);
    put16(&mut p, 258, 40);
    // tuple 0: header at 264, data at 280: length 8, key 10
    p[280] = 8;
    p[281] = 10;
    // tuple 1: header at 296, data at 312: length 8, key 20
    p[312] = 8;
    p[313] = 20;
    p
}

#[test]
fn page_struct_with_desc_accepts_ordered_tuples() {
    let p = leaf_with_tuples();
    assert!(o_check_page_struct(&p));
    assert!(o_check_page_struct_with_desc(&ByteTuples, &p));
}

#[test]
fn page_struct_with_desc_rejects_key_above_hikey() {
    let mut p = leaf_with_tuples();
    p[313] = 60;
    assert!(o_check_page_struct(&p));
    assert!(!o_check_page_struct_with_desc(&ByteTuples, &p));
}

#[test]
fn page_struct_with_desc_rejects_overlapping_tuples() {
    let mut p = leaf_with_tuples();
    p[280] = 30;
    assert!(!o_check_page_struct_with_desc(&ByteTuples, &p));
}

#[test]
fn page_struct_with_desc_rejects_tuple_past_chunk_end() {
    let mut p = leaf_with_tuples();
    p[312] = 40;
    assert!(!o_check_page_struct_with_desc(&ByteTuples, &p));
}

#[test]
fn btree_len_and_cmp_go_through_the_operations() {
    let page = vec![7u8, 30, 0, 5, 10, 0];
    let t1 = OTuple { data: 0, format_flags: 0 };
    let t2 = OTuple { data: 3, format_flags: 0 };
    assert_eq!(o_btree_len(&ByteTuples, &page, t1, OLengthType::Tuple), 7);
    assert_eq!(o_btree_len(&ByteTuples, &page, t2, OLengthType::Key), 5);
    assert_eq!(
        o_btree_cmp(&ByteTuples, &page, t1, BTreeKeyType::LeafTuple, t2, BTreeKeyType::LeafTuple),
        20
    );
    assert_eq!(
        o_btree_cmp(&ByteTuples, &page, t2, BTreeKeyType::NonLeafKey, t1, BTreeKeyType::LeafTuple),
        -20
    );
}
