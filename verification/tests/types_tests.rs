use orioledb::btree::{tree_has_oids, BTreeDescr};
use orioledb::types::COMMITSEQNO_FROZEN;
use orioledb::types::{
    BTreeDirtyPart, BTreeS3PartsInfo, BTreeStorageType, OIndexType, OSmgr, SeqBufDescPrivate, SeqBufTag, SmgrArray,
    SmgrTag,
};
use orioledb::types::{
    assert_type_sizes, btree_page_hikeys_end, commitseqno_is_inprogress, commitseqno_is_normal,
    disk_downlink_is_valid, downlink_get_in_memory_blkno, downlink_is_in_io, downlink_is_in_memory,
    downlink_is_on_disk, get_page_level_undo_type, is_bound_key_type, location_get_short,
    make_in_memory_downlink, make_in_memory_rightlink, maxalign, my_align, my_align_down,
    o_compress_is_valid, o_in_memory_blkno_is_valid, o_page_get_change_count, o_page_is_local,
    oid_is_valid, orel_oids_is_valid, oxid_is_valid, right_link_is_valid, row_locks_conflict,
    short_get_location, undo_location_get_value, undo_location_is_valid, xact_info_get_lock_mode,
    xact_info_get_oxid, xact_info_is_lock_only, BTreeKeyType, BTreeLeafTupleDeletedStatus,
    BTreeLeafTuphdr, BTreePageChunk, BTreePageChunkDesc, BTreePageHeader, BTreePageItemLocator,
    BTreeRootInfo, FileExtent, LWLock, ORelOids, OTuple, OrioleDBPageHeader, RowLockMode, SLock,
    UndoLogType, O_BTREE_FLAGS_ROOT_INIT, O_BTREE_FLAG_BROKEN_SPLIT, O_BTREE_FLAG_HIKEYS_FIXED,
    O_BTREE_FLAG_LEAF,
};

#[test]
fn block_numbers() {
    assert!(o_page_is_local(0x8000_0000));
    assert!(o_page_is_local(0xFFFF_FFFE));
    assert!(!o_page_is_local(0x7FFF_FFFF));
    assert!(!o_in_memory_blkno_is_valid(0xFFFF_FFFF));
    assert!(o_in_memory_blkno_is_valid(0));
}

#[test]
fn xid_undo_csn_predicates() {
    assert!(!oxid_is_valid(0x7FFF_FFFF_FFFF_FFFF));
    assert!(oxid_is_valid(5));
    assert!(undo_location_is_valid(0x1FFF_FFFF_FFFF_FFFE));
    assert!(!undo_location_is_valid(0x2000_0000_0000_0000));
    assert!(!undo_location_is_valid(0x2000_0000_0000_0001));
    assert_eq!(undo_location_get_value(0x2000_0000_0000_0005), 5);
    assert_eq!(undo_location_get_value(0xE000_0000_0000_0007), 7);
    assert!(commitseqno_is_normal(1));
    assert!(!commitseqno_is_normal(0));
    assert!(commitseqno_is_inprogress(0));
    assert!(!commitseqno_is_inprogress(3));
    assert!(!commitseqno_is_inprogress(COMMITSEQNO_FROZEN));
    assert!(!commitseqno_is_inprogress(5));
    assert!(!commitseqno_is_normal(COMMITSEQNO_FROZEN));
    assert!(commitseqno_is_normal(5));
    assert!(o_compress_is_valid(10));
    assert!(!o_compress_is_valid(-1));
    assert_eq!(o_page_get_change_count(17), 17);
}

#[test]
fn xact_info_fields() {
    let info: u64 = (1u64 << 60) | (2u64 << 61) | 12345;
    assert!(xact_info_is_lock_only(info));
    assert_eq!(xact_info_get_lock_mode(info), 2);
    assert_eq!(xact_info_get_oxid(info), 12345);
    assert!(!xact_info_is_lock_only(12345));
    assert_eq!(xact_info_get_lock_mode(3u64 << 61), 3);
    assert_eq!(xact_info_get_lock_mode(1u64 << 61), 1);
    assert_eq!(xact_info_get_lock_mode(1u64 << 60), 0);
    assert_eq!(xact_info_get_oxid(0x1FFF_FFFF_FFFF_FFFF), 0x0FFF_FFFF_FFFF_FFFF);
    assert_eq!(xact_info_get_oxid(u64::MAX), (1u64 << 60) - 1);
}

#[test]
fn rel_oids() {
    let mut oids = ORelOids { datoid: 1, reloid: 2, relnode: 3 };
    assert!(oids.is_valid());
    assert!(orel_oids_is_valid(&oids));
    assert!(!oids.is_invalid());
    assert!(oids.is_equal(&ORelOids { datoid: 1, reloid: 2, relnode: 3 }));
    assert!(!oids.is_equal(&ORelOids { datoid: 1, reloid: 2, relnode: 4 }));
    oids.set_invalid();
    assert_eq!(oids, ORelOids { datoid: 0, reloid: 0, relnode: 0 });
    assert!(oids.is_invalid());
    assert!(!ORelOids { datoid: 1, reloid: 0, relnode: 3 }.is_valid());
    assert!(oid_is_valid(16384));
    assert!(!oid_is_valid(0));
}

#[test]
fn file_extent_validity() {
    assert!(FileExtent { len: 1, off: 0 }.is_valid());
    assert!(!FileExtent { len: 0, off: 0 }.is_valid());
    assert!(!FileExtent { len: 3, off: 0xFFFF_FFFF_FFFF }.is_valid());
    assert!(FileExtent::len_is_valid(5));
    assert!(!FileExtent::off_is_valid(0xFFFF_FFFF_FFFF));
}

#[test]
fn undo_page_level() {
    assert_eq!(UndoLogType::Regular.get_page_level(), UndoLogType::RegularPageLevel);
    assert_eq!(get_page_level_undo_type(UndoLogType::System), UndoLogType::System);
    assert_eq!(get_page_level_undo_type(UndoLogType::Invalid), UndoLogType::Invalid);
    assert_eq!(
        get_page_level_undo_type(UndoLogType::RegularPageLevel),
        UndoLogType::RegularPageLevel
    );
}

#[test]
fn key_types() {
    assert!(BTreeKeyType::Bound.is_bound());
    assert!(is_bound_key_type(BTreeKeyType::UniqueLowerBound));
    assert!(is_bound_key_type(BTreeKeyType::UniqueUpperBound));
    assert!(!is_bound_key_type(BTreeKeyType::LeafTuple));
    assert!(!BTreeKeyType::NoKey.is_bound());
    assert!(!BTreeKeyType::PageHiKey.is_bound());
}

#[test]
fn root_info_validity() {
    let r = BTreeRootInfo { root_page_blkno: 3, root_page_change_count: 0, meta_page_blkno: 0xFFFF_FFFF };
    assert!(r.root_page_is_valid());
    assert!(!r.meta_page_is_valid());
}

#[test]
fn chunk_desc_fields() {
    let packed: u32 = 0xABC | (0x155 << 12) | (0x5A << 22) | (1 << 29) | (2 << 30);
    let d = BTreePageChunkDesc::from_packed(packed);
    assert_eq!(d.packed(), packed);
    assert_eq!(d.short_location(), 0xABC);
    assert_eq!(d.offset(), 0x155);
    assert_eq!(d.hikey_short_location(), 0x5A);
    assert!(d.chunk_keys_fixed());
    assert_eq!(d.hikey_flags(), 2);
    assert!(!BTreePageChunkDesc::from_packed(0).chunk_keys_fixed());
    assert_eq!(short_get_location(16), 64);
    assert_eq!(location_get_short(64), 16);
    assert_eq!(location_get_short(short_get_location(4095)), 4095);
}

#[test]
fn leaf_tuphdr_fields() {
    let low: u64 = 0x1234_5678 | (2u64 << 61) | (1u64 << 63);
    let high: u64 = 0xABCD | (3u64 << 62);
    let h = BTreeLeafTuphdr::from_parts(low, high);
    assert_eq!(h.parts(), (low, high));
    assert_eq!(h.xact_info(), 0x1234_5678);
    assert_eq!(h.deleted(), 2);
    assert!(h.chain_has_locks());
    assert_eq!(h.undo_location(), 0xABCD);
    assert_eq!(h.format_flags(), 3);
    assert_eq!(h.deleted_status(), BTreeLeafTupleDeletedStatus::MovedPartitions);
    let plain = BTreeLeafTuphdr::from_parts(7, 9);
    assert_eq!(plain.deleted_status(), BTreeLeafTupleDeletedStatus::NonDeleted);
    assert!(!plain.chain_has_locks());
    assert_eq!(plain.undo_location(), 9);
    assert_eq!(plain.format_flags(), 0);
    let deleted = BTreeLeafTuphdr::from_parts(1u64 << 61, 0);
    assert_eq!(deleted.deleted_status(), BTreeLeafTupleDeletedStatus::Deleted);
    let pk = BTreeLeafTuphdr::from_parts(3u64 << 61, 0);
    assert_eq!(pk.deleted_status(), BTreeLeafTupleDeletedStatus::PkChanged);
}

#[test]
fn downlinks_and_rightlinks() {
    let dl = make_in_memory_downlink(1234);
    assert_eq!(dl, 1234);
    assert!(downlink_is_in_memory(dl));
    assert!(downlink_is_in_io(dl));
    assert!(!downlink_is_in_io(0));
    assert!(!downlink_is_on_disk(dl));
    assert_eq!(downlink_get_in_memory_blkno(dl), 1234);
    let disk = (1u64 << 63) | 99;
    assert!(downlink_is_on_disk(disk));
    assert!(!downlink_is_in_memory(disk));
    assert_eq!(downlink_get_in_memory_blkno(0x1_0000_0005), 5);
    assert!(disk_downlink_is_valid(disk));
    assert!(!disk_downlink_is_valid(0));
    assert!(right_link_is_valid(make_in_memory_rightlink(7)));
    assert!(!right_link_is_valid(0));
}

#[test]
fn row_lock_conflicts() {
    assert!(!row_locks_conflict(RowLockMode::KeyShare, RowLockMode::KeyShare));
    assert!(!row_locks_conflict(RowLockMode::KeyShare, RowLockMode::Share));
    assert!(!row_locks_conflict(RowLockMode::KeyShare, RowLockMode::NoKeyUpdate));
    assert!(row_locks_conflict(RowLockMode::KeyShare, RowLockMode::Update));
    assert!(!row_locks_conflict(RowLockMode::Share, RowLockMode::Share));
    assert!(row_locks_conflict(RowLockMode::Share, RowLockMode::NoKeyUpdate));
    assert!(row_locks_conflict(RowLockMode::NoKeyUpdate, RowLockMode::NoKeyUpdate));
    assert!(row_locks_conflict(RowLockMode::Update, RowLockMode::KeyShare));
}

#[test]
fn alignment() {
    assert_eq!(my_align(0, 8), 0);
    assert_eq!(my_align(1, 8), 8);
    assert_eq!(my_align(8, 8), 8);
    assert_eq!(my_align(13, 4), 16);
    assert_eq!(maxalign(9), 16);
    assert_eq!(maxalign(16), 16);
    assert_eq!(my_align_down(15, 8), 8);
    assert_eq!(my_align_down(16, 8), 16);
    assert_eq!(my_align_down(3, 4), 0);
}

#[test]
fn locks_start_free() {
    assert_eq!(SLock::new().holder, 0);
    assert_eq!(LWLock::new().lock.holder, 0);
    assert_eq!(SLock::default().holder, 0);
    assert_eq!(LWLock::default().lock.holder, 0);
}

#[test]
fn tuple_null() {
    let mut t = OTuple { data: 0x1000, format_flags: 1 };
    assert!(!t.is_null());
    t.set_null();
    assert!(t.is_null());
    assert_eq!(t.format_flags, 0);
}

#[test]
fn item_locator() {
    let mut loc = BTreePageItemLocator {
        chunk_offset: 1,
        item_offset: 2,
        chunk_items_count: 5,
        chunk_size: 100,
        chunk: Some(256),
    };
    assert!(loc.is_valid());
    loc.item_offset = 5;
    assert!(!loc.is_valid());
    loc.set_invalid();
    assert!(!loc.is_valid());
    assert_eq!(loc.chunk, None);
    assert_eq!(loc.chunk_offset, 1);
    assert_eq!(BTreePageItemLocator::item_get_offset(0x4123), 0x123);
    assert_eq!(BTreePageItemLocator::item_get_flags(0x4123), 1);
    assert_eq!(BTreePageItemLocator::item_get_flags(0x0123), 0);
    assert_eq!(BTreePageItemLocator::item_get_flags(-1), u32::MAX);
    assert_eq!(BTreePageItemLocator::item_get_flags(i16::MIN), u32::MAX - 1);
    let set = BTreePageItemLocator::item_set_flags(0x0123, true);
    assert_eq!(set, 0x4123);
    assert_eq!(BTreePageItemLocator::item_set_flags(set, false), 0x0123);
    let chunk = BTreePageChunk { items: vec![8, 0x4010, 40] };
    assert_eq!(BTreePageItemLocator::item_get_offset_at(Some(&chunk), 1), 0x10);
    assert_eq!(BTreePageItemLocator::item_get_offset_at(None, 1), 0);
}

fn header(flags: u32, data_size: i16) -> BTreePageHeader {
    BTreePageHeader {
        o_header: OrioleDBPageHeader { state: 0, page_change_count: 0, checkpoint_num: 0 },
        undo_location: 0,
        csn: 0,
        right_link: 0,
        flags,
        max_key_len: 0,
        prev_insert_offset: 0,
        chunks_count: 1,
        items_count: 0,
        hikeys_end: 256,
        data_size,
    }
}

#[test]
fn page_header_flags() {
    let h = header(O_BTREE_FLAGS_ROOT_INIT, 0);
    assert!(h.is_leaf());
    assert!(h.is_leftmost());
    assert!(h.is_rightmost());
    assert!(!h.is_broken_split());
    assert!(!h.hikeys_fixed());
    assert!(h.has_flag(O_BTREE_FLAG_LEAF));
    let h2 = header(O_BTREE_FLAG_BROKEN_SPLIT | O_BTREE_FLAG_HIKEYS_FIXED, 0);
    assert!(h2.is_broken_split());
    assert!(h2.hikeys_fixed());
    assert!(!h2.is_leaf());
    assert_eq!(h2.items_count(), 0);
    assert_eq!(h2.right_link(), 0);
}

#[test]
fn page_header_counters() {
    let mut h = header(O_BTREE_FLAG_LEAF, 0);
    h.set_level(5);
    assert_eq!(h.level(), 5);
    assert!(h.is_leaf());
    h.set_n_ondisk(100);
    assert_eq!(h.n_ondisk(), 100);
    assert_eq!(h.level(), 5);
    h.inc_n_ondisk();
    assert_eq!(h.n_ondisk(), 101);
    h.dec_n_ondisk();
    h.dec_n_ondisk();
    assert_eq!(h.n_ondisk(), 99);
    h.set_n_vacated(0x7FFF);
    h.inc_n_ondisk();
    assert_eq!(h.n_vacated(), 0);
    h.dec_n_ondisk();
    assert_eq!(h.n_ondisk(), 0);
    h.add_n_vacated(30);
    assert_eq!(h.n_vacated(), 30);
    h.sub_n_vacated(40);
    assert_eq!(h.n_vacated(), 30);
    h.sub_n_vacated(10);
    assert_eq!(h.n_vacated(), 20);
    h.set_level(0x800 + 3);
    assert_eq!(h.level(), 3);
    assert_eq!(h.n_vacated(), 20);
    assert!(h.is_leaf());
}

#[test]
fn page_free_space() {
    assert_eq!(header(0, 100).free_space(), 8192 - 56 - 100);
    assert_eq!(header(0, 8136).free_space(), 0);
    assert_eq!(header(0, 9000).free_space(), 0);
    assert_eq!(header(0, -100).free_space(), 0);
    assert_eq!(btree_page_hikeys_end(true), 256);
    assert_eq!(btree_page_hikeys_end(false), 512);
}

#[test]
fn type_sizes() {
    assert!(assert_type_sizes());
}

#[test]
fn tree_has_oids_needs_all_three_ids() {
    let tag = SeqBufTag { tag_type: 0, database_id: 0, rel_node: 0, extra1: 0, extra2: 0, extra3: 0 };
    let buf = SeqBufDescPrivate { shared: 0, file: -1, write: false, tag };
    let part = BTreeDirtyPart { chkp_num: 0, seg_num: 0, part_num: 0 };
    let parts = BTreeS3PartsInfo { dirty_parts: [part; 4], write_max_location: 0 };
    let mut desc = BTreeDescr {
        root_info: BTreeRootInfo { root_page_blkno: 1, root_page_change_count: 0, meta_page_blkno: 2 },
        arg: 0,
        smgr: OSmgr { tag: SmgrTag::Array, array: SmgrArray { files: 0, files_allocated: 0 }, s3_hash: 0 },
        oids: ORelOids { datoid: 5, reloid: 16384, relnode: 16385 },
        tablespace: 1663,
        index_type: OIndexType::Primary,
        ppool: 0,
        compress: -1,
        fillfactor: 90,
        undo_type: UndoLogType::Regular,
        storage_type: BTreeStorageType::Persistence,
        free_buf: buf,
        next_chkp: [buf; 2],
        tmp_buf: [buf; 2],
        build_parts_info: [parts; 2],
        create_oxid: 0,
        ops: 0,
        local_free_extents: 0,
    };
    assert!(tree_has_oids(&desc));
    desc.oids.relnode = 0;
    assert!(!tree_has_oids(&desc));
}

#[test]
fn defaults_are_zero() {
    let e = FileExtent::default();
    assert_eq!((e.len, e.off), (0, 0));
    let r = BTreeRootInfo::default();
    assert_eq!((r.root_page_blkno, r.root_page_change_count, r.meta_page_blkno), (0, 0, 0));
}

#[test]
fn packed_words_round_trip() {
    let d = BTreePageChunkDesc::from_packed(0xDEAD_BEEF);
    assert_eq!(d.packed(), 0xDEAD_BEEF);
    assert_eq!(BTreePageChunkDesc::from_packed(d.packed()), d);
    let h = BTreeLeafTuphdr::from_parts(0x0123_4567_89AB_CDEF, 0xFEDC_BA98_7654_3210);
    assert_eq!(h.parts(), (0x0123_4567_89AB_CDEF, 0xFEDC_BA98_7654_3210));
    assert_eq!(BTreeLeafTuphdr::from_parts(h.parts().0, h.parts().1), h);
}

#[test]
fn alignment_gives_multiples() {
    assert_eq!(my_align_down(13, 8), 8);
    assert_eq!(my_align(13, 8), 16);
    assert_eq!(my_align(16, 16), 16);
    assert_eq!(my_align_down(4095, 4096), 0);
}
