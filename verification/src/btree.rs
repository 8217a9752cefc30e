//! Core B-tree definitions: the tree descriptor and the calls that go
//! through a tree's operations.
pub use crate::types::{
    BTreeKeyType, BTreeLeafTupleDeletedStatus, BTreeLocalFreeExtents, BTreeLocationHint,
    BTreeOperationType, BTreeRootInfo, BTreeS3PartsInfo, BTreeStorageType,
    OBTreeModifyCallbackAction, OBTreeModifyResult, OBTreeWaitCallbackAction, OTuple,
    MAX_NUM_DIRTY_PARTS,
};
use crate::page_check::BTreeOps;
use crate::types::{
    OCompress, OIndexType, OLengthType, ORelOids, OSmgr, OXid, OdbOid, SeqBufDescPrivate,
    UndoLogType,
};
use vstd::prelude::*;

verus! {

/// A dirty S3 part entry.
pub type DirtyPart = crate::types::BTreeDirtyPart;

/// The descriptor of one B-tree, kept in backend memory.
#[derive(Clone, Copy, Debug)]
pub struct BTreeDescr {
    pub root_info: BTreeRootInfo,
    /// Address of the owner's argument.
    pub arg: usize,
    pub smgr: OSmgr,
    /// Identity of the relation the tree belongs to.
    pub oids: ORelOids,
    pub tablespace: OdbOid,
    pub index_type: OIndexType,
    /// Address of the page pool.
    pub ppool: usize,
    pub compress: OCompress,
    pub fillfactor: u8,
    pub undo_type: UndoLogType,
    pub storage_type: BTreeStorageType,
    pub free_buf: SeqBufDescPrivate,
    pub next_chkp: [SeqBufDescPrivate; 2],
    pub tmp_buf: [SeqBufDescPrivate; 2],
    pub build_parts_info: [BTreeS3PartsInfo; 2],
    pub create_oxid: OXid,
    /// Address of the operations table.
    pub ops: usize,
    /// Address of the backend-local free extents.
    pub local_free_extents: usize,
}

/// Whether the tree belongs to a relation: all three of its ids are valid.
pub fn tree_has_oids(desc: &BTreeDescr) -> (r: bool)
    ensures
        r == desc.oids.spec_valid(),
{
    desc.oids.is_valid()
}

/// Byte of the page at which the data of `t` starts.
pub open spec fn tuple_start(t: OTuple) -> int {
    t.data as int
}

/// Length of the tuple whose data starts at byte `tuple.data` of `page`,
/// as the tree's operations measure it.
pub fn o_btree_len<O: BTreeOps>(ops: &O, page: &[u8], tuple: OTuple, length_type: OLengthType) -> (r: i32)
    ensures
        r == ops.spec_len(page@, tuple_start(tuple), tuple.format_flags, length_type),
{
    ops.len(page, tuple.data, tuple.format_flags, length_type)
}

/// Order of two tuples or keys of `page` under the tree's operations:
/// negative, zero or positive.
pub fn o_btree_cmp<O: BTreeOps>(
    ops: &O,
    page: &[u8],
    p1: OTuple,
    k1: BTreeKeyType,
    p2: OTuple,
    k2: BTreeKeyType,
) -> (r: i32)
    ensures
        r == ops.spec_compare(
            page@,
            tuple_start(p1),
            p1.format_flags,
            k1,
            tuple_start(p2),
            p2.format_flags,
            k2,
        ),
{
    ops.compare(page, p1.data, p1.format_flags, k1, p2.data, p2.format_flags, k2)
}

} // verus!
