//! Records written to the per-checkpoint transaction files.
use crate::types::{
    OInMemoryBlkno, OXid, UndoLocation, UndoStackLocations, ORIOLEDB_BLCKSZ, O_BTREE_MAX_TUPLE_SIZE,
};
use vstd::prelude::*;

verus! {

/// Kind of a record inside a checkpoint transaction file.
#[derive(Clone, Copy, Debug, PartialEq, Eq, Structural)]
pub enum XidRecKind {
    /// Row-level undo record for the regular undo log.
    UndoRegular,
    /// Row-level undo record for the regular page-level undo log.
    UndoRegularPageLevel,
    /// Row-level undo record for the system undo log.
    UndoSystem,
    /// Rewind variant of the regular undo log record.
    RewindUndoRegular,
    /// Rewind variant of the regular page-level undo log record.
    RewindUndoRegularPageLevel,
    /// Rewind variant of the system undo log record.
    RewindUndoSystem,
    /// Transaction with a pending secondary-index fixup at checkpoint time.
    PendingSkFixup,
}

/// A single record written to the transaction file during a checkpoint.
#[derive(Clone, Copy, Debug, PartialEq, Eq, Structural)]
pub struct XidFileRec {
    pub oxid: OXid,
    pub kind: XidRecKind,
    pub undo_location: UndoStackLocations,
    pub retain_location: UndoLocation,
}

/// A key copied into shared memory: its bytes, format flags, whether it is
/// present and its length.
#[derive(Clone, Copy, Debug)]
pub struct OFixedShmemKey {
    pub fixed_data: [u8; O_BTREE_MAX_TUPLE_SIZE],
    pub format_flags: u8,
    pub not_null: bool,
    pub len: i32,
}

/// One level of the stack a checkpoint walks down a tree: the page image
/// being written, its bounding keys and position.
#[derive(Clone, Copy, Debug)]
pub struct CheckpointPageInfo {
    pub bound: i32,
    pub nextkey_type: i32,
    pub image: [u8; ORIOLEDB_BLCKSZ],
    pub hikey: OFixedShmemKey,
    pub nextkey: OFixedShmemKey,
    pub lokey: OFixedShmemKey,
    pub blkno: OInMemoryBlkno,
    pub hikey_blkno: OInMemoryBlkno,
    pub offset: u16,
    pub leftmost: bool,
    pub autonomous: bool,
    pub autonomous_tuple_exist: bool,
    pub autonomous_leftmost: bool,
}

} // verus!
