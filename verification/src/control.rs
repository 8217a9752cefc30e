//! The checkpoint control file: its binary image, its CRC-32C, and the
//! checks made when it is read back.
//!
//! The control record is stored as the little-endian image of its fields in
//! declaration order, each at its natural alignment (168 bytes, the CRC at
//! byte 160), zero-padded to 8 KiB.  Reading
//! and writing the file itself is left to the caller; this module computes
//! the image to write and validates the bytes that were read.
use crate::crc32c::{comp_crc32c, init_crc32c, spec_crc32c, PgCrc32c};
use crate::types::{CommitSeqNo, OXid, UndoLocation};
use vstd::bytes::*;
use vstd::prelude::*;
use vstd::slice::slice_subrange;

verus! {

/// WAL record pointer: a 64-bit position within the WAL stream.
pub type XLogRecPtr = u64;

/// Number of checkpointable undo logs.
pub const NUM_CHECKPOINTABLE_UNDO_LOGS: usize = 2;

/// Physical size of the checkpoint control file in bytes (8 KiB).  It is
/// kept constant across format changes so that an incompatible file gives a
/// version error rather than a read error.
pub const CHECKPOINT_CONTROL_FILE_SIZE: usize = 8192;

/// Size of the control record image in bytes.
pub const CHECKPOINT_CONTROL_SIZE: usize = 168;

/// Offset of the CRC within the control record image; the CRC covers every
/// byte before it.
pub const CHECKPOINT_CONTROL_CRC_OFFSET: usize = 160;

/// Checkpoint control file format version.
pub const ORIOLEDB_CHECKPOINT_CONTROL_VERSION: u32 = 1;

/// Binary version of OrioleDB; clusters with different binary versions are
/// binary-incompatible.
pub const ORIOLEDB_BINARY_VERSION: u32 = 9;

/// Undo information recorded at a checkpoint.
#[derive(Clone, Copy, Debug, PartialEq, Eq, Structural)]
pub struct CheckpointUndoInfo {
    /// Last undo location processed.
    pub last_undo_location: UndoLocation,
    /// Undo location to retain for recovery (start).
    pub checkpoint_retain_start_location: UndoLocation,
    /// Undo location to retain for recovery (end).
    pub checkpoint_retain_end_location: UndoLocation,
}

/// Checkpoint control data: cluster-wide state kept across checkpoints.
/// The CRC covers all the fields before it.
#[derive(Clone, Copy, Debug, PartialEq, Eq, Structural)]
pub struct CheckpointControl {
    /// Unique identifier for the control file.
    pub control_identifier: u64,
    /// Last checkpoint number.
    pub last_checkpoint_number: u32,
    /// Control file format version.
    pub control_file_version: u32,
    /// Last commit sequence number.
    pub last_csn: CommitSeqNo,
    /// Last Oxid.
    pub last_oxid: OXid,
    /// Last undo location.
    pub last_undo_location: UndoLocation,
    /// WAL position for TOAST consistency.
    pub toast_consistent_ptr: XLogRecPtr,
    /// WAL position for replay start.
    pub replay_start_ptr: XLogRecPtr,
    /// WAL position for system trees start.
    pub sys_trees_start_ptr: XLogRecPtr,
    /// Memory-mapped data length.
    pub mmap_data_length: u64,
    /// Undo information of the first undo log.
    pub undo_info_0: CheckpointUndoInfo,
    /// Undo information of the second undo log.
    pub undo_info_1: CheckpointUndoInfo,
    /// Undo location to retain (start).
    pub checkpoint_retain_start_location: UndoLocation,
    /// Undo location to retain (end).
    pub checkpoint_retain_end_location: UndoLocation,
    /// Oxid to retain as xmin.
    pub checkpoint_retain_xmin: OXid,
    /// Oxid to retain as xmax.
    pub checkpoint_retain_xmax: OXid,
    /// Binary version.
    pub binary_version: u32,
    /// S3 mode flag.
    pub s3_mode: bool,
    /// CRC-32C of the image bytes before the CRC.
    pub crc: PgCrc32c,
}

/// Why a control record was refused.
#[derive(Clone, Copy, Debug, PartialEq, Eq, Structural)]
pub enum ControlValidationError {
    /// The stored CRC does not match the bytes it covers (an error).
    WrongCrc { stored: u32, computed: u32 },
    /// The control file was written with another format version (fatal).
    IncompatibleControlVersion { found: u32 },
    /// The cluster was initialized with another binary version (fatal).
    IncompatibleBinaryVersion { found: u32 },
    /// The cluster was initialized with another S3 mode (fatal).
    IncompatibleS3Mode { found: bool },
}

/// Why reading the control record failed.
#[derive(Clone, Copy, Debug, PartialEq, Eq, Structural)]
pub enum ControlReadError {
    /// The file held neither nothing nor a whole record.
    WrongSize { read: usize },
    /// The record was read but refused.
    Check { error: ControlValidationError },
}

/// Little-endian image of a 64-bit value.
pub open spec fn le64(x: u64) -> Seq<u8> {
    spec_u64_to_le_bytes(x)
}

/// Little-endian image of a 32-bit value.
pub open spec fn le32(x: u32) -> Seq<u8> {
    spec_u32_to_le_bytes(x)
}

/// Image of one undo-information record (24 bytes).
pub open spec fn undo_info_image(u: CheckpointUndoInfo) -> Seq<u8> {
    le64(u.last_undo_location) + le64(u.checkpoint_retain_start_location) + le64(
        u.checkpoint_retain_end_location,
    )
}

/// The byte that stores the S3 flag.
pub open spec fn bool_byte(b: bool) -> u8 {
    if b {
        1
    } else {
        0
    }
}

/// The first 160 bytes of the image: every field before the CRC, with the
/// three padding bytes after the S3 flag zeroed.
pub open spec fn control_image_prefix(c: CheckpointControl) -> Seq<u8> {
    le64(c.control_identifier) + le32(c.last_checkpoint_number) + le32(c.control_file_version)
        + le64(c.last_csn) + le64(c.last_oxid) + le64(c.last_undo_location) + le64(
        c.toast_consistent_ptr,
    ) + le64(c.replay_start_ptr) + le64(c.sys_trees_start_ptr) + le64(c.mmap_data_length)
        + undo_info_image(c.undo_info_0) + undo_info_image(c.undo_info_1) + le64(
        c.checkpoint_retain_start_location,
    ) + le64(c.checkpoint_retain_end_location) + le64(c.checkpoint_retain_xmin) + le64(
        c.checkpoint_retain_xmax,
    ) + le32(c.binary_version) + seq![bool_byte(c.s3_mode), 0u8, 0u8, 0u8]
}

/// The full 168-byte image of a control record: the prefix, the CRC and four
/// bytes of trailing padding (zeroed).
pub open spec fn control_image(c: CheckpointControl) -> Seq<u8> {
    control_image_prefix(c) + le32(c.crc) + seq![0u8, 0u8, 0u8, 0u8]
}

/// The 64-bit value stored at `off` in `b`.
pub open spec fn read64(b: Seq<u8>, off: int) -> u64 {
    spec_u64_from_le_bytes(b.subrange(off, off + 8))
}

/// The 32-bit value stored at `off` in `b`.
pub open spec fn read32(b: Seq<u8>, off: int) -> u32 {
    spec_u32_from_le_bytes(b.subrange(off, off + 4))
}

/// The undo-information record stored at `off` in `b`.
pub open spec fn read_undo_info(b: Seq<u8>, off: int) -> CheckpointUndoInfo {
    CheckpointUndoInfo {
        last_undo_location: read64(b, off),
        checkpoint_retain_start_location: read64(b, off + 8),
        checkpoint_retain_end_location: read64(b, off + 16),
    }
}

/// The control record stored in the first 168 bytes of `b`.  The S3 flag is
/// set when its byte is not zero.
pub open spec fn control_from_image(b: Seq<u8>) -> CheckpointControl {
    CheckpointControl {
        control_identifier: read64(b, 0),
        last_checkpoint_number: read32(b, 8),
        control_file_version: read32(b, 12),
        last_csn: read64(b, 16),
        last_oxid: read64(b, 24),
        last_undo_location: read64(b, 32),
        toast_consistent_ptr: read64(b, 40),
        replay_start_ptr: read64(b, 48),
        sys_trees_start_ptr: read64(b, 56),
        mmap_data_length: read64(b, 64),
        undo_info_0: read_undo_info(b, 72),
        undo_info_1: read_undo_info(b, 96),
        checkpoint_retain_start_location: read64(b, 120),
        checkpoint_retain_end_location: read64(b, 128),
        checkpoint_retain_xmin: read64(b, 136),
        checkpoint_retain_xmax: read64(b, 144),
        binary_version: read32(b, 152),
        s3_mode: b[156] != 0,
        crc: read32(b, 160),
    }
}

/// The CRC the control record in `b` should carry: the CRC-32C of its
/// first 160 bytes.
pub open spec fn image_crc(b: Seq<u8>) -> u32 {
    spec_crc32c(b.subrange(0, CHECKPOINT_CONTROL_CRC_OFFSET as int))
}

/// The verdict on a 168-byte control record image, checked in this order:
/// the CRC, the control file version, the binary version, the S3 mode.
pub open spec fn spec_check_control(b: Seq<u8>, current_s3_mode: bool) -> Result<
    CheckpointControl,
    ControlValidationError,
> {
    let c = control_from_image(b);
    if image_crc(b) != c.crc {
        Err(ControlValidationError::WrongCrc { stored: c.crc, computed: image_crc(b) })
    } else if c.control_file_version != ORIOLEDB_CHECKPOINT_CONTROL_VERSION {
        Err(ControlValidationError::IncompatibleControlVersion { found: c.control_file_version })
    } else if c.binary_version != ORIOLEDB_BINARY_VERSION {
        Err(ControlValidationError::IncompatibleBinaryVersion { found: c.binary_version })
    } else if c.s3_mode != current_s3_mode {
        Err(ControlValidationError::IncompatibleS3Mode { found: c.s3_mode })
    } else {
        Ok(c)
    }
}

proof fn lemma_le_lengths(c: CheckpointControl)
    ensures
        control_image_prefix(c).len() == 160,
        control_image(c).len() == 168,
{
    lemma_auto_spec_u64_to_from_le_bytes();
    lemma_auto_spec_u32_to_from_le_bytes();
}

/// Decoding the image of a control record gives the record back.
pub proof fn lemma_control_image_roundtrip(c: CheckpointControl)
    ensures
        control_from_image(control_image(c)) == c,
        control_image(c).subrange(0, CHECKPOINT_CONTROL_CRC_OFFSET as int) == control_image_prefix(c),
        control_image(c).len() == CHECKPOINT_CONTROL_SIZE,
{
    lemma_auto_spec_u64_to_from_le_bytes();
    lemma_auto_spec_u32_to_from_le_bytes();
    lemma_le_lengths(c);
    let b = control_image(c);
    assert(b.subrange(0, 8) =~= le64(c.control_identifier));
    assert(b.subrange(8, 12) =~= le32(c.last_checkpoint_number));
    assert(b.subrange(12, 16) =~= le32(c.control_file_version));
    assert(b.subrange(16, 24) =~= le64(c.last_csn));
    assert(b.subrange(24, 32) =~= le64(c.last_oxid));
    assert(b.subrange(32, 40) =~= le64(c.last_undo_location));
    assert(b.subrange(40, 48) =~= le64(c.toast_consistent_ptr));
    assert(b.subrange(48, 56) =~= le64(c.replay_start_ptr));
    assert(b.subrange(56, 64) =~= le64(c.sys_trees_start_ptr));
    assert(b.subrange(64, 72) =~= le64(c.mmap_data_length));
    assert(b.subrange(72, 80) =~= le64(c.undo_info_0.last_undo_location));
    assert(b.subrange(80, 88) =~= le64(c.undo_info_0.checkpoint_retain_start_location));
    assert(b.subrange(88, 96) =~= le64(c.undo_info_0.checkpoint_retain_end_location));
    assert(b.subrange(96, 104) =~= le64(c.undo_info_1.last_undo_location));
    assert(b.subrange(104, 112) =~= le64(c.undo_info_1.checkpoint_retain_start_location));
    assert(b.subrange(112, 120) =~= le64(c.undo_info_1.checkpoint_retain_end_location));
    assert(b.subrange(120, 128) =~= le64(c.checkpoint_retain_start_location));
    assert(b.subrange(128, 136) =~= le64(c.checkpoint_retain_end_location));
    assert(b.subrange(136, 144) =~= le64(c.checkpoint_retain_xmin));
    assert(b.subrange(144, 152) =~= le64(c.checkpoint_retain_xmax));
    assert(b.subrange(152, 156) =~= le32(c.binary_version));
    assert(b[156] == bool_byte(c.s3_mode));
    assert(b.subrange(160, 164) =~= le32(c.crc));
    assert(b.subrange(0, 160) =~= control_image_prefix(c));
}

fn read_u64_at(b: &[u8], off: usize) -> (x: u64)
    requires
        off + 8 <= b.len(),
    ensures
        x == read64(b@, off as int),
{
    u64_from_le_bytes(slice_subrange(b, off, off + 8))
}

fn read_u32_at(b: &[u8], off: usize) -> (x: u32)
    requires
        off + 4 <= b.len(),
    ensures
        x == read32(b@, off as int),
{
    u32_from_le_bytes(slice_subrange(b, off, off + 4))
}

/// Decodes the control record held in the first 168 bytes of `b`.
pub fn checkpoint_control_from_image(b: &[u8]) -> (c: CheckpointControl)
    requires
        b@.len() >= CHECKPOINT_CONTROL_SIZE,
    ensures
        c == control_from_image(b@),
{
    CheckpointControl {
        control_identifier: read_u64_at(b, 0),
        last_checkpoint_number: read_u32_at(b, 8),
        control_file_version: read_u32_at(b, 12),
        last_csn: read_u64_at(b, 16),
        last_oxid: read_u64_at(b, 24),
        last_undo_location: read_u64_at(b, 32),
        toast_consistent_ptr: read_u64_at(b, 40),
        replay_start_ptr: read_u64_at(b, 48),
        sys_trees_start_ptr: read_u64_at(b, 56),
        mmap_data_length: read_u64_at(b, 64),
        undo_info_0: CheckpointUndoInfo {
            last_undo_location: read_u64_at(b, 72),
            checkpoint_retain_start_location: read_u64_at(b, 80),
            checkpoint_retain_end_location: read_u64_at(b, 88),
        },
        undo_info_1: CheckpointUndoInfo {
            last_undo_location: read_u64_at(b, 96),
            checkpoint_retain_start_location: read_u64_at(b, 104),
            checkpoint_retain_end_location: read_u64_at(b, 112),
        },
        checkpoint_retain_start_location: read_u64_at(b, 120),
        checkpoint_retain_end_location: read_u64_at(b, 128),
        checkpoint_retain_xmin: read_u64_at(b, 136),
        checkpoint_retain_xmax: read_u64_at(b, 144),
        binary_version: read_u32_at(b, 152),
        s3_mode: b[156] != 0,
        crc: read_u32_at(b, 160),
    }
}

fn push64(v: &mut Vec<u8>, x: u64)
    ensures
        final(v)@ == old(v)@ + le64(x),
{
    let mut t = u64_to_le_bytes(x);
    v.append(&mut t);
}

fn push32(v: &mut Vec<u8>, x: u32)
    ensures
        final(v)@ == old(v)@ + le32(x),
{
    let mut t = u32_to_le_bytes(x);
    v.append(&mut t);
}

fn push_undo_info(v: &mut Vec<u8>, u: &CheckpointUndoInfo)
    ensures
        final(v)@ == old(v)@ + undo_info_image(*u),
{
    let ghost v0 = v@;
    push64(v, u.last_undo_location);
    push64(v, u.checkpoint_retain_start_location);
    push64(v, u.checkpoint_retain_end_location);
    assert(v@ =~= v0 + undo_info_image(*u));
}

/// The 168-byte image of a control record.
pub fn checkpoint_control_image(c: &CheckpointControl) -> (v: Vec<u8>)
    ensures
        v@ == control_image(*c),
{
    let mut v: Vec<u8> = Vec::new();
    push64(&mut v, c.control_identifier);
    push32(&mut v, c.last_checkpoint_number);
    push32(&mut v, c.control_file_version);
    push64(&mut v, c.last_csn);
    push64(&mut v, c.last_oxid);
    push64(&mut v, c.last_undo_location);
    push64(&mut v, c.toast_consistent_ptr);
    push64(&mut v, c.replay_start_ptr);
    push64(&mut v, c.sys_trees_start_ptr);
    push64(&mut v, c.mmap_data_length);
    push_undo_info(&mut v, &c.undo_info_0);
    push_undo_info(&mut v, &c.undo_info_1);
    push64(&mut v, c.checkpoint_retain_start_location);
    push64(&mut v, c.checkpoint_retain_end_location);
    push64(&mut v, c.checkpoint_retain_xmin);
    push64(&mut v, c.checkpoint_retain_xmax);
    push32(&mut v, c.binary_version);
    v.push(if c.s3_mode {
        1u8
    } else {
        0u8
    });
    v.push(0u8);
    v.push(0u8);
    v.push(0u8);
    push32(&mut v, c.crc);
    v.push(0u8);
    v.push(0u8);
    v.push(0u8);
    v.push(0u8);
    assert(v@ =~= control_image(*c));
    v
}

/// The CRC a control record image should carry: the CRC-32C of the image's
/// first 160 bytes, the state after updating the initial state with them.
pub fn checkpoint_control_image_crc(b: &[u8]) -> (r: u32)
    requires
        b@.len() >= CHECKPOINT_CONTROL_SIZE,
    ensures
        r == image_crc(b@),
{
    let crc = init_crc32c();
    let r = comp_crc32c(crc, slice_subrange(b, 0, CHECKPOINT_CONTROL_CRC_OFFSET));
    assert(!0u32 == 0xFFFF_FFFFu32) by (bit_vector);
    r
}

/// Validates a control record image: the CRC first, then the control file
/// version, the binary version and the S3 mode against the server's.
/// Returns the decoded record when every check passes.
pub fn check_checkpoint_control(b: &[u8], current_s3_mode: bool) -> (r: Result<
    CheckpointControl,
    ControlValidationError,
>)
    requires
        b@.len() >= CHECKPOINT_CONTROL_SIZE,
    ensures
        r == spec_check_control(b@, current_s3_mode),
{
    let c = checkpoint_control_from_image(b);
    let computed = checkpoint_control_image_crc(b);
    if computed != c.crc {
        return Err(ControlValidationError::WrongCrc { stored: c.crc, computed });
    }
    if c.control_file_version != ORIOLEDB_CHECKPOINT_CONTROL_VERSION {
        return Err(
            ControlValidationError::IncompatibleControlVersion { found: c.control_file_version },
        );
    }
    if c.binary_version != ORIOLEDB_BINARY_VERSION {
        return Err(ControlValidationError::IncompatibleBinaryVersion { found: c.binary_version });
    }
    if c.s3_mode != current_s3_mode {
        return Err(ControlValidationError::IncompatibleS3Mode { found: c.s3_mode });
    }
    Ok(c)
}

/// What reading the control file gives for the bytes `read` from its start
/// (at most a record's worth): nothing read means no checkpoint was taken
/// yet; a partial record is an error; a whole record is checked.
pub open spec fn spec_get_control_data(read: Seq<u8>, current_s3_mode: bool) -> Result<
    Option<CheckpointControl>,
    ControlReadError,
> {
    if read.len() == 0 {
        Ok(None)
    } else if read.len() != CHECKPOINT_CONTROL_SIZE {
        Err(ControlReadError::WrongSize { read: read.len() as usize })
    } else {
        match spec_check_control(read, current_s3_mode) {
            Ok(c) => Ok(Some(c)),
            Err(e) => Err(ControlReadError::Check { error: e }),
        }
    }
}

/// Interprets the bytes read from the start of the control file: `Ok(None)`
/// when the file is empty (no checkpoint has been taken yet), an error when
/// it does not hold a whole record or the record is refused, and the record
/// otherwise.
pub fn get_checkpoint_control_data(read: &[u8], current_s3_mode: bool) -> (r: Result<
    Option<CheckpointControl>,
    ControlReadError,
>)
    ensures
        r == spec_get_control_data(read@, current_s3_mode),
{
    if read.len() == 0 {
        return Ok(None);
    }
    if read.len() != CHECKPOINT_CONTROL_SIZE {
        return Err(ControlReadError::WrongSize { read: read.len() });
    }
    match check_checkpoint_control(read, current_s3_mode) {
        Ok(c) => Ok(Some(c)),
        Err(e) => Err(ControlReadError::Check { error: e }),
    }
}

/// The control file contents for a record: its image followed by zeros up
/// to the file size.
pub open spec fn control_file_image(c: CheckpointControl) -> Seq<u8> {
    control_image(c) + Seq::new(
        (CHECKPOINT_CONTROL_FILE_SIZE - CHECKPOINT_CONTROL_SIZE) as nat,
        |i: int| 0u8,
    )
}

/// Stores in `control` the CRC of its image and returns the 8 KiB contents
/// of the control file to write: the record's image, zero-padded.
pub fn write_checkpoint_control(control: &mut CheckpointControl) -> (file: Vec<u8>)
    ensures
        *final(control) == (CheckpointControl {
            crc: image_crc(control_image(*old(control))),
            ..*old(control)
        }),
        file@ == control_file_image(*final(control)),
        file@.len() == CHECKPOINT_CONTROL_FILE_SIZE,
{
    proof {
        lemma_le_lengths(*control);
    }
    let unsigned = checkpoint_control_image(control);
    let crc = checkpoint_control_image_crc(unsigned.as_slice());
    control.crc = crc;
    let mut file = checkpoint_control_image(control);
    proof {
        lemma_le_lengths(*control);
    }
    let ghost img = file@;
    while file.len() < CHECKPOINT_CONTROL_FILE_SIZE
        invariant
            CHECKPOINT_CONTROL_SIZE <= file.len() <= CHECKPOINT_CONTROL_FILE_SIZE,
            img.len() == CHECKPOINT_CONTROL_SIZE,
            file@.subrange(0, CHECKPOINT_CONTROL_SIZE as int) == img,
            forall|k: int| CHECKPOINT_CONTROL_SIZE <= k < file.len() ==> #[trigger] file@[k] == 0u8,
        decreases CHECKPOINT_CONTROL_FILE_SIZE - file.len(),
    {
        file.push(0u8);
        assert(file@.subrange(0, CHECKPOINT_CONTROL_SIZE as int) =~= img);
    }
    assert(file@ =~= control_file_image(*control));
    file
}

/// What a read gives back of a write: the first record's worth of the file
/// written for a control record is accepted exactly when the record's
/// versions are the current ones and its S3 mode is the server's, and then
/// it is the record as written, CRC included; otherwise the first of those
/// checks that fails is reported.  The CRC check itself always passes.
pub proof fn lemma_control_write_then_read(c: CheckpointControl, current_s3_mode: bool)
    ensures
        ({
            let w = CheckpointControl { crc: image_crc(control_image(c)), ..c };
            let read = control_file_image(w).subrange(0, CHECKPOINT_CONTROL_SIZE as int);
            spec_get_control_data(read, current_s3_mode) == (if c.control_file_version
                != ORIOLEDB_CHECKPOINT_CONTROL_VERSION {
                Err(
                    ControlReadError::Check {
                        error: ControlValidationError::IncompatibleControlVersion {
                            found: c.control_file_version,
                        },
                    },
                )
            } else if c.binary_version != ORIOLEDB_BINARY_VERSION {
                Err(
                    ControlReadError::Check {
                        error: ControlValidationError::IncompatibleBinaryVersion {
                            found: c.binary_version,
                        },
                    },
                )
            } else if c.s3_mode != current_s3_mode {
                Err(
                    ControlReadError::Check {
                        error: ControlValidationError::IncompatibleS3Mode { found: c.s3_mode },
                    },
                )
            } else {
                Ok(Some(w))
            })
        }),
{
    let w = CheckpointControl { crc: image_crc(control_image(c)), ..c };
    lemma_control_image_roundtrip(c);
    lemma_control_image_roundtrip(w);
    let read = control_file_image(w).subrange(0, CHECKPOINT_CONTROL_SIZE as int);
    assert(read =~= control_image(w));
    assert(control_image_prefix(w) == control_image_prefix(c));
    assert(control_image(w).subrange(0, 160) == control_image(c).subrange(0, 160));
    assert(image_crc(read) == image_crc(control_image(c)));
}

/// Where the control file lives under a data directory: the bytes
/// `/orioledb/control` appended to it.
pub open spec fn spec_control_path(data_dir: Seq<u8>) -> Seq<u8> {
    data_dir + seq![47u8, 111, 114, 105, 111, 108, 101, 100, 98, 47, 99, 111, 110, 116, 114, 111, 108]
}

/// The path of the control file under `data_dir`: `data_dir/orioledb/control`.
pub fn control_path(data_dir: &[u8]) -> (path: Vec<u8>)
    ensures
        path@ == spec_control_path(data_dir@),
{
    let mut path: Vec<u8> = Vec::new();
    let mut i: usize = 0;
    while i < data_dir.len()
        invariant
            i <= data_dir@.len(),
            path@ == data_dir@.subrange(0, i as int),
        decreases data_dir@.len() - i,
    {
        path.push(data_dir[i]);
        i = i + 1;
        assert(path@ =~= data_dir@.subrange(0, i as int));
    }
    let mut tail: Vec<u8> = vec![47u8, 111, 114, 105, 111, 108, 101, 100, 98, 47, 99, 111, 110, 116, 114, 111, 108];
    path.append(&mut tail);
    assert(path@ =~= spec_control_path(data_dir@));
    path
}

} // verus!
