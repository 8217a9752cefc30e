use orioledb::control::{
    check_checkpoint_control, checkpoint_control_from_image, checkpoint_control_image,
    control_path, get_checkpoint_control_data, write_checkpoint_control, CheckpointControl,
    CheckpointUndoInfo, ControlValidationError, ControlReadError, CHECKPOINT_CONTROL_FILE_SIZE,
    CHECKPOINT_CONTROL_SIZE, ORIOLEDB_BINARY_VERSION, ORIOLEDB_CHECKPOINT_CONTROL_VERSION,
};

fn sample(s3_mode: bool) -> CheckpointControl {
    CheckpointControl {
        control_identifier: 0x0123_4567_89AB_CDEF,
        last_checkpoint_number: 42,
        control_file_version: ORIOLEDB_CHECKPOINT_CONTROL_VERSION,
        last_csn: 1000,
        last_oxid: 2000,
        last_undo_location: 3000,
        toast_consistent_ptr: 4000,
        replay_start_ptr: 5000,
        sys_trees_start_ptr: 6000,
        mmap_data_length: 7000,
        undo_info_0: CheckpointUndoInfo {
            last_undo_location: 11,
            checkpoint_retain_start_location: 12,
            checkpoint_retain_end_location: 13,
        },
        undo_info_1: CheckpointUndoInfo {
            last_undo_location: 21,
            checkpoint_retain_start_location: 22,
            checkpoint_retain_end_location: 23,
        },
        checkpoint_retain_start_location: 31,
        checkpoint_retain_end_location: 32,
        checkpoint_retain_xmin: 33,
        checkpoint_retain_xmax: 34,
        binary_version: ORIOLEDB_BINARY_VERSION,
        s3_mode,
        crc: 0,
    }
}

#[test]
fn control_image_layout() {
    let c = sample(true);
    let img = checkpoint_control_image(&c);
    assert_eq!(img.len(), CHECKPOINT_CONTROL_SIZE);
    assert_eq!(&img[0..8], &0x0123_4567_89AB_CDEFu64.to_le_bytes());
    assert_eq!(&img[8..12], &42u32.to_le_bytes());
    assert_eq!(&img[12..16], &1u32.to_le_bytes());
    assert_eq!(&img[72..80], &11u64.to_le_bytes());
    assert_eq!(&img[112..120], &23u64.to_le_bytes());
    assert_eq!(&img[152..156], &9u32.to_le_bytes());
    assert_eq!(img[156], 1);
    assert_eq!(&img[157..160], &[0, 0, 0]);
    assert_eq!(&img[164..168], &[0, 0, 0, 0]);
    assert_eq!(checkpoint_control_from_image(&img), c);
}

#[test]
fn control_write_then_read_roundtrip() {
    let mut c = sample(false);
    let file = write_checkpoint_control(&mut c);
    assert_eq!(file.len(), CHECKPOINT_CONTROL_FILE_SIZE);
    assert!(file[CHECKPOINT_CONTROL_SIZE..].iter().all(|b| *b == 0));
    assert_ne!(c.crc, 0);
    let read = get_checkpoint_control_data(&file[..CHECKPOINT_CONTROL_SIZE], false);
    assert_eq!(read, Ok(Some(c)));
    assert_eq!(check_checkpoint_control(&file[..CHECKPOINT_CONTROL_SIZE], false), Ok(c));
}

#[test]
fn control_crc_covers_first_160_bytes() {
    let mut c = sample(false);
    let file = write_checkpoint_control(&mut c);
    let expected = orioledb::crc32c::comp_crc32c(orioledb::crc32c::init_crc32c(), &file[..160]);
    assert_eq!(c.crc, expected);
    assert_eq!(&file[160..164], &expected.to_le_bytes());
}

#[test]
fn control_empty_file_means_no_checkpoint() {
    assert_eq!(get_checkpoint_control_data(&[], true), Ok(None));
}

#[test]
fn control_partial_record_is_an_error() {
    let buf = [0u8; 100];
    assert_eq!(
        get_checkpoint_control_data(&buf, true),
        Err(ControlReadError::WrongSize { read: 100 })
    );
}

#[test]
fn control_corrupted_byte_gives_wrong_crc() {
    let mut c = sample(false);
    let mut file = write_checkpoint_control(&mut c);
    file[20] ^= 0x40;
    match check_checkpoint_control(&file[..CHECKPOINT_CONTROL_SIZE], false) {
        Err(ControlValidationError::WrongCrc { stored, computed }) => {
            assert_eq!(stored, c.crc);
            assert_ne!(computed, stored);
        }
        other => panic!("unexpected {:?}", other),
    }
}

#[test]
fn control_wrong_control_version() {
    let mut c = sample(false);
    c.control_file_version = 7;
    let file = write_checkpoint_control(&mut c);
    assert_eq!(
        get_checkpoint_control_data(&file[..CHECKPOINT_CONTROL_SIZE], false),
        Err(ControlReadError::Check {
            error: ControlValidationError::IncompatibleControlVersion { found: 7 }
        })
    );
}

#[test]
fn control_wrong_binary_version() {
    let mut c = sample(false);
    c.binary_version = 8;
    let file = write_checkpoint_control(&mut c);
    assert_eq!(
        check_checkpoint_control(&file[..CHECKPOINT_CONTROL_SIZE], false),
        Err(ControlValidationError::IncompatibleBinaryVersion { found: 8 })
    );
}

#[test]
fn control_wrong_s3_mode() {
    let mut c = sample(true);
    let file = write_checkpoint_control(&mut c);
    assert_eq!(
        check_checkpoint_control(&file[..CHECKPOINT_CONTROL_SIZE], false),
        Err(ControlValidationError::IncompatibleS3Mode { found: true })
    );
}

#[test]
fn control_path_appends_control_file_name() {
    assert_eq!(control_path(b"/var/lib/pg"), b"/var/lib/pg/orioledb/control".to_vec());
    assert_eq!(control_path(b""), b"/orioledb/control".to_vec());
}
