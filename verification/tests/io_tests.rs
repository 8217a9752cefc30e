use orioledb::io::{
    btree_io_error_cleanup, io_finish, io_start, io_start_wait_slot,
    store_read_page_checkpoint_stats, IoProcState, IoShmem, ReadPageCheckpointStats,
};

#[test]
fn io_without_limit_counts_nothing() {
    let mut shmem = IoShmem { writes_started: 5, writes_finished: 3 };
    let mut proc_state = IoProcState { io_in_progress: false };
    assert_eq!(io_start(&mut shmem, &mut proc_state, 0), None);
    assert_eq!(io_finish(&mut shmem, &mut proc_state, 0, 4), None);
    assert_eq!(shmem, IoShmem { writes_started: 5, writes_finished: 3 });
    assert!(!proc_state.io_in_progress);
}

#[test]
fn io_admission_and_wakeup() {
    let mut shmem = IoShmem { writes_started: 0, writes_finished: 0 };
    let mut p1 = IoProcState { io_in_progress: false };
    let mut p2 = IoProcState { io_in_progress: false };
    let mut p3 = IoProcState { io_in_progress: false };
    let s1 = io_start(&mut shmem, &mut p1, 2).unwrap();
    let s2 = io_start(&mut shmem, &mut p2, 2).unwrap();
    let s3 = io_start(&mut shmem, &mut p3, 2).unwrap();
    assert_eq!((s1, s2, s3), (1, 2, 3));
    assert!(p3.io_in_progress);
    assert_eq!(io_start_wait_slot(s1, shmem.writes_finished, 2, 4), None);
    assert_eq!(io_start_wait_slot(s2, shmem.writes_finished, 2, 4), None);
    assert_eq!(io_start_wait_slot(s3, shmem.writes_finished, 2, 4), Some(3));
    let woken = io_finish(&mut shmem, &mut p1, 2, 4);
    assert_eq!(woken, Some(3));
    assert!(!p1.io_in_progress);
    assert_eq!(io_start_wait_slot(s3, shmem.writes_finished, 2, 4), None);
}

#[test]
fn io_counters_wrap_around() {
    let mut shmem = IoShmem { writes_started: u64::MAX, writes_finished: u64::MAX };
    let mut p = IoProcState { io_in_progress: false };
    assert_eq!(io_start(&mut shmem, &mut p, 1), Some(0));
    assert_eq!(io_finish(&mut shmem, &mut p, 1, 3), Some(1));
    assert_eq!(shmem.writes_finished, 0);
}

#[test]
fn io_error_cleanup_finishes_pending_write() {
    let mut shmem = IoShmem { writes_started: 0, writes_finished: 0 };
    let mut p = IoProcState { io_in_progress: false };
    assert_eq!(btree_io_error_cleanup(&mut shmem, &mut p, 4, 8), None);
    io_start(&mut shmem, &mut p, 4);
    assert_eq!(btree_io_error_cleanup(&mut shmem, &mut p, 4, 8), Some(5));
    assert_eq!(shmem.writes_finished, 1);
    assert!(!p.io_in_progress);
}

#[test]
fn read_page_checkpoint_stats_track_min_max() {
    let mut stats = ReadPageCheckpointStats::reset();
    assert_eq!(stats.min_read_page_checkpoint, u32::MAX);
    assert_eq!(stats.max_read_page_checkpoint, 0);
    for n in [7u32, 3, 12, 5] {
        store_read_page_checkpoint_stats(&mut stats, n);
    }
    assert_eq!(stats.min_read_page_checkpoint, 3);
    assert_eq!(stats.max_read_page_checkpoint, 12);
}
