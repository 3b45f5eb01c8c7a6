use ssh_transfer::executor::{
    task_setup, ChunkEvent, OpenMode, TaskAction, TaskError, TaskOutcome, TaskPhase, TaskRun,
    DEFAULT_CHUNK_SIZE, LARGE_BUFFER, LARGE_TRANSFER, REPORT_EVERY_LARGE, REPORT_EVERY_SMALL,
};
use ssh_transfer::plan::TransferItem;

#[test]
fn resume_half_file() {
    let item = TransferItem::for_file("src", "dst", 1000, Some(400), true).unwrap();
    let (mut run, setup) = TaskRun::start(&item, 100);
    assert_eq!(setup.mode, OpenMode::Append);
    assert_eq!(setup.source_offset, 400);
    assert_eq!(setup.buffer_size, 100);
    assert!(run.is_finished() == false);
    let mut chunks = 0;
    let mut reported: u64 = 0;
    let mut destination: u64 = 400;
    let mut source_left: u64 = 1000 - setup.source_offset;
    loop {
        let n = std::cmp::min(source_left, setup.buffer_size as u64) as usize;
        let (next, action) = run.step(ChunkEvent::Moved(n));
        run = next;
        reported += action.bytes_to_report();
        if n == 0 {
            assert!(matches!(action, TaskAction::Sync { .. }));
            break;
        }
        assert!(matches!(action, TaskAction::Read { .. }));
        chunks += 1;
        source_left -= n as u64;
        destination += n as u64;
    }
    let (run, action) = run.step(ChunkEvent::Synced(true));
    reported += action.bytes_to_report();
    assert_eq!(action, TaskAction::Finish { report: 0, outcome: TaskOutcome::Completed(600) });
    assert_eq!(chunks, 6);
    assert_eq!(destination, 1000);
    assert_eq!(reported, 600);
    assert_eq!(reported, item.effective_size);
    assert_eq!(run.moved, 600);
    assert_eq!(run.reported, 600);
    assert!(run.is_finished());
}

#[test]
fn setup_follows_the_item() {
    let fresh = TransferItem::for_file("s", "d", 1000, None, true).unwrap();
    let s = task_setup(&fresh, 4096);
    assert_eq!(s.mode, OpenMode::Create);
    assert_eq!(s.source_offset, 0);
    assert_eq!(s.buffer_size, 4096);
    assert_eq!(s.report_every, REPORT_EVERY_SMALL);
    let edge = TransferItem::for_file("s", "d", LARGE_TRANSFER, None, true).unwrap();
    assert_eq!(task_setup(&edge, 4096).buffer_size, 4096);
    let large = TransferItem::for_file("s", "d", LARGE_TRANSFER + 1, None, true).unwrap();
    let s = task_setup(&large, 4096);
    assert_eq!(s.buffer_size, LARGE_BUFFER);
    assert_eq!(s.report_every, REPORT_EVERY_LARGE);
    let resumed = TransferItem::for_file("s", "d", 3 * LARGE_TRANSFER, Some(2 * LARGE_TRANSFER + 5), true).unwrap();
    let s = task_setup(&resumed, 4096);
    assert_eq!(s.mode, OpenMode::Append);
    assert_eq!(s.source_offset, 2 * LARGE_TRANSFER + 5);
    assert_eq!(s.buffer_size, 4096);
    assert_eq!(DEFAULT_CHUNK_SIZE, 1024 * 1024);
    assert_eq!(LARGE_TRANSFER, 10 * 1024 * 1024);
    assert_eq!(LARGE_BUFFER, 8 * 1024 * 1024);
    assert_eq!(REPORT_EVERY_LARGE, 1024 * 1024);
    assert_eq!(REPORT_EVERY_SMALL, 128 * 1024);
}

#[test]
fn reports_are_coalesced() {
    let item = TransferItem::for_file("s", "d", 1_000_000, None, true).unwrap();
    let (run, _) = TaskRun::start(&item, 65536);
    let (run, a) = run.step(ChunkEvent::Moved(65536));
    assert_eq!(a, TaskAction::Read { report: 0 });
    assert_eq!((run.moved, run.reported, run.held_back), (65536, 0, 65536));
    let (run, a) = run.step(ChunkEvent::Moved(65535));
    assert_eq!(a, TaskAction::Read { report: 0 });
    let (run, a) = run.step(ChunkEvent::Moved(1));
    assert_eq!(a, TaskAction::Read { report: 131072 });
    assert_eq!((run.moved, run.reported, run.held_back), (131072, 131072, 0));
    let (run, a) = run.step(ChunkEvent::Moved(10));
    assert_eq!(a, TaskAction::Read { report: 0 });
    let (run, a) = run.step(ChunkEvent::Moved(0));
    assert_eq!(a, TaskAction::Sync { report: 10 });
    assert_eq!(run.phase, TaskPhase::Syncing);
    assert_eq!((run.moved, run.reported, run.held_back), (131082, 131082, 0));
}

#[test]
fn failed_flush_does_not_fail_the_task() {
    let item = TransferItem::for_file("s", "d", 5, None, true).unwrap();
    let (run, _) = TaskRun::start(&item, 100);
    let (run, _) = run.step(ChunkEvent::Moved(5));
    let (run, _) = run.step(ChunkEvent::Moved(0));
    let (run, a) = run.step(ChunkEvent::Synced(false));
    assert_eq!(a, TaskAction::Finish { report: 0, outcome: TaskOutcome::Completed(5) });
    assert_eq!(run.phase, TaskPhase::Succeeded);
    let (_, a) = run.step(ChunkEvent::Moved(7));
    assert_eq!(a, TaskAction::Finish { report: 0, outcome: TaskOutcome::Completed(5) });
}

#[test]
fn failure_mid_stream_reports_what_was_moved() {
    let item = TransferItem::for_file("s", "d", 1000, None, true).unwrap();
    let (run, _) = TaskRun::start(&item, 100);
    let (run, _) = run.step(ChunkEvent::Moved(100));
    let (run, _) = run.step(ChunkEvent::Moved(100));
    let (run, a) = run.step(ChunkEvent::ReadFailed);
    assert_eq!(a, TaskAction::Finish { report: 200, outcome: TaskOutcome::Failed(TaskError::ReadFailed) });
    assert_eq!(run.phase, TaskPhase::Failed(TaskError::ReadFailed));
    assert_eq!((run.moved, run.reported, run.held_back), (200, 200, 0));
    assert!(run.is_finished());
    let (_, a) = run.step(ChunkEvent::Moved(100));
    assert_eq!(a, TaskAction::Finish { report: 0, outcome: TaskOutcome::Failed(TaskError::ReadFailed) });

    let (run, _) = TaskRun::start(&item, 100);
    let (_, a) = run.step(ChunkEvent::WriteFailed);
    assert_eq!(a, TaskAction::Finish { report: 0, outcome: TaskOutcome::Failed(TaskError::WriteFailed) });
}

#[test]
fn events_out_of_turn_fail_the_task() {
    let item = TransferItem::for_file("s", "d", 1000, None, true).unwrap();
    let (run, _) = TaskRun::start(&item, 100);
    let (_, a) = run.step(ChunkEvent::Synced(true));
    assert_eq!(a, TaskAction::Finish { report: 0, outcome: TaskOutcome::Failed(TaskError::OutOfTurn) });
    let (run, _) = run.step(ChunkEvent::Moved(0));
    let (_, a) = run.step(ChunkEvent::Moved(1));
    assert_eq!(a, TaskAction::Finish { report: 0, outcome: TaskOutcome::Failed(TaskError::OutOfTurn) });
}

#[test]
fn byte_count_overflow_fails_the_task() {
    let run = TaskRun {
        phase: TaskPhase::Streaming,
        moved: u64::MAX - 5,
        reported: u64::MAX - 5,
        held_back: 0,
        report_every: 100,
    };
    let (next, a) = run.step(ChunkEvent::Moved(5));
    assert_eq!(a, TaskAction::Read { report: 0 });
    assert_eq!(next.moved, u64::MAX);
    let (_, a) = run.step(ChunkEvent::Moved(6));
    assert_eq!(a, TaskAction::Finish { report: 0, outcome: TaskOutcome::Failed(TaskError::TooManyBytes) });
}
