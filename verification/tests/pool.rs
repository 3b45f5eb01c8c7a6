use ssh_transfer::executor::{ChunkEvent, TaskAction, TaskError, TaskOutcome, TaskRun};
use ssh_transfer::plan::{plan_directory, Direction, EntryKind, SourceEntry, TransferItem};
use ssh_transfer::pool::{
    conclude, worker_count, PoolError, TransferSummary, Verdict, QUEUE_CAPACITY,
};
use ssh_transfer::progress::ProgressTracker;

fn item(name: &str, size: u64) -> TransferItem {
    TransferItem::for_file(name, name, size, None, true).unwrap()
}

fn run_task(item: &TransferItem, chunk: usize, fail_at: Option<usize>, tracker: &mut ProgressTracker) -> TaskOutcome {
    let (mut run, setup) = TaskRun::start(item, chunk);
    let mut left = item.effective_size;
    let mut index = 0;
    loop {
        index += 1;
        let n = std::cmp::min(left, setup.buffer_size as u64) as usize;
        let event = if Some(index) == fail_at { ChunkEvent::ReadFailed } else { ChunkEvent::Moved(n) };
        let (next, action) = run.step(event);
        run = next;
        left -= n as u64;
        tracker.add_bytes(action.bytes_to_report(), 0);
        match action {
            TaskAction::Read { .. } => {}
            TaskAction::Sync { .. } => {
                let (_, end) = run.step(ChunkEvent::Synced(true));
                match end {
                    TaskAction::Finish { report, outcome } => {
                        tracker.add_bytes(report, 0);
                        return outcome;
                    }
                    other => panic!("unexpected {:?}", other),
                }
            }
            TaskAction::Finish { outcome, .. } => return outcome,
        }
    }
}

#[test]
fn one_failing_task_leaves_the_others_alone() {
    let items = vec![item("a", 1000), item("b", 1000), item("c", 500)];
    let mut tracker = ProgressTracker::new(2500, "Uploading from x");
    let mut workers = vec![TransferSummary::new(), TransferSummary::new()];
    for (i, it) in items.iter().enumerate() {
        let fail_at = if i == 1 { Some(3) } else { None };
        let outcome = run_task(it, 100, fail_at, &mut tracker);
        workers[i % 2].record(it, outcome);
    }
    let mut summary = TransferSummary::new();
    for w in workers {
        summary.merge(w);
    }
    let summary = conclude(summary, 2, 2).unwrap();
    assert_eq!(summary.completed, 2);
    assert_eq!(summary.failed, vec!["b".to_string()]);
    assert_eq!(summary.failed_count(), 1);
    assert!(summary.any_failed());
    assert_eq!(summary.bytes_moved, 1500);
    assert_eq!(tracker.position(), 1000 + 200 + 500);
}

#[test]
fn successful_run_reaches_the_plan_total() {
    let entries: Vec<SourceEntry> = [("d/a", 1000u64, Some(400u64)), ("d/b", 300_000, None), ("d/c", 0, None), ("d/e", 77, Some(77))]
        .iter()
        .map(|(p, s, d)| SourceEntry { path: p.to_string(), kind: EntryKind::File, size: *s, dest_size: *d })
        .collect();
    let level = plan_directory(Direction::Upload, &entries, "/r", true).unwrap();
    assert_eq!(level.plan.total_effective_bytes, 600 + 300_000);
    let mut tracker = ProgressTracker::new(level.plan.total_effective_bytes, "Uploading from d");
    let mut summary = TransferSummary::new();
    for it in level.plan.items.iter().rev() {
        let outcome = run_task(it, 4096, None, &mut tracker);
        assert_eq!(outcome, TaskOutcome::Completed(it.effective_size));
        summary.record(it, outcome);
    }
    assert_eq!(tracker.position(), level.plan.total_effective_bytes);
    assert_eq!(summary.bytes_moved, level.plan.total_effective_bytes);
    assert_eq!(summary.completed, 3);
    assert!(!summary.any_failed());
}

#[test]
fn summaries_merge() {
    let mut a = TransferSummary::new();
    a.record(&item("x", 10), TaskOutcome::Completed(10));
    a.record(&item("y", 10), TaskOutcome::Failed(TaskError::WriteFailed));
    let mut b = TransferSummary::new();
    b.record(&item("z", 5), TaskOutcome::Failed(TaskError::ReadFailed));
    b.record(&item("w", 7), TaskOutcome::Completed(7));
    a.merge(b);
    assert_eq!(a.bytes_moved, 17);
    assert_eq!(a.completed, 2);
    assert_eq!(a.failed, vec!["y".to_string(), "z".to_string()]);
    let mut c = TransferSummary::new();
    c.record(&item("big", 1), TaskOutcome::Completed(u64::MAX));
    c.record(&item("one", 1), TaskOutcome::Completed(1));
    assert_eq!(c.bytes_moved, u64::MAX);
    assert_eq!(c.completed, 2);
}

#[test]
fn lost_worker_fails_the_cycle() {
    let mut s = TransferSummary::new();
    s.record(&item("x", 10), TaskOutcome::Completed(10));
    assert_eq!(conclude(s, 4, 3).err(), Some(PoolError::WorkerLost));
    let s = TransferSummary::new();
    assert!(conclude(s, 4, 4).is_ok());
    let mut s = TransferSummary::new();
    s.record(&item("x", 10), TaskOutcome::Failed(TaskError::ReadFailed));
    let s = conclude(s, 1, 1).unwrap();
    assert!(s.any_failed());
}

#[test]
fn pool_needs_a_worker() {
    assert_eq!(worker_count(0), Err(PoolError::NoWorkers));
    assert_eq!(worker_count(1), Ok(1));
    assert_eq!(worker_count(16), Ok(16));
    assert_eq!(QUEUE_CAPACITY, 100);
}

#[test]
fn verdict_tells_failures_from_success() {
    let mut s = TransferSummary::new();
    assert_eq!(s.verdict(), Verdict::Succeeded);
    s.record(&item("x", 10), TaskOutcome::Completed(10));
    assert_eq!(s.verdict(), Verdict::Succeeded);
    s.note_failure("dir/sub");
    assert_eq!(s.verdict(), Verdict::CompletedWithFailures);
    assert_eq!(s.failed, vec!["dir/sub".to_string()]);
    assert_eq!(s.completed, 1);
    assert_eq!(s.bytes_moved, 10);
}

#[test]
fn sharing_out_the_tasks_does_not_change_the_summary() {
    let items: Vec<TransferItem> = (0..12u64).map(|i| item(&format!("f{}", i), 100 + i)).collect();
    let outcome = |i: usize| {
        if i % 5 == 3 {
            TaskOutcome::Failed(TaskError::WriteFailed)
        } else {
            TaskOutcome::Completed(100 + i as u64)
        }
    };
    let mut whole = TransferSummary::new();
    for (i, it) in items.iter().enumerate() {
        whole.record(it, outcome(i));
    }
    for workers in 1..5usize {
        let mut parts: Vec<TransferSummary> = (0..workers).map(|_| TransferSummary::new()).collect();
        for (i, it) in items.iter().enumerate().rev() {
            parts[(i * 7) % workers].record(it, outcome(i));
        }
        let mut merged = TransferSummary::new();
        for part in parts {
            merged.merge(part);
        }
        assert_eq!(merged.bytes_moved, whole.bytes_moved);
        assert_eq!(merged.completed, whole.completed);
        let mut a = merged.failed.clone();
        let mut b = whole.failed.clone();
        a.sort();
        b.sort();
        assert_eq!(a, b);
        assert_eq!(merged.verdict(), whole.verdict());
    }
}
