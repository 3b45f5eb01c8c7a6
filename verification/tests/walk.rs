use ssh_transfer::executor::{TaskError, TaskOutcome};
use ssh_transfer::mkdir::{EnsureDir, MkdirReply, MkdirRequest, PathProbe};
use ssh_transfer::plan::{
    root_target, Direction, EntryKind, EntryStat, PlanError, RootTarget, SourceEntry, SubDirectory,
};
use ssh_transfer::pool::{TransferSummary, Verdict};
use ssh_transfer::walk::{Walk, WalkError, WalkPhase, WalkStep};

fn file(path: &str, size: u64) -> SourceEntry {
    SourceEntry { path: path.to_string(), kind: EntryKind::File, size, dest_size: None }
}

fn dir(path: &str) -> SourceEntry {
    SourceEntry { path: path.to_string(), kind: EntryKind::Directory, size: 0, dest_size: None }
}

/// Makes `path` exist among `existing`, and records each creation in `log`.
fn ensure(path: &str, existing: &mut Vec<String>, log: &mut Vec<String>) -> EnsureDir {
    let (mut machine, mut request) = EnsureDir::start(path);
    loop {
        let reply = match request {
            MkdirRequest::Stat(p) => MkdirReply::Probed(if existing.contains(&p) {
                PathProbe::Directory
            } else {
                PathProbe::Missing
            }),
            MkdirRequest::Create(p) => {
                existing.push(p.clone());
                log.push(format!("mkdir {}", p));
                MkdirReply::Created(true)
            }
            MkdirRequest::Finished => return machine,
            MkdirRequest::Failed { error, path } => panic!("{:?} at {}", error, path),
        };
        let (next, asked) = machine.step(reply);
        machine = next;
        request = asked;
    }
}

fn visit(walk: &mut Walk) -> SubDirectory {
    match walk.next_directory() {
        WalkStep::Visit(d) => d,
        other => panic!("unexpected {:?}", other),
    }
}

#[test]
fn recursion_visits_root_before_sub() {
    let root = match root_target(
        Direction::Upload,
        "root",
        Some(EntryStat { size: 0, is_directory: true }),
        "/D",
        Some(EntryStat { size: 0, is_directory: true }),
        true,
    )
    .unwrap()
    {
        RootTarget::Directory(d) => d,
        other => panic!("unexpected {:?}", other),
    };
    assert_eq!(root.destination, "/D/root");
    let mut existing = vec!["/D".to_string()];
    let mut log: Vec<String> = Vec::new();
    let mut walk = Walk::new(root);

    let first = visit(&mut walk);
    assert_eq!(first.destination, "/D/root");
    assert_eq!(walk.phase(), WalkPhase::Preparing);
    assert!(matches!(walk.next_directory(), WalkStep::Busy));
    let entries = vec![file("root/a.txt", 3), dir("root/sub")];

    let (unfinished, _) = EnsureDir::start("/D/root");
    assert_eq!(
        walk.plan_level(&unfinished, Direction::Upload, &entries, true).err(),
        Some(WalkError::DirectoryNotReady)
    );
    assert!(log.is_empty());

    let ensured = ensure(first.destination.as_str(), &mut existing, &mut log);
    let level = walk.plan_level(&ensured, Direction::Upload, &entries, true).unwrap();
    for item in &level.plan.items {
        log.push(format!("enqueue {}", item.destination_locator));
    }
    assert_eq!(walk.phase(), WalkPhase::Running);
    assert!(matches!(walk.next_directory(), WalkStep::Busy));
    let mut summary = TransferSummary::new();
    for item in &level.plan.items {
        summary.record(item, TaskOutcome::Completed(item.effective_size));
    }
    assert!(walk.cycle_finished(summary));

    let second = visit(&mut walk);
    assert_eq!(second.source, "root/sub");
    assert_eq!(second.destination, "/D/root/sub");
    let ensured = ensure(second.destination.as_str(), &mut existing, &mut log);
    let entries = vec![file("root/sub/b.txt", 4)];
    let level = walk.plan_level(&ensured, Direction::Upload, &entries, true).unwrap();
    for item in &level.plan.items {
        log.push(format!("enqueue {}", item.destination_locator));
    }
    let mut summary = TransferSummary::new();
    for item in &level.plan.items {
        summary.record(item, TaskOutcome::Completed(item.effective_size));
    }
    assert!(walk.cycle_finished(summary));
    assert!(matches!(walk.next_directory(), WalkStep::Done));
    assert!(walk.is_done());

    assert_eq!(
        log,
        vec![
            "mkdir /D/root",
            "enqueue /D/root/a.txt",
            "mkdir /D/root/sub",
            "enqueue /D/root/sub/b.txt",
        ]
    );
    assert!(existing.contains(&"/D/root".to_string()));
    assert!(existing.contains(&"/D/root/sub".to_string()));
    let total = walk.into_summary();
    assert_eq!(total.completed, 2);
    assert_eq!(total.bytes_moved, 7);
    assert_eq!(total.verdict(), Verdict::Succeeded);
}

#[test]
fn a_level_is_planned_only_for_its_own_directory() {
    let mut walk =
        Walk::new(SubDirectory { source: "r".to_string(), destination: "/d/r".to_string() });
    let entries = vec![file("r/a", 1)];
    let mut existing = vec!["/d".to_string()];
    let mut log = Vec::new();
    let other = ensure("/d/other", &mut existing, &mut log);
    assert_eq!(
        walk.plan_level(&other, Direction::Upload, &entries, true).err(),
        Some(WalkError::OutOfTurn)
    );
    visit(&mut walk);
    assert_eq!(
        walk.plan_level(&other, Direction::Upload, &entries, true).err(),
        Some(WalkError::DirectoryNotReady)
    );
    assert_eq!(walk.phase(), WalkPhase::Preparing);
    let own = ensure("/d/r", &mut existing, &mut log);
    let bad = vec![file("r/a", 1), file("/", 1)];
    assert_eq!(
        walk.plan_level(&own, Direction::Upload, &bad, true).err(),
        Some(WalkError::Plan(PlanError::NameExtractionFailed))
    );
    let big = vec![file("r/a", u64::MAX), file("r/b", 1)];
    assert_eq!(
        walk.plan_level(&own, Direction::Upload, &big, true).err(),
        Some(WalkError::Plan(PlanError::TotalTooLarge))
    );
    assert_eq!(walk.phase(), WalkPhase::Preparing);
    assert!(walk.plan_level(&own, Direction::Upload, &entries, true).is_ok());
    assert_eq!(
        walk.plan_level(&own, Direction::Upload, &entries, true).err(),
        Some(WalkError::OutOfTurn)
    );
    assert!(!walk.abandon_level());
}

#[test]
fn walk_visits_subdirectories_depth_first() {
    let mut walk =
        Walk::new(SubDirectory { source: "r".to_string(), destination: "/d/r".to_string() });
    let mut existing = vec!["/d".to_string()];
    let mut log = Vec::new();
    let mut order = Vec::new();
    loop {
        let d = match walk.next_directory() {
            WalkStep::Visit(d) => d,
            WalkStep::Done => break,
            WalkStep::Busy => panic!("busy"),
        };
        let children: Vec<&str> = match d.source.as_str() {
            "r" => vec!["r/a", "r/b"],
            "r/a" => vec!["r/a/x", "r/a/y"],
            "r/b" => vec!["r/b/z"],
            _ => vec![],
        };
        let entries: Vec<SourceEntry> = children.iter().map(|c| dir(c)).collect();
        let ensured = ensure(d.destination.as_str(), &mut existing, &mut log);
        let level = walk.plan_level(&ensured, Direction::Upload, &entries, true).unwrap();
        assert!(level.plan.is_empty());
        order.push((d.source, d.destination));
        assert!(walk.cycle_finished(TransferSummary::new()));
    }
    let sources: Vec<&str> = order.iter().map(|p| p.0.as_str()).collect();
    assert_eq!(sources, vec!["r", "r/a", "r/a/x", "r/a/y", "r/b", "r/b/z"]);
    let destinations: Vec<&str> = order.iter().map(|p| p.1.as_str()).collect();
    assert_eq!(
        destinations,
        vec!["/d/r", "/d/r/a", "/d/r/a/x", "/d/r/a/y", "/d/r/b", "/d/r/b/z"]
    );
}

#[test]
fn a_failed_task_does_not_end_the_walk() {
    let mut walk =
        Walk::new(SubDirectory { source: "r".to_string(), destination: "/d/r".to_string() });
    let mut existing = vec!["/d".to_string()];
    let mut log = Vec::new();
    let mut visited = Vec::new();
    loop {
        let d = match walk.next_directory() {
            WalkStep::Visit(d) => d,
            WalkStep::Done => break,
            WalkStep::Busy => panic!("busy"),
        };
        let entries = match d.source.as_str() {
            "r" => vec![file("r/bad", 10), file("r/good", 5), dir("r/s1"), dir("r/s2")],
            "r/s1" => vec![file("r/s1/x", 7)],
            "r/s2" => vec![file("r/s2/y", 8)],
            _ => vec![],
        };
        visited.push(d.source.clone());
        if d.source == "r/s1" {
            assert!(walk.abandon_level());
            continue;
        }
        let ensured = ensure(d.destination.as_str(), &mut existing, &mut log);
        let level = walk.plan_level(&ensured, Direction::Upload, &entries, true).unwrap();
        let mut summary = TransferSummary::new();
        for item in &level.plan.items {
            if item.source_locator == "r/bad" {
                summary.record(item, TaskOutcome::Failed(TaskError::ReadFailed));
            } else {
                summary.record(item, TaskOutcome::Completed(item.effective_size));
            }
        }
        assert!(walk.cycle_finished(summary));
    }
    assert_eq!(visited, vec!["r", "r/s1", "r/s2"]);
    let total = walk.into_summary();
    assert_eq!(total.verdict(), Verdict::CompletedWithFailures);
    assert_eq!(total.failed, vec!["r/bad".to_string(), "r/s1".to_string()]);
    assert_eq!(total.completed, 2);
    assert_eq!(total.bytes_moved, 13);
}
