use ssh_transfer::mkdir::{
    EnsureDir, MkdirError, MkdirPhase, MkdirReply, MkdirRequest, PathProbe,
};

fn stat_path(r: &MkdirRequest) -> String {
    match r {
        MkdirRequest::Stat(p) => p.clone(),
        other => panic!("expected a stat, got {:?}", other),
    }
}

fn create_path(r: &MkdirRequest) -> String {
    match r {
        MkdirRequest::Create(p) => p.clone(),
        other => panic!("expected a creation, got {:?}", other),
    }
}

#[test]
fn existing_directory_needs_nothing() {
    let (m, r) = EnsureDir::start("/home/ann/data");
    assert_eq!(stat_path(&r), "/home/ann/data");
    assert_eq!(m.phase(), MkdirPhase::CheckTarget);
    let (m, r) = m.step(MkdirReply::Probed(PathProbe::Directory));
    assert!(matches!(r, MkdirRequest::Finished));
    assert!(m.is_done());
    let (m, r) = m.step(MkdirReply::Created(true));
    assert!(matches!(r, MkdirRequest::Finished));
    assert!(m.is_done());
}

#[test]
fn system_directories_are_refused_at_once() {
    for dir in ["/", "/usr", "/var", "/etc", "/bin", "/sbin", "/lib", "/opt", "/Users"] {
        let (m, r) = EnsureDir::start(dir);
        match r {
            MkdirRequest::Failed { error, path } => {
                assert_eq!(error, MkdirError::SystemDirectory);
                assert_eq!(path, dir);
            }
            other => panic!("unexpected {:?}", other),
        }
        assert_eq!(m.phase(), MkdirPhase::Failed(MkdirError::SystemDirectory));
        assert!(!m.is_done());
    }
}

#[test]
fn file_in_the_way_fails() {
    let (m, _) = EnsureDir::start("/home/ann/data");
    let (m, r) = m.step(MkdirReply::Probed(PathProbe::NotDirectory));
    match r {
        MkdirRequest::Failed { error, path } => {
            assert_eq!(error, MkdirError::NotADirectory);
            assert_eq!(path, "/home/ann/data");
        }
        other => panic!("unexpected {:?}", other),
    }
    let (_, r) = m.step(MkdirReply::Probed(PathProbe::Directory));
    assert!(matches!(r, MkdirRequest::Failed { error: MkdirError::NotADirectory, .. }));
}

#[test]
fn missing_segments_are_created_top_down() {
    let (m, r) = EnsureDir::start("/home/ann/a/b/c");
    assert_eq!(stat_path(&r), "/home/ann/a/b/c");
    let (m, r) = m.step(MkdirReply::Probed(PathProbe::Missing));
    assert_eq!(stat_path(&r), "/home/ann/a/b");
    assert_eq!(m.missing_len(), 1);
    let (m, r) = m.step(MkdirReply::Probed(PathProbe::Missing));
    assert_eq!(stat_path(&r), "/home/ann/a");
    let (m, r) = m.step(MkdirReply::Probed(PathProbe::Missing));
    assert_eq!(stat_path(&r), "/home/ann");
    assert_eq!(m.missing_len(), 3);
    let (m, r) = m.step(MkdirReply::Probed(PathProbe::Directory));
    assert_eq!(create_path(&r), "/home/ann/a");
    let (m, r) = m.step(MkdirReply::Created(true));
    assert_eq!(create_path(&r), "/home/ann/a/b");
    let (m, r) = m.step(MkdirReply::Created(true));
    assert_eq!(create_path(&r), "/home/ann/a/b/c");
    let (m, r) = m.step(MkdirReply::Created(true));
    assert!(matches!(r, MkdirRequest::Finished));
    assert!(m.is_done());
    assert_eq!(m.missing_len(), 0);
}

#[test]
fn climb_stops_below_the_root() {
    let (m, _) = EnsureDir::start("/data/x");
    let (m, r) = m.step(MkdirReply::Probed(PathProbe::Missing));
    assert_eq!(stat_path(&r), "/data");
    let (m, r) = m.step(MkdirReply::Probed(PathProbe::Missing));
    assert_eq!(create_path(&r), "/data");
    let (m, r) = m.step(MkdirReply::Created(true));
    assert_eq!(create_path(&r), "/data/x");
    let (m, _) = m.step(MkdirReply::Created(true));
    assert!(m.is_done());

    let (m, _) = EnsureDir::start("rel/x");
    let (m, r) = m.step(MkdirReply::Probed(PathProbe::Missing));
    assert_eq!(stat_path(&r), "rel");
    let (_, r) = m.step(MkdirReply::Probed(PathProbe::Missing));
    assert_eq!(create_path(&r), "rel");
}

#[test]
fn lost_race_is_tolerated() {
    let (m, _) = EnsureDir::start("/home/ann/a/b");
    let (m, _) = m.step(MkdirReply::Probed(PathProbe::Missing));
    let (m, r) = m.step(MkdirReply::Probed(PathProbe::Directory));
    assert_eq!(create_path(&r), "/home/ann/a/b");
    let (m, r) = m.step(MkdirReply::Created(false));
    assert_eq!(stat_path(&r), "/home/ann/a/b");
    assert_eq!(m.phase(), MkdirPhase::Recheck);
    let (m, r) = m.step(MkdirReply::Probed(PathProbe::Directory));
    assert!(matches!(r, MkdirRequest::Finished));
    assert!(m.is_done());
}

#[test]
fn failed_creation_fails_the_work() {
    for probe in [PathProbe::Missing, PathProbe::NotDirectory] {
        let (m, _) = EnsureDir::start("/home/ann/a");
        let (m, _) = m.step(MkdirReply::Probed(PathProbe::Missing));
        let (m, r) = m.step(MkdirReply::Probed(PathProbe::Directory));
        assert_eq!(create_path(&r), "/home/ann/a");
        let (m, _) = m.step(MkdirReply::Created(false));
        let (m, r) = m.step(MkdirReply::Probed(probe));
        match r {
            MkdirRequest::Failed { error, path } => {
                assert_eq!(error, MkdirError::CreateFailed);
                assert_eq!(path, "/home/ann/a");
            }
            other => panic!("unexpected {:?}", other),
        }
        assert_eq!(m.phase(), MkdirPhase::Failed(MkdirError::CreateFailed));
    }
}

#[test]
fn missing_system_ancestor_is_never_created() {
    let (m, _) = EnsureDir::start("/opt/app/data");
    let (m, r) = m.step(MkdirReply::Probed(PathProbe::Missing));
    assert_eq!(stat_path(&r), "/opt/app");
    let (m, r) = m.step(MkdirReply::Probed(PathProbe::Missing));
    assert_eq!(stat_path(&r), "/opt");
    let (m, r) = m.step(MkdirReply::Probed(PathProbe::Missing));
    match r {
        MkdirRequest::Failed { error, path } => {
            assert_eq!(error, MkdirError::SystemDirectory);
            assert_eq!(path, "/opt");
        }
        other => panic!("unexpected {:?}", other),
    }
    assert_eq!(m.phase(), MkdirPhase::Failed(MkdirError::SystemDirectory));
}

#[test]
fn answers_out_of_turn_fail() {
    let (m, _) = EnsureDir::start("/home/ann/a");
    let (m, r) = m.step(MkdirReply::Created(true));
    assert!(matches!(r, MkdirRequest::Failed { error: MkdirError::OutOfTurn, .. }));
    assert_eq!(m.phase(), MkdirPhase::Failed(MkdirError::OutOfTurn));

    let (m, _) = EnsureDir::start("/home/ann/a");
    let (m, _) = m.step(MkdirReply::Probed(PathProbe::Missing));
    let (_, r) = m.step(MkdirReply::Created(true));
    assert!(matches!(r, MkdirRequest::Failed { error: MkdirError::OutOfTurn, .. }));

    let (m, _) = EnsureDir::start("/home/ann/a");
    let (m, _) = m.step(MkdirReply::Probed(PathProbe::Missing));
    let (m, _) = m.step(MkdirReply::Probed(PathProbe::Directory));
    let (_, r) = m.step(MkdirReply::Probed(PathProbe::Directory));
    assert!(matches!(r, MkdirRequest::Failed { error: MkdirError::OutOfTurn, .. }));
}

#[test]
fn the_work_stays_with_its_directory() {
    let (m, _) = EnsureDir::start("/home/ann/a/b");
    assert_eq!(m.target(), "/home/ann/a/b");
    let (m, _) = m.step(MkdirReply::Probed(PathProbe::Missing));
    assert_eq!(m.target(), "/home/ann/a/b");
    let (m, _) = m.step(MkdirReply::Probed(PathProbe::Missing));
    assert_eq!(m.target(), "/home/ann/a/b");
    let (m, _) = m.step(MkdirReply::Probed(PathProbe::Directory));
    let (m, _) = m.step(MkdirReply::Created(true));
    assert_eq!(m.target(), "/home/ann/a/b");
    assert!(!m.is_done());
    let (m, _) = m.step(MkdirReply::Created(true));
    assert!(m.is_done());
    assert_eq!(m.target(), "/home/ann/a/b");
}
