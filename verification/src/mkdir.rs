//! Making sure that a remote directory exists.
//!
//! The work alternates between questions to the remote side and decisions.
//! The decisions live here, as a machine that is told each answer and names
//! the next request; whoever holds the session performs the requests.
//!
//! The machine first looks at the directory itself, then climbs towards the
//! root until it meets an existing directory, and finally creates what is
//! missing from the top down. A creation that fails is looked at once more:
//! if the directory exists by then, somebody else created it and the work
//! goes on.

use vstd::prelude::*;
use vstd::string::*;

use crate::paths::{
    lemma_last_component_bounds, lemma_parent_end_bounds, last_component, parent, parent_spec,
};
use crate::remote::{is_system_dir, is_system_dir_spec};
use crate::text::str_eq;

verus! {

/// What a stat of a remote path shows.
#[derive(Clone, Copy, Debug, PartialEq, Eq, Structural)]
pub enum PathProbe {
    /// Nothing exists at the path, or the stat failed.
    Missing,
    Directory,
    /// Something exists that is no directory.
    NotDirectory,
}

/// Why a directory could not be ensured.
#[derive(Clone, Copy, Debug, PartialEq, Eq, Structural)]
pub enum MkdirError {
    /// The directory is a protected system directory and is not to be created.
    SystemDirectory,
    /// The path exists and is no directory.
    NotADirectory,
    /// The directory could not be created and does not exist afterwards.
    CreateFailed,
    /// An answer arrived that does not fit the outstanding request.
    OutOfTurn,
}

/// Where the machine stands.
#[derive(Clone, Copy, Debug, PartialEq, Eq, Structural)]
pub enum MkdirPhase {
    /// The stat of the directory itself is outstanding.
    CheckTarget,
    /// The stat of an ancestor is outstanding.
    Climb,
    /// A creation is outstanding.
    Create,
    /// The stat of a directory whose creation failed is outstanding.
    Recheck,
    Done,
    Failed(MkdirError),
}

/// The answer to the outstanding request.
#[derive(Clone, Copy, Debug, PartialEq, Eq, Structural)]
pub enum MkdirReply {
    Probed(PathProbe),
    /// Whether the creation succeeded.
    Created(bool),
}

/// What the machine asks for next.
#[derive(Debug)]
pub enum MkdirRequest {
    Stat(String),
    Create(String),
    /// The directory exists.
    Finished,
    Failed { error: MkdirError, path: String },
}

/// A request as plain values.
pub enum RequestModel {
    Stat(Seq<char>),
    Create(Seq<char>),
    Finished,
    Failed { error: MkdirError, path: Seq<char> },
}

impl View for MkdirRequest {
    type V = RequestModel;

    open spec fn view(&self) -> RequestModel {
        match self {
            MkdirRequest::Stat(path) => RequestModel::Stat(path@),
            MkdirRequest::Create(path) => RequestModel::Create(path@),
            MkdirRequest::Finished => RequestModel::Finished,
            MkdirRequest::Failed { error, path } => RequestModel::Failed {
                error: *error,
                path: path@,
            },
        }
    }
}

/// The machine as plain values.
pub struct EnsureDirModel {
    pub phase: MkdirPhase,
    /// The directories found missing so far, the deepest first.
    pub missing: Seq<Seq<char>>,
    /// The path of the outstanding request, or of the failure.
    pub probe: Seq<char>,
}

/// Each missing directory but the last is followed by its parent.
pub open spec fn is_chain(missing: Seq<Seq<char>>) -> bool {
    forall|i: int|
        0 <= i < missing.len() - 1 ==> parent_spec(#[trigger] missing[i]) == Some(missing[i + 1])
}

/// No missing directory is a protected system directory.
pub open spec fn none_protected(missing: Seq<Seq<char>>) -> bool {
    forall|i: int| 0 <= i < missing.len() ==> !is_system_dir_spec(#[trigger] missing[i])
}

impl EnsureDirModel {
    /// The directory that the work is for: the deepest of the missing
    /// directories, or the path asked about while none is known missing.
    pub open spec fn target(self) -> Seq<char> {
        if self.missing.len() > 0 {
            self.missing[0]
        } else {
            self.probe
        }
    }

    /// What holds of every state that the machine reaches.
    pub open spec fn wf(self) -> bool {
        match self.phase {
            MkdirPhase::CheckTarget => self.missing.len() == 0 && !is_system_dir_spec(self.probe),
            MkdirPhase::Climb => {
                &&& self.missing.len() > 0
                &&& is_chain(self.missing)
                &&& none_protected(self.missing)
                &&& parent_spec(self.missing.last()) == Some(self.probe)
            },
            MkdirPhase::Create | MkdirPhase::Recheck => {
                &&& self.missing.len() > 0
                &&& is_chain(self.missing)
                &&& none_protected(self.missing)
                &&& self.probe == self.missing.last()
            },
            MkdirPhase::Done => true,
            MkdirPhase::Failed(_) => true,
        }
    }
}

/// The first state and request for the directory `dir`.
pub open spec fn start_spec(dir: Seq<char>) -> (EnsureDirModel, RequestModel) {
    if is_system_dir_spec(dir) {
        (
            EnsureDirModel {
                phase: MkdirPhase::Failed(MkdirError::SystemDirectory),
                missing: Seq::empty(),
                probe: dir,
            },
            RequestModel::Failed { error: MkdirError::SystemDirectory, path: dir },
        )
    } else {
        (
            EnsureDirModel { phase: MkdirPhase::CheckTarget, missing: Seq::empty(), probe: dir },
            RequestModel::Stat(dir),
        )
    }
}

/// Goes on from the deepest ancestor found missing: asks about its parent,
/// or starts creating where it has none worth asking about.
pub open spec fn climb_spec(missing: Seq<Seq<char>>) -> (EnsureDirModel, RequestModel) {
    let current = missing.last();
    match parent_spec(current) {
        Some(up) if up.len() > 0 && up != "/"@ => (
            EnsureDirModel { phase: MkdirPhase::Climb, missing, probe: up },
            RequestModel::Stat(up),
        ),
        _ => (
            EnsureDirModel { phase: MkdirPhase::Create, missing, probe: current },
            RequestModel::Create(current),
        ),
    }
}

/// Goes on after the last of `missing` has come to exist.
pub open spec fn created_spec(missing: Seq<Seq<char>>) -> (EnsureDirModel, RequestModel) {
    let rest = missing.drop_last();
    if rest.len() == 0 {
        (
            EnsureDirModel { phase: MkdirPhase::Done, missing: rest, probe: missing.last() },
            RequestModel::Finished,
        )
    } else {
        (
            EnsureDirModel { phase: MkdirPhase::Create, missing: rest, probe: rest.last() },
            RequestModel::Create(rest.last()),
        )
    }
}

/// The state of failure, and the request that reports it.
pub open spec fn failed_spec(state: EnsureDirModel, error: MkdirError) -> (
    EnsureDirModel,
    RequestModel,
) {
    (
        EnsureDirModel { phase: MkdirPhase::Failed(error), ..state },
        RequestModel::Failed { error, path: state.probe },
    )
}

/// The next state and request, given the answer to the outstanding request.
pub open spec fn step_spec(state: EnsureDirModel, reply: MkdirReply) -> (
    EnsureDirModel,
    RequestModel,
) {
    match (state.phase, reply) {
        (MkdirPhase::CheckTarget, MkdirReply::Probed(PathProbe::Directory)) => (
            EnsureDirModel { phase: MkdirPhase::Done, ..state },
            RequestModel::Finished,
        ),
        (MkdirPhase::CheckTarget, MkdirReply::Probed(PathProbe::NotDirectory)) => failed_spec(
            state,
            MkdirError::NotADirectory,
        ),
        (MkdirPhase::CheckTarget, MkdirReply::Probed(PathProbe::Missing)) => climb_spec(
            seq![state.probe],
        ),
        (MkdirPhase::Climb, MkdirReply::Probed(PathProbe::Directory)) => (
            EnsureDirModel {
                phase: MkdirPhase::Create,
                missing: state.missing,
                probe: state.missing.last(),
            },
            RequestModel::Create(state.missing.last()),
        ),
        (MkdirPhase::Climb, MkdirReply::Probed(_)) => if is_system_dir_spec(state.probe) {
            failed_spec(state, MkdirError::SystemDirectory)
        } else {
            climb_spec(state.missing.push(state.probe))
        },
        (MkdirPhase::Create, MkdirReply::Created(true)) => created_spec(state.missing),
        (MkdirPhase::Create, MkdirReply::Created(false)) => (
            EnsureDirModel { phase: MkdirPhase::Recheck, ..state },
            RequestModel::Stat(state.probe),
        ),
        (MkdirPhase::Recheck, MkdirReply::Probed(PathProbe::Directory)) => created_spec(
            state.missing,
        ),
        (MkdirPhase::Recheck, MkdirReply::Probed(_)) => failed_spec(
            state,
            MkdirError::CreateFailed,
        ),
        (MkdirPhase::Done, _) => (state, RequestModel::Finished),
        (MkdirPhase::Failed(error), _) => (
            state,
            RequestModel::Failed { error, path: state.probe },
        ),
        _ => failed_spec(state, MkdirError::OutOfTurn),
    }
}

/// The views of a sequence of paths.
pub open spec fn path_views(paths: Seq<String>) -> Seq<Seq<char>> {
    paths.map_values(|path: String| path@)
}

/// The decisions of one run of directory creation.
pub struct EnsureDir {
    phase: MkdirPhase,
    missing: Vec<String>,
    probe: String,
}

impl View for EnsureDir {
    type V = EnsureDirModel;

    closed spec fn view(&self) -> EnsureDirModel {
        EnsureDirModel {
            phase: self.phase,
            missing: path_views(self.missing@),
            probe: self.probe@,
        }
    }
}

impl EnsureDir {
    #[verifier::type_invariant]
    spec fn inv(&self) -> bool {
        self@.wf()
    }

    /// Begins the work for `dir` and names the first request.
    ///
    /// A protected system directory is refused at once, before any request.
    pub fn start(dir: &str) -> (r: (EnsureDir, MkdirRequest))
        ensures
            (r.0@, r.1@) == start_spec(dir@),
            r.0@.wf(),
            r.0@.target() == dir@,
            is_system_dir_spec(dir@) <==> r.1@ == (RequestModel::Failed {
                error: MkdirError::SystemDirectory,
                path: dir@,
            }),
            !is_system_dir_spec(dir@) <==> r.1@ == RequestModel::Stat(dir@),
    {
        let missing: Vec<String> = Vec::new();
        assert(path_views(missing@) =~= Seq::<Seq<char>>::empty());
        if is_system_dir(dir) {
            (
                EnsureDir {
                    phase: MkdirPhase::Failed(MkdirError::SystemDirectory),
                    missing,
                    probe: dir.to_owned(),
                },
                MkdirRequest::Failed { error: MkdirError::SystemDirectory, path: dir.to_owned() },
            )
        } else {
            (
                EnsureDir { phase: MkdirPhase::CheckTarget, missing, probe: dir.to_owned() },
                MkdirRequest::Stat(dir.to_owned()),
            )
        }
    }

    /// Where the machine stands.
    pub fn phase(&self) -> (p: MkdirPhase)
        ensures
            p == self@.phase,
    {
        self.phase
    }

    /// The directory that the work is for.
    pub fn target(&self) -> (r: String)
        ensures
            r@ == self@.target(),
    {
        if self.missing.len() > 0 {
            self.missing[0].clone()
        } else {
            self.probe.clone()
        }
    }

    /// Whether the directory is known to exist.
    pub fn is_done(&self) -> (r: bool)
        ensures
            r == (self@.phase == MkdirPhase::Done),
    {
        match self.phase {
            MkdirPhase::Done => true,
            _ => false,
        }
    }

    /// Number of directories found missing and not yet created.
    pub fn missing_len(&self) -> (n: usize)
        ensures
            n == self@.missing.len(),
    {
        self.missing.len()
    }

    fn climb(missing: Vec<String>) -> (r: (EnsureDir, MkdirRequest))
        requires
            missing.len() > 0,
            climb_spec(path_views(missing@)).0.wf(),
        ensures
            (r.0@, r.1@) == climb_spec(path_views(missing@)),
    {
        let current = missing[missing.len() - 1].clone();
        assert(current@ == path_views(missing@).last());
        match parent(current.as_str()) {
            Some(up) => {
                if up.as_str().unicode_len() > 0 && !str_eq(up.as_str(), "/") {
                    let request = MkdirRequest::Stat(up.clone());
                    (EnsureDir { phase: MkdirPhase::Climb, missing, probe: up }, request)
                } else {
                    let request = MkdirRequest::Create(current.clone());
                    (EnsureDir { phase: MkdirPhase::Create, missing, probe: current }, request)
                }
            },
            None => {
                let request = MkdirRequest::Create(current.clone());
                (EnsureDir { phase: MkdirPhase::Create, missing, probe: current }, request)
            },
        }
    }

    fn created(missing: Vec<String>) -> (r: (EnsureDir, MkdirRequest))
        requires
            missing.len() > 0,
            created_spec(path_views(missing@)).0.wf(),
        ensures
            (r.0@, r.1@) == created_spec(path_views(missing@)),
    {
        let ghost before = path_views(missing@);
        let mut rest = missing;
        let made = match rest.pop() {
            Some(made) => made,
            None => String::new(),
        };
        assert(path_views(rest@) =~= before.drop_last());
        assert(made@ == before.last());
        if rest.len() == 0 {
            (EnsureDir { phase: MkdirPhase::Done, missing: rest, probe: made }, MkdirRequest::Finished)
        } else {
            let next = rest[rest.len() - 1].clone();
            assert(next@ == path_views(rest@).last());
            let request = MkdirRequest::Create(next.clone());
            (EnsureDir { phase: MkdirPhase::Create, missing: rest, probe: next }, request)
        }
    }

    fn fail(self, error: MkdirError) -> (r: (EnsureDir, MkdirRequest))
        ensures
            (r.0@, r.1@) == failed_spec(self@, error),
    {
        let request = MkdirRequest::Failed { error, path: self.probe.clone() };
        (
            EnsureDir { phase: MkdirPhase::Failed(error), missing: self.missing, probe: self.probe },
            request,
        )
    }

    /// Takes the answer to the outstanding request and names the next one.
    pub fn step(self, reply: MkdirReply) -> (r: (EnsureDir, MkdirRequest))
        ensures
            (r.0@, r.1@) == step_spec(self@, reply),
            self@.wf(),
            r.0@.wf(),
            r.0@.target() == self@.target(),
    {
        proof {
            use_type_invariant(&self);
            law_step_keeps_wf(self@, reply);
            law_target_is_kept(self@, reply);
        }
        match self.phase {
            MkdirPhase::CheckTarget => match reply {
                MkdirReply::Probed(PathProbe::Directory) => (
                    EnsureDir { phase: MkdirPhase::Done, missing: self.missing, probe: self.probe },
                    MkdirRequest::Finished,
                ),
                MkdirReply::Probed(PathProbe::NotDirectory) => self.fail(MkdirError::NotADirectory),
                MkdirReply::Probed(PathProbe::Missing) => {
                    let mut missing: Vec<String> = Vec::new();
                    missing.push(self.probe);
                    assert(path_views(missing@) =~= seq![self.probe@]);
                    Self::climb(missing)
                },
                MkdirReply::Created(_) => self.fail(MkdirError::OutOfTurn),
            },
            MkdirPhase::Climb => match reply {
                MkdirReply::Probed(PathProbe::Directory) => {
                    let next = self.missing[self.missing.len() - 1].clone();
                    assert(next@ == path_views(self.missing@).last());
                    let request = MkdirRequest::Create(next.clone());
                    (
                        EnsureDir { phase: MkdirPhase::Create, missing: self.missing, probe: next },
                        request,
                    )
                },
                MkdirReply::Probed(_) => {
                    if is_system_dir(self.probe.as_str()) {
                        self.fail(MkdirError::SystemDirectory)
                    } else {
                        let ghost before = path_views(self.missing@);
                        let mut missing = self.missing;
                        missing.push(self.probe);
                        assert(path_views(missing@) =~= before.push(self.probe@));
                        Self::climb(missing)
                    }
                },
                MkdirReply::Created(_) => self.fail(MkdirError::OutOfTurn),
            },
            MkdirPhase::Create => match reply {
                MkdirReply::Created(true) => {
                    Self::created(self.missing)
                },
                MkdirReply::Created(false) => {
                    let request = MkdirRequest::Stat(self.probe.clone());
                    (
                        EnsureDir {
                            phase: MkdirPhase::Recheck,
                            missing: self.missing,
                            probe: self.probe,
                        },
                        request,
                    )
                },
                MkdirReply::Probed(_) => self.fail(MkdirError::OutOfTurn),
            },
            MkdirPhase::Recheck => match reply {
                MkdirReply::Probed(PathProbe::Directory) => {
                    Self::created(self.missing)
                },
                MkdirReply::Probed(_) => self.fail(MkdirError::CreateFailed),
                MkdirReply::Created(_) => self.fail(MkdirError::OutOfTurn),
            },
            MkdirPhase::Done => (self, MkdirRequest::Finished),
            MkdirPhase::Failed(error) => {
                let request = MkdirRequest::Failed { error, path: self.probe.clone() };
                (self, request)
            },
        }
    }
}

/// Every step keeps the machine well formed.
pub proof fn law_step_keeps_wf(state: EnsureDirModel, reply: MkdirReply)
    requires
        state.wf(),
    ensures
        step_spec(state, reply).0.wf(),
{
    let next = step_spec(state, reply).0;
    match (state.phase, reply) {
        (MkdirPhase::CheckTarget, MkdirReply::Probed(PathProbe::Missing)) => {
            let missing = seq![state.probe];
            assert(is_chain(missing));
            assert(none_protected(missing));
        },
        (MkdirPhase::Climb, MkdirReply::Probed(probe)) => {
            if probe != PathProbe::Directory && !is_system_dir_spec(state.probe) {
                let missing = state.missing.push(state.probe);
                assert(is_chain(missing)) by {
                    assert forall|i: int| 0 <= i < missing.len() - 1 implies parent_spec(
                        #[trigger] missing[i],
                    ) == Some(missing[i + 1]) by {
                        if i < state.missing.len() - 1 {
                            assert(missing[i] == state.missing[i]);
                            assert(missing[i + 1] == state.missing[i + 1]);
                        }
                    }
                }
                assert(none_protected(missing)) by {
                    assert forall|i: int| 0 <= i < missing.len() implies !is_system_dir_spec(
                        #[trigger] missing[i],
                    ) by {
                        if i < state.missing.len() {
                            assert(missing[i] == state.missing[i]);
                        }
                    }
                }
            }
        },
        (MkdirPhase::Create, MkdirReply::Created(true)) => {
            lemma_drop_last_keeps(state.missing);
        },
        (MkdirPhase::Recheck, MkdirReply::Probed(PathProbe::Directory)) => {
            lemma_drop_last_keeps(state.missing);
        },
        _ => {},
    }
}

proof fn lemma_drop_last_keeps(missing: Seq<Seq<char>>)
    requires
        missing.len() > 0,
        is_chain(missing),
        none_protected(missing),
    ensures
        is_chain(missing.drop_last()),
        none_protected(missing.drop_last()),
{
    let rest = missing.drop_last();
    assert forall|i: int| 0 <= i < rest.len() - 1 implies parent_spec(#[trigger] rest[i]) == Some(
        rest[i + 1],
    ) by {
        assert(rest[i] == missing[i]);
        assert(rest[i + 1] == missing[i + 1]);
    }
    assert forall|i: int| 0 <= i < rest.len() implies !is_system_dir_spec(#[trigger] rest[i]) by {
        assert(rest[i] == missing[i]);
    }
}

/// The work stays with the directory it was begun for.
pub proof fn law_target_is_kept(state: EnsureDirModel, reply: MkdirReply)
    requires
        state.wf(),
    ensures
        step_spec(state, reply).0.target() == state.target(),
{
    match (state.phase, reply) {
        (MkdirPhase::CheckTarget, MkdirReply::Probed(PathProbe::Missing)) => {
            assert(seq![state.probe][0] == state.probe);
        },
        (MkdirPhase::Climb, MkdirReply::Probed(probe)) => {
            assert(state.missing.push(state.probe)[0] == state.missing[0]);
        },
        (MkdirPhase::Create, MkdirReply::Created(true)) => {
            if state.missing.len() > 1 {
                assert(state.missing.drop_last()[0] == state.missing[0]);
            }
        },
        (MkdirPhase::Recheck, MkdirReply::Probed(PathProbe::Directory)) => {
            if state.missing.len() > 1 {
                assert(state.missing.drop_last()[0] == state.missing[0]);
            }
        },
        _ => {},
    }
}

/// The work is only reported as finished on an answer about the directory
/// itself, and only on one that says it exists: a stat that found a
/// directory, or a creation that succeeded.
pub proof fn law_finished_vouches_for_the_target(state: EnsureDirModel, reply: MkdirReply)
    requires
        state.wf(),
        state.phase != MkdirPhase::Done,
        step_spec(state, reply).1 == RequestModel::Finished,
    ensures
        step_spec(state, reply).0.phase == MkdirPhase::Done,
        state.probe == state.target(),
        reply == MkdirReply::Probed(PathProbe::Directory) || reply == MkdirReply::Created(true),
        step_spec(state, reply).0.target() == state.target(),
{
    law_target_is_kept(state, reply);
}

/// No request ever asks to create a protected system directory.
pub proof fn law_never_creates_system_dir(state: EnsureDirModel, reply: MkdirReply)
    requires
        state.wf(),
    ensures
        step_spec(state, reply).1 matches RequestModel::Create(path) ==> !is_system_dir_spec(path),
{
    law_step_keeps_wf(state, reply);
    let next = step_spec(state, reply).0;
    if step_spec(state, reply).1 is Create {
        assert(next.phase == MkdirPhase::Create);
        assert(next.probe == next.missing.last());
        assert(!is_system_dir_spec(next.missing[next.missing.len() - 1]));
    }
}

/// Directories are created from the top down: the directory asked for after
/// a creation lies directly inside the one that has just come to exist.
pub proof fn law_creates_top_down(state: EnsureDirModel, reply: MkdirReply)
    requires
        state.wf(),
        state.phase == MkdirPhase::Create || state.phase == MkdirPhase::Recheck,
    ensures
        step_spec(state, reply).1 matches RequestModel::Create(path) ==> parent_spec(path) == Some(
            state.probe,
        ),
{
    if step_spec(state, reply).1 is Create {
        let rest = state.missing.drop_last();
        assert(rest.len() > 0);
        assert(rest.last() == state.missing[state.missing.len() - 2]);
        assert(parent_spec(state.missing[state.missing.len() - 2]) == Some(
            state.missing[state.missing.len() - 1],
        ));
    }
}

/// A parent is shorter than the path it is the parent of.
pub proof fn lemma_parent_is_shorter(path: Seq<char>)
    ensures
        parent_spec(path) matches Some(up) ==> up.len() < path.len(),
{
    lemma_last_component_bounds(path, path.len() as int);
    match last_component(path, path.len() as int) {
        Some((b, e)) => {
            lemma_parent_end_bounds(path, b);
        },
        None => {},
    }
}

/// The climb ends: each ancestor asked about is shorter than the one before.
pub proof fn law_climb_shortens(state: EnsureDirModel, reply: MkdirReply)
    requires
        state.wf(),
        state.phase == MkdirPhase::Climb,
    ensures
        step_spec(state, reply).1 matches RequestModel::Stat(path) ==> path.len()
            < state.probe.len(),
{
    lemma_parent_is_shorter(state.probe);
}

} // verus!
