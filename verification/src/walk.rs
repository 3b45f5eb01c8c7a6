//! The walk over a directory tree, one level at a time.
//!
//! A level goes through three steps, in this order and no other. The walk
//! hands out a directory. Its destination is made to exist, and only then
//! does the walk plan the level, so that no task is ever planned into a
//! directory that is not there. The pool cycle of the level runs, and when it
//! is reported as finished its summary is merged into that of the walk and
//! the subdirectories it found enter the queue, to be visited in listing
//! order before anything that was waiting already.
//!
//! A failed task does not end the walk: it is kept in the summary, and the
//! walk goes on with the next directory.

use vstd::prelude::*;
use vstd::string::*;

use crate::mkdir::{EnsureDir, EnsureDirModel, MkdirPhase};
use crate::plan::{
    all_named, count_skipped, dir_views, entry_views, plan_directory, plan_dirs, plan_items,
    total_effective, DirModel, Direction, PlanError, SourceEntry, SubDirectory, TransferPlan,
};
use crate::pool::{SummaryModel, TransferSummary};
use crate::text::str_eq;

verus! {

/// Where the walk stands.
#[derive(Clone, Copy, Debug, PartialEq, Eq, Structural)]
pub enum WalkPhase {
    /// No directory is handed out.
    Idle,
    /// A directory is handed out and its level is not planned yet.
    Preparing,
    /// The level is planned and its pool cycle is running.
    Running,
}

/// What the walk asks for next.
#[derive(Debug)]
pub enum WalkStep {
    /// Make the destination exist, list the source and have the level
    /// planned.
    Visit(SubDirectory),
    /// A directory is handed out already: no further one is.
    Busy,
    /// Every directory has been visited.
    Done,
}

/// Why the walk planned no level.
#[derive(Clone, Copy, Debug, PartialEq, Eq, Structural)]
pub enum WalkError {
    /// No directory is waiting for its plan.
    OutOfTurn,
    /// The destination of the directory is not known to exist.
    DirectoryNotReady,
    /// The level could not be planned.
    Plan(PlanError),
}

/// The tasks of one level.
#[derive(Debug)]
pub struct LevelPlan {
    pub plan: TransferPlan,
    /// Number of files of the level that need no transfer.
    pub skipped: usize,
}

/// The walk as plain values.
pub struct WalkModel {
    pub phase: WalkPhase,
    /// The directories still to visit, the next one first.
    pub queue: Seq<DirModel>,
    /// The directory handed out last.
    pub current: DirModel,
    /// The subdirectories found by the level that is running.
    pub found: Seq<DirModel>,
    /// What became of the tasks of the levels finished so far.
    pub total: SummaryModel,
}

impl WalkModel {
    /// Whether `ensured` vouches for the destination of the directory handed
    /// out: its work is finished, and it was begun for that destination.
    pub open spec fn level_ready(self, ensured: EnsureDirModel) -> bool {
        ensured.phase == MkdirPhase::Done && ensured.target() == self.current.destination
    }
}

/// The walk over one directory tree.
pub struct Walk {
    phase: WalkPhase,
    pending: Vec<SubDirectory>,
    current: SubDirectory,
    found: Vec<SubDirectory>,
    summary: TransferSummary,
}

impl View for Walk {
    type V = WalkModel;

    closed spec fn view(&self) -> WalkModel {
        WalkModel {
            phase: self.phase,
            queue: dir_views(self.pending@),
            current: self.current@,
            found: dir_views(self.found@),
            total: self.summary@,
        }
    }
}

impl Walk {
    /// A walk that starts at `root`.
    pub fn new(root: SubDirectory) -> (w: Walk)
        ensures
            w@ == (WalkModel {
                phase: WalkPhase::Idle,
                queue: seq![root@],
                current: root@,
                found: Seq::empty(),
                total: SummaryModel::empty(),
            }),
    {
        let current = SubDirectory {
            source: root.source.clone(),
            destination: root.destination.clone(),
        };
        let mut pending: Vec<SubDirectory> = Vec::new();
        pending.push(root);
        let found: Vec<SubDirectory> = Vec::new();
        assert(dir_views(pending@) =~= seq![root@]);
        assert(dir_views(found@) =~= Seq::<DirModel>::empty());
        Walk { phase: WalkPhase::Idle, pending, current, found, summary: TransferSummary::new() }
    }

    /// Where the walk stands.
    pub fn phase(&self) -> (p: WalkPhase)
        ensures
            p == self@.phase,
    {
        self.phase
    }

    /// Number of directories that wait to be visited.
    pub fn pending_len(&self) -> (n: usize)
        ensures
            n == self@.queue.len(),
    {
        self.pending.len()
    }

    /// Hands out the next directory, unless one is handed out already or
    /// none is left.
    pub fn next_directory(&mut self) -> (r: WalkStep)
        ensures
            match r {
                WalkStep::Visit(dir) => {
                    &&& old(self)@.phase == WalkPhase::Idle
                    &&& old(self)@.queue.len() > 0
                    &&& dir@ == old(self)@.queue[0]
                    &&& final(self)@ == (WalkModel {
                        phase: WalkPhase::Preparing,
                        queue: old(self)@.queue.skip(1),
                        current: old(self)@.queue[0],
                        ..old(self)@
                    })
                },
                WalkStep::Busy => old(self)@.phase != WalkPhase::Idle && final(self)@ == old(self)@,
                WalkStep::Done => {
                    &&& old(self)@.phase == WalkPhase::Idle
                    &&& old(self)@.queue.len() == 0
                    &&& final(self)@ == old(self)@
                },
            },
    {
        match self.phase {
            WalkPhase::Idle => {
                if self.pending.len() == 0 {
                    WalkStep::Done
                } else {
                    let ghost before = self.pending@;
                    let dir = self.pending.remove(0);
                    self.current = SubDirectory {
                        source: dir.source.clone(),
                        destination: dir.destination.clone(),
                    };
                    self.phase = WalkPhase::Preparing;
                    assert(dir_views(self.pending@) =~= dir_views(before).skip(1));
                    WalkStep::Visit(dir)
                }
            },
            _ => WalkStep::Busy,
        }
    }

    /// Plans the level of the directory handed out.
    ///
    /// `ensured` is the work that made the destination exist, and `entries`
    /// the listing of the source. The level is planned only where that work
    /// is finished and was begun for this very destination. On success the
    /// cycle of the level counts as running; on failure nothing changes.
    pub fn plan_level(
        &mut self,
        ensured: &EnsureDir,
        direction: Direction,
        entries: &Vec<SourceEntry>,
        resume_enabled: bool,
    ) -> (r: Result<LevelPlan, WalkError>)
        ensures
            match r {
                Ok(level) => {
                    &&& old(self)@.phase == WalkPhase::Preparing
                    &&& old(self)@.level_ready(ensured@)
                    &&& all_named(entry_views(entries@))
                    &&& level.plan.wf()
                    &&& level.plan.models() == plan_items(
                        direction,
                        entry_views(entries@),
                        old(self)@.current.destination,
                        resume_enabled,
                    )
                    &&& level.skipped == count_skipped(entry_views(entries@), resume_enabled)
                    &&& final(self)@ == (WalkModel {
                        phase: WalkPhase::Running,
                        found: plan_dirs(
                            direction,
                            entry_views(entries@),
                            old(self)@.current.destination,
                        ),
                        ..old(self)@
                    })
                },
                Err(WalkError::OutOfTurn) => {
                    &&& old(self)@.phase != WalkPhase::Preparing
                    &&& final(self)@ == old(self)@
                },
                Err(WalkError::DirectoryNotReady) => {
                    &&& old(self)@.phase == WalkPhase::Preparing
                    &&& !old(self)@.level_ready(ensured@)
                    &&& final(self)@ == old(self)@
                },
                Err(WalkError::Plan(error)) => {
                    &&& old(self)@.phase == WalkPhase::Preparing
                    &&& old(self)@.level_ready(ensured@)
                    &&& final(self)@ == old(self)@
                    &&& error == PlanError::NameExtractionFailed || error
                        == PlanError::TotalTooLarge
                    &&& error == PlanError::NameExtractionFailed <==> !all_named(
                        entry_views(entries@),
                    )
                    &&& error == PlanError::TotalTooLarge <==> all_named(entry_views(entries@))
                        && total_effective(
                        plan_items(
                            direction,
                            entry_views(entries@),
                            old(self)@.current.destination,
                            resume_enabled,
                        ),
                    ) > u64::MAX
                },
            },
            r is Ok <==> {
                &&& old(self)@.phase == WalkPhase::Preparing
                &&& old(self)@.level_ready(ensured@)
                &&& all_named(entry_views(entries@))
                &&& total_effective(
                    plan_items(
                        direction,
                        entry_views(entries@),
                        old(self)@.current.destination,
                        resume_enabled,
                    ),
                ) <= u64::MAX
            },
    {
        match self.phase {
            WalkPhase::Preparing => {},
            _ => {
                return Err(WalkError::OutOfTurn);
            },
        }
        let target = ensured.target();
        if !ensured.is_done() || !str_eq(target.as_str(), self.current.destination.as_str()) {
            return Err(WalkError::DirectoryNotReady);
        }
        match plan_directory(
            direction,
            entries,
            self.current.destination.as_str(),
            resume_enabled,
        ) {
            Ok(level) => {
                self.found = level.subdirs;
                self.phase = WalkPhase::Running;
                Ok(LevelPlan { plan: level.plan, skipped: level.skipped })
            },
            Err(error) => Err(WalkError::Plan(error)),
        }
    }

    /// Gives up the directory handed out, without a plan: the directory is
    /// kept as failed and nothing below it is visited. Returns `false`, and
    /// changes nothing, unless a directory was waiting for its plan.
    pub fn abandon_level(&mut self) -> (accepted: bool)
        ensures
            accepted == (old(self)@.phase == WalkPhase::Preparing),
            accepted ==> final(self)@ == (WalkModel {
                phase: WalkPhase::Idle,
                total: SummaryModel {
                    failed: old(self)@.total.failed.push(old(self)@.current.source),
                    ..old(self)@.total
                },
                ..old(self)@
            }),
            !accepted ==> final(self)@ == old(self)@,
    {
        match self.phase {
            WalkPhase::Preparing => {
                self.summary.note_failure(self.current.source.as_str());
                self.phase = WalkPhase::Idle;
                true
            },
            _ => false,
        }
    }

    /// Reports the running cycle as finished, with what became of its tasks.
    /// The summary is merged into that of the walk, whether or not tasks
    /// failed, and the subdirectories of the level enter the queue. Returns
    /// `false`, and changes nothing, when no cycle was running.
    pub fn cycle_finished(&mut self, level: TransferSummary) -> (accepted: bool)
        ensures
            accepted == (old(self)@.phase == WalkPhase::Running),
            accepted ==> final(self)@ == (WalkModel {
                phase: WalkPhase::Idle,
                queue: old(self)@.found + old(self)@.queue,
                found: Seq::empty(),
                total: old(self)@.total.merged(level@),
                ..old(self)@
            }),
            !accepted ==> final(self)@ == old(self)@,
    {
        match self.phase {
            WalkPhase::Running => {},
            _ => {
                return false;
            },
        }
        let ghost waiting = self.pending@;
        let ghost found = self.found@;
        let mut queue: Vec<SubDirectory> = Vec::new();
        queue.append(&mut self.found);
        queue.append(&mut self.pending);
        assert(dir_views(queue@) =~= dir_views(found) + dir_views(waiting));
        assert(dir_views(self.found@) =~= Seq::<DirModel>::empty());
        self.pending = queue;
        self.summary.merge(level);
        self.phase = WalkPhase::Idle;
        true
    }

    /// Whether every directory has been visited and no level is open.
    pub fn is_done(&self) -> (r: bool)
        ensures
            r == (self@.phase == WalkPhase::Idle && self@.queue.len() == 0),
    {
        match self.phase {
            WalkPhase::Idle => self.pending.len() == 0,
            _ => false,
        }
    }

    /// What became of the tasks of all levels finished so far.
    pub fn into_summary(self) -> (s: TransferSummary)
        ensures
            s@ == self@.total,
    {
        self.summary
    }
}

} // verus!
