//! The way one transfer task runs: how its two ends are opened, and what
//! follows each chunk.
//!
//! Reading and writing are done by whoever holds the session. After each
//! event the caller asks the run what to do next and how many bytes to
//! report to the progress aggregator. Reports are coalesced: bytes are held
//! back until a threshold is crossed, and whatever is still held back is
//! reported when the task ends, so that the reports of a task always add up
//! to the bytes it moved.

use vstd::prelude::*;

use crate::plan::TransferItem;

verus! {

/// Chunk size used where none is configured: 1 MiB.
pub const DEFAULT_CHUNK_SIZE: usize = 1048576;

/// Files with more bytes to move than this use the large buffer: 10 MiB.
pub const LARGE_TRANSFER: u64 = 10485760;

/// Buffer size for large transfers: 8 MiB.
pub const LARGE_BUFFER: usize = 8388608;

/// Bytes held back between two reports of a large transfer: 1 MiB.
pub const REPORT_EVERY_LARGE: u64 = 1048576;

/// Bytes held back between two reports of any other transfer: 128 KiB.
pub const REPORT_EVERY_SMALL: u64 = 131072;

/// How the destination is opened.
#[derive(Clone, Copy, Debug, PartialEq, Eq, Structural)]
pub enum OpenMode {
    /// Create the destination, discarding what exists.
    Create,
    /// Continue the destination at its end.
    Append,
}

/// How a task opens its two ends and sizes its buffer.
#[derive(Clone, Copy, Debug, PartialEq, Eq, Structural)]
pub struct TaskSetup {
    pub mode: OpenMode,
    /// Position in the source at which reading starts.
    pub source_offset: u64,
    pub buffer_size: usize,
    /// Bytes to collect before they are reported.
    pub report_every: u64,
}

/// The setup for a task with the given resume offset and effective size.
pub open spec fn task_setup_spec(resume_offset: u64, effective_size: u64, chunk_size: usize)
    -> TaskSetup {
    TaskSetup {
        mode: if resume_offset == 0 {
            OpenMode::Create
        } else {
            OpenMode::Append
        },
        source_offset: resume_offset,
        buffer_size: if effective_size > LARGE_TRANSFER {
            LARGE_BUFFER
        } else {
            chunk_size
        },
        report_every: if effective_size > LARGE_TRANSFER {
            REPORT_EVERY_LARGE
        } else {
            REPORT_EVERY_SMALL
        },
    }
}

/// Decides how `item` is opened: the destination is created when nothing is
/// resumed and continued otherwise, and the source is read from the resume
/// offset on.
pub fn task_setup(item: &TransferItem, chunk_size: usize) -> (s: TaskSetup)
    ensures
        s == task_setup_spec(item@.resume_offset, item@.effective_size, chunk_size),
        s.mode == OpenMode::Create <==> item@.resume_offset == 0,
        s.source_offset == item@.resume_offset,
{
    let large = item.effective_size > LARGE_TRANSFER;
    TaskSetup {
        mode: if item.resume_offset == 0 {
            OpenMode::Create
        } else {
            OpenMode::Append
        },
        source_offset: item.resume_offset,
        buffer_size: if large {
            LARGE_BUFFER
        } else {
            chunk_size
        },
        report_every: if large {
            REPORT_EVERY_LARGE
        } else {
            REPORT_EVERY_SMALL
        },
    }
}

/// Why a task failed.
#[derive(Clone, Copy, Debug, PartialEq, Eq, Structural)]
pub enum TaskError {
    ReadFailed,
    WriteFailed,
    /// More bytes were moved than 64 bits can count.
    TooManyBytes,
    /// An event arrived that does not fit the state of the run.
    OutOfTurn,
}

/// Where a run stands.
#[derive(Clone, Copy, Debug, PartialEq, Eq, Structural)]
pub enum TaskPhase {
    /// Chunks are being moved.
    Streaming,
    /// The source is exhausted and the destination is being flushed.
    Syncing,
    Succeeded,
    Failed(TaskError),
}

/// What happened since the last step.
#[derive(Clone, Copy, Debug, PartialEq, Eq, Structural)]
pub enum ChunkEvent {
    /// A chunk of this many bytes was read and written. Zero bytes mean that
    /// the source is exhausted.
    Moved(usize),
    ReadFailed,
    WriteFailed,
    /// The destination was flushed; the flag says whether that succeeded.
    Synced(bool),
}

/// How a task ended.
#[derive(Clone, Copy, Debug, PartialEq, Eq, Structural)]
pub enum TaskOutcome {
    /// The source was moved to its end; the count is the bytes moved.
    Completed(u64),
    Failed(TaskError),
}

/// What to do next. Every action names the bytes to report now.
#[derive(Clone, Copy, Debug, PartialEq, Eq, Structural)]
pub enum TaskAction {
    /// Read and write the next chunk.
    Read { report: u64 },
    /// Flush the destination.
    Sync { report: u64 },
    /// The task has ended, with the bytes it moved or the reason it failed.
    Finish { report: u64, outcome: TaskOutcome },
}

/// The run of one task.
#[derive(Clone, Copy, Debug, PartialEq, Eq, Structural)]
pub struct TaskRun {
    pub phase: TaskPhase,
    /// Bytes read and written so far.
    pub moved: u64,
    /// Bytes reported so far.
    pub reported: u64,
    /// Bytes moved and not yet reported.
    pub held_back: u64,
    pub report_every: u64,
}

impl TaskAction {
    /// The bytes that the action reports.
    pub open spec fn report(self) -> u64 {
        match self {
            TaskAction::Read { report } => report,
            TaskAction::Sync { report } => report,
            TaskAction::Finish { report, outcome } => report,
        }
    }

    /// The bytes to hand to the progress aggregator now.
    pub fn bytes_to_report(&self) -> (n: u64)
        ensures
            n == self.report(),
    {
        match self {
            TaskAction::Read { report } => *report,
            TaskAction::Sync { report } => *report,
            TaskAction::Finish { report, outcome } => *report,
        }
    }
}

impl TaskRun {
    /// Every byte moved is either reported or held back.
    pub open spec fn wf(self) -> bool {
        &&& self.reported + self.held_back == self.moved
        &&& (self.phase != TaskPhase::Streaming) ==> self.held_back == 0
    }

    /// The run before the first chunk.
    pub open spec fn initial(report_every: u64) -> TaskRun {
        TaskRun { phase: TaskPhase::Streaming, moved: 0, reported: 0, held_back: 0, report_every }
    }

    /// The run ends in failure: what was held back is reported.
    pub open spec fn fail_spec(self, error: TaskError) -> (TaskRun, TaskAction) {
        (
            TaskRun {
                phase: TaskPhase::Failed(error),
                reported: self.moved,
                held_back: 0,
                ..self
            },
            TaskAction::Finish { report: self.held_back, outcome: TaskOutcome::Failed(error) },
        )
    }

    /// The next state and action after `event`.
    pub open spec fn step_spec(self, event: ChunkEvent) -> (TaskRun, TaskAction) {
        match (self.phase, event) {
            (TaskPhase::Streaming, ChunkEvent::Moved(n)) => {
                if n == 0 {
                    (
                        TaskRun {
                            phase: TaskPhase::Syncing,
                            reported: self.moved,
                            held_back: 0,
                            ..self
                        },
                        TaskAction::Sync { report: self.held_back },
                    )
                } else if self.moved + n > u64::MAX || self.held_back + n > u64::MAX {
                    self.fail_spec(TaskError::TooManyBytes)
                } else if self.held_back + n >= self.report_every {
                    (
                        TaskRun {
                            moved: (self.moved + n) as u64,
                            reported: (self.moved + n) as u64,
                            held_back: 0,
                            ..self
                        },
                        TaskAction::Read { report: (self.held_back + n) as u64 },
                    )
                } else {
                    (
                        TaskRun {
                            moved: (self.moved + n) as u64,
                            held_back: (self.held_back + n) as u64,
                            ..self
                        },
                        TaskAction::Read { report: 0 },
                    )
                }
            },
            (TaskPhase::Streaming, ChunkEvent::ReadFailed) => self.fail_spec(TaskError::ReadFailed),
            (TaskPhase::Streaming, ChunkEvent::WriteFailed) => self.fail_spec(
                TaskError::WriteFailed,
            ),
            (TaskPhase::Syncing, ChunkEvent::Synced(_)) => (
                TaskRun { phase: TaskPhase::Succeeded, ..self },
                TaskAction::Finish { report: 0, outcome: TaskOutcome::Completed(self.moved) },
            ),
            (TaskPhase::Succeeded, _) => (
                self,
                TaskAction::Finish { report: 0, outcome: TaskOutcome::Completed(self.moved) },
            ),
            (TaskPhase::Failed(error), _) => (
                self,
                TaskAction::Finish { report: 0, outcome: TaskOutcome::Failed(error) },
            ),
            _ => self.fail_spec(TaskError::OutOfTurn),
        }
    }

    /// Begins the run of `item`.
    pub fn start(item: &TransferItem, chunk_size: usize) -> (r: (TaskRun, TaskSetup))
        ensures
            r.1 == task_setup_spec(item@.resume_offset, item@.effective_size, chunk_size),
            r.0 == TaskRun::initial(r.1.report_every),
            r.0.wf(),
    {
        let setup = task_setup(item, chunk_size);
        (
            TaskRun {
                phase: TaskPhase::Streaming,
                moved: 0,
                reported: 0,
                held_back: 0,
                report_every: setup.report_every,
            },
            setup,
        )
    }

    fn fail(self, error: TaskError) -> (r: (TaskRun, TaskAction))
        ensures
            r == self.fail_spec(error),
    {
        (
            TaskRun {
                phase: TaskPhase::Failed(error),
                moved: self.moved,
                reported: self.moved,
                held_back: 0,
                report_every: self.report_every,
            },
            TaskAction::Finish { report: self.held_back, outcome: TaskOutcome::Failed(error) },
        )
    }

    /// Takes one event and says what to do next.
    ///
    /// A failed flush does not fail the task. A failed read or write ends it,
    /// and so does an event that does not fit the state of the run.
    pub fn step(self, event: ChunkEvent) -> (r: (TaskRun, TaskAction))
        ensures
            r == self.step_spec(event),
            self.wf() ==> r.0.wf(),
            self.wf() ==> r.0.reported == self.reported + r.1.report(),
    {
        match self.phase {
            TaskPhase::Streaming => match event {
                ChunkEvent::Moved(n) => {
                    if n == 0 {
                        return (
                            TaskRun {
                                phase: TaskPhase::Syncing,
                                moved: self.moved,
                                reported: self.moved,
                                held_back: 0,
                                report_every: self.report_every,
                            },
                            TaskAction::Sync { report: self.held_back },
                        );
                    }
                    let count: u64 = n as u64;
                    let moved = match self.moved.checked_add(count) {
                        Some(moved) => moved,
                        None => {
                            return self.fail(TaskError::TooManyBytes);
                        },
                    };
                    let held = match self.held_back.checked_add(count) {
                        Some(held) => held,
                        None => {
                            return self.fail(TaskError::TooManyBytes);
                        },
                    };
                    if held >= self.report_every {
                        (
                            TaskRun {
                                phase: self.phase,
                                moved,
                                reported: moved,
                                held_back: 0,
                                report_every: self.report_every,
                            },
                            TaskAction::Read { report: held },
                        )
                    } else {
                        (
                            TaskRun {
                                phase: self.phase,
                                moved,
                                reported: self.reported,
                                held_back: held,
                                report_every: self.report_every,
                            },
                            TaskAction::Read { report: 0 },
                        )
                    }
                },
                ChunkEvent::ReadFailed => self.fail(TaskError::ReadFailed),
                ChunkEvent::WriteFailed => self.fail(TaskError::WriteFailed),
                ChunkEvent::Synced(_) => self.fail(TaskError::OutOfTurn),
            },
            TaskPhase::Syncing => match event {
                ChunkEvent::Synced(_) => (
                    TaskRun {
                        phase: TaskPhase::Succeeded,
                        moved: self.moved,
                        reported: self.reported,
                        held_back: self.held_back,
                        report_every: self.report_every,
                    },
                    TaskAction::Finish { report: 0, outcome: TaskOutcome::Completed(self.moved) },
                ),
                _ => self.fail(TaskError::OutOfTurn),
            },
            TaskPhase::Succeeded => (
                self,
                TaskAction::Finish { report: 0, outcome: TaskOutcome::Completed(self.moved) },
            ),
            TaskPhase::Failed(error) => (
                self,
                TaskAction::Finish { report: 0, outcome: TaskOutcome::Failed(error) },
            ),
        }
    }

    /// Whether the run has ended.
    pub fn is_finished(&self) -> (r: bool)
        ensures
            r == (self.phase == TaskPhase::Succeeded || self.phase is Failed),
    {
        match self.phase {
            TaskPhase::Succeeded => true,
            TaskPhase::Failed(_) => true,
            _ => false,
        }
    }
}

/// Sum of the chunk sizes.
pub open spec fn chunk_total(chunks: Seq<usize>) -> nat
    decreases chunks.len(),
{
    if chunks.len() == 0 {
        0
    } else {
        chunk_total(chunks.drop_last()) + chunks.last() as nat
    }
}

/// The run after the chunks have been moved, one `Moved` event each.
pub open spec fn after_chunks(run: TaskRun, chunks: Seq<usize>) -> TaskRun
    decreases chunks.len(),
{
    if chunks.len() == 0 {
        run
    } else {
        after_chunks(run, chunks.drop_last()).step_spec(ChunkEvent::Moved(chunks.last())).0
    }
}

/// While chunks arrive, the run counts every byte: after any number of
/// chunks, none of them empty, it has moved their total, and what it has
/// reported and what it holds back add up to it.
pub proof fn law_chunks_are_counted(report_every: u64, chunks: Seq<usize>)
    requires
        forall|i: int| 0 <= i < chunks.len() ==> chunks[i] > 0,
        chunk_total(chunks) <= u64::MAX,
    ensures
        after_chunks(TaskRun::initial(report_every), chunks).phase == TaskPhase::Streaming,
        after_chunks(TaskRun::initial(report_every), chunks).report_every == report_every,
        after_chunks(TaskRun::initial(report_every), chunks).moved == chunk_total(chunks),
        after_chunks(TaskRun::initial(report_every), chunks).wf(),
        after_chunks(TaskRun::initial(report_every), chunks).held_back < report_every
            || after_chunks(TaskRun::initial(report_every), chunks).held_back == 0,
    decreases chunks.len(),
{
    if chunks.len() > 0 {
        let before = chunks.drop_last();
        assert forall|i: int| 0 <= i < before.len() implies before[i] > 0 by {
            assert(before[i] == chunks[i]);
        }
        law_chunks_are_counted(report_every, before);
    }
}

/// When the source ends, everything moved has been reported: a task whose
/// chunks add up to `total` has reported exactly `total` once it is told
/// that the source is exhausted, and it then succeeds with `total` whether
/// or not the flush does.
pub proof fn law_final_report_is_exact(report_every: u64, chunks: Seq<usize>, flushed: bool)
    requires
        forall|i: int| 0 <= i < chunks.len() ==> chunks[i] > 0,
        chunk_total(chunks) <= u64::MAX,
    ensures
        ({
            let streamed = after_chunks(TaskRun::initial(report_every), chunks);
            let drained = streamed.step_spec(ChunkEvent::Moved(0));
            let ended = drained.0.step_spec(ChunkEvent::Synced(flushed));
            &&& drained.0.reported == chunk_total(chunks)
            &&& drained.1 == (TaskAction::Sync { report: streamed.held_back })
            &&& ended.0.reported == chunk_total(chunks)
            &&& ended.0.phase == TaskPhase::Succeeded
            &&& ended.1 == (TaskAction::Finish {
                report: 0,
                outcome: TaskOutcome::Completed(chunk_total(chunks) as u64),
            })
        }),
{
    law_chunks_are_counted(report_every, chunks);
}

} // verus!
