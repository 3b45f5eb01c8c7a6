//! What a pool cycle amounts to: which tasks completed, which failed, and
//! how the cycle as a whole ended.
//!
//! The workers themselves are threads of whoever runs the pool. Each worker
//! keeps a summary of the tasks it took, and the summaries are merged when
//! the workers have been joined. A failed task is recorded and nothing more:
//! it ends neither its worker nor the cycle.

use vstd::multiset::Multiset;
use vstd::prelude::*;
use vstd::string::*;

use crate::executor::TaskOutcome;
use crate::plan::{total_effective, ItemModel, TransferItem};
use crate::progress::{counter_after, law_counter_holds_the_sum, lemma_sum_of_permutation, sum_of};

verus! {

/// Capacity of the queue that feeds the workers.
pub const QUEUE_CAPACITY: usize = 100;

/// Why a cycle as a whole failed.
#[derive(Clone, Copy, Debug, PartialEq, Eq, Structural)]
pub enum PoolError {
    /// A pool needs at least one worker.
    NoWorkers,
    /// A worker could not be joined.
    WorkerLost,
}

/// Checks the number of workers asked for.
pub fn worker_count(concurrency: usize) -> (r: Result<usize, PoolError>)
    ensures
        r == (if concurrency >= 1 {
            Ok::<usize, PoolError>(concurrency)
        } else {
            Err::<usize, PoolError>(PoolError::NoWorkers)
        }),
{
    if concurrency >= 1 {
        Ok(concurrency)
    } else {
        Err(PoolError::NoWorkers)
    }
}

/// `a + b`, or the largest value where the sum does not fit.
pub open spec fn capped_u64(a: u64, b: u64) -> u64 {
    if a + b > u64::MAX {
        u64::MAX
    } else {
        (a + b) as u64
    }
}

/// `a + b`, or the largest value where the sum does not fit.
pub open spec fn capped_usize(a: usize, b: usize) -> usize {
    if a + b > usize::MAX {
        usize::MAX
    } else {
        (a + b) as usize
    }
}

/// A summary as plain values.
pub struct SummaryModel {
    /// Bytes moved by the tasks that completed.
    pub bytes_moved: u64,
    /// Number of tasks that completed.
    pub completed: usize,
    /// Sources of the tasks that failed, in the order in which they were
    /// recorded.
    pub failed: Seq<Seq<char>>,
}

impl SummaryModel {
    /// The summary of no task.
    pub open spec fn empty() -> SummaryModel {
        SummaryModel { bytes_moved: 0, completed: 0, failed: Seq::empty() }
    }

    /// The summary with one more task recorded.
    pub open spec fn recorded(self, source: Seq<char>, outcome: TaskOutcome) -> SummaryModel {
        match outcome {
            TaskOutcome::Completed(moved) => SummaryModel {
                bytes_moved: capped_u64(self.bytes_moved, moved),
                completed: capped_usize(self.completed, 1),
                ..self
            },
            TaskOutcome::Failed(_) => SummaryModel { failed: self.failed.push(source), ..self },
        }
    }

    /// The summary of two sets of tasks together.
    pub open spec fn merged(self, other: SummaryModel) -> SummaryModel {
        SummaryModel {
            bytes_moved: capped_u64(self.bytes_moved, other.bytes_moved),
            completed: capped_usize(self.completed, other.completed),
            failed: self.failed + other.failed,
        }
    }
}

/// How a run ended once every task has been taken.
#[derive(Clone, Copy, Debug, PartialEq, Eq, Structural)]
pub enum Verdict {
    /// Every task completed.
    Succeeded,
    /// Every task was taken, and some of them failed.
    CompletedWithFailures,
}

impl SummaryModel {
    /// How the run ended, as far as the tasks say.
    pub open spec fn verdict(self) -> Verdict {
        if self.failed.len() > 0 {
            Verdict::CompletedWithFailures
        } else {
            Verdict::Succeeded
        }
    }
}

/// The views of a sequence of strings.
pub open spec fn text_views(texts: Seq<String>) -> Seq<Seq<char>> {
    texts.map_values(|text: String| text@)
}

/// What became of the tasks of a cycle.
#[derive(Debug)]
pub struct TransferSummary {
    pub bytes_moved: u64,
    pub completed: usize,
    /// Sources of the tasks that failed.
    pub failed: Vec<String>,
}

impl View for TransferSummary {
    type V = SummaryModel;

    open spec fn view(&self) -> SummaryModel {
        SummaryModel {
            bytes_moved: self.bytes_moved,
            completed: self.completed,
            failed: text_views(self.failed@),
        }
    }
}

impl TransferSummary {
    /// The summary of no task.
    pub fn new() -> (s: TransferSummary)
        ensures
            s@ == SummaryModel::empty(),
    {
        let s = TransferSummary { bytes_moved: 0, completed: 0, failed: Vec::new() };
        assert(text_views(s.failed@) =~= Seq::<Seq<char>>::empty());
        s
    }

    /// Records how the task for `item` ended.
    pub fn record(&mut self, item: &TransferItem, outcome: TaskOutcome)
        ensures
            final(self)@ == old(self)@.recorded(item@.source, outcome),
    {
        match outcome {
            TaskOutcome::Completed(moved) => {
                self.bytes_moved = self.bytes_moved.saturating_add(moved);
                self.completed = self.completed.saturating_add(1);
            },
            TaskOutcome::Failed(_) => {
                let ghost before = text_views(self.failed@);
                self.failed.push(item.source_locator.clone());
                assert(text_views(self.failed@) =~= before.push(item@.source));
            },
        }
    }

    /// Records that whatever `source` names could not be moved at all.
    pub fn note_failure(&mut self, source: &str)
        ensures
            final(self)@ == (SummaryModel {
                failed: old(self)@.failed.push(source@),
                ..old(self)@
            }),
    {
        let ghost before = text_views(self.failed@);
        self.failed.push(source.to_owned());
        assert(text_views(self.failed@) =~= before.push(source@));
    }

    /// Takes over what another worker recorded.
    pub fn merge(&mut self, other: TransferSummary)
        ensures
            final(self)@ == old(self)@.merged(other@),
    {
        let ghost mine = text_views(self.failed@);
        let ghost theirs = text_views(other.failed@);
        let mut other = other;
        self.bytes_moved = self.bytes_moved.saturating_add(other.bytes_moved);
        self.completed = self.completed.saturating_add(other.completed);
        self.failed.append(&mut other.failed);
        assert(text_views(self.failed@) =~= mine + theirs);
    }

    /// Whether any task failed.
    pub fn any_failed(&self) -> (r: bool)
        ensures
            r == (self@.failed.len() > 0),
    {
        self.failed.len() > 0
    }

    /// How the run ended, as far as the tasks say: a run with failed tasks
    /// is completed with failures, not failed.
    pub fn verdict(&self) -> (v: Verdict)
        ensures
            v == self@.verdict(),
            v == Verdict::Succeeded <==> self@.failed.len() == 0,
    {
        if self.failed.len() > 0 {
            Verdict::CompletedWithFailures
        } else {
            Verdict::Succeeded
        }
    }

    /// Number of tasks recorded as failed.
    pub fn failed_count(&self) -> (n: usize)
        ensures
            n == self@.failed.len(),
    {
        self.failed.len()
    }
}

/// How a cycle ended, once its workers were joined: a worker that could not
/// be joined fails the cycle, whatever the tasks did; failed tasks do not.
pub fn conclude(summary: TransferSummary, spawned: usize, joined: usize) -> (r: Result<
    TransferSummary,
    PoolError,
>)
    ensures
        joined >= spawned ==> r is Ok && r->Ok_0@ == summary@,
        joined < spawned ==> r == Err::<TransferSummary, PoolError>(PoolError::WorkerLost),
{
    if joined < spawned {
        Err(PoolError::WorkerLost)
    } else {
        Ok(summary)
    }
}

/// The summary of a cycle in which the task for `items[i]` ended as
/// `outcomes[i]`.
pub open spec fn summary_of(items: Seq<ItemModel>, outcomes: Seq<TaskOutcome>) -> SummaryModel
    decreases items.len(),
{
    if items.len() == 0 || outcomes.len() != items.len() {
        SummaryModel::empty()
    } else {
        summary_of(items.drop_last(), outcomes.drop_last()).recorded(
            items.last().source,
            outcomes.last(),
        )
    }
}

/// Number of outcomes that are failures.
pub open spec fn failures(outcomes: Seq<TaskOutcome>) -> nat
    decreases outcomes.len(),
{
    if outcomes.len() == 0 {
        0
    } else {
        failures(outcomes.drop_last()) + if outcomes.last() is Failed {
            1nat
        } else {
            0nat
        }
    }
}

/// The effective sizes of the items, in order.
pub open spec fn effective_sizes(items: Seq<ItemModel>) -> Seq<u64> {
    items.map_values(|item: ItemModel| item.effective_size)
}

/// Every task of a cycle is accounted for, whatever the others did: the
/// tasks that completed and the tasks that failed add up to the tasks
/// handed out, and each failure is recorded exactly once.
pub proof fn law_every_task_is_accounted_for(items: Seq<ItemModel>, outcomes: Seq<TaskOutcome>)
    requires
        outcomes.len() == items.len(),
        items.len() <= usize::MAX,
    ensures
        summary_of(items, outcomes).failed.len() == failures(outcomes),
        summary_of(items, outcomes).completed + summary_of(items, outcomes).failed.len()
            == items.len(),
    decreases items.len(),
{
    if items.len() > 0 {
        law_every_task_is_accounted_for(items.drop_last(), outcomes.drop_last());
    }
}

/// One failing task leaves the others untouched: where only the task at
/// `k` fails, the summary names that task alone as failed and counts every
/// other task as completed.
pub proof fn law_failure_is_isolated(items: Seq<ItemModel>, outcomes: Seq<TaskOutcome>, k: int)
    requires
        outcomes.len() == items.len(),
        items.len() <= usize::MAX,
        0 <= k < items.len(),
        outcomes[k] is Failed,
        forall|i: int| 0 <= i < outcomes.len() && i != k ==> outcomes[i] is Completed,
    ensures
        summary_of(items, outcomes).failed == seq![items[k].source],
        summary_of(items, outcomes).completed == items.len() - 1,
    decreases items.len(),
{
    let n = items.len() - 1;
    if k == n {
        lemma_all_completed(items.drop_last(), outcomes.drop_last());
        assert(summary_of(items, outcomes).failed =~= seq![items[k].source]);
    } else {
        law_failure_is_isolated(items.drop_last(), outcomes.drop_last(), k);
    }
}

proof fn lemma_all_completed(items: Seq<ItemModel>, outcomes: Seq<TaskOutcome>)
    requires
        outcomes.len() == items.len(),
        items.len() <= usize::MAX,
        forall|i: int| 0 <= i < outcomes.len() ==> outcomes[i] is Completed,
    ensures
        summary_of(items, outcomes).failed == Seq::<Seq<char>>::empty(),
        summary_of(items, outcomes).completed == items.len(),
    decreases items.len(),
{
    if items.len() > 0 {
        lemma_all_completed(items.drop_last(), outcomes.drop_last());
    }
}

/// The sum of the effective sizes is the total of the plan.
pub proof fn lemma_sizes_sum_to_total(items: Seq<ItemModel>)
    ensures
        sum_of(effective_sizes(items)) == total_effective(items),
    decreases items.len(),
{
    if items.len() > 0 {
        lemma_sizes_sum_to_total(items.drop_last());
        assert(effective_sizes(items).drop_last() =~= effective_sizes(items.drop_last()));
    }
}

/// After a run in which every task moved what its item had left, the
/// summary holds the total of the plan and no failure.
pub proof fn law_successful_run_moves_the_total(items: Seq<ItemModel>, outcomes: Seq<TaskOutcome>)
    requires
        outcomes.len() == items.len(),
        items.len() <= usize::MAX,
        total_effective(items) <= u64::MAX,
        forall|i: int|
            0 <= i < items.len() ==> outcomes[i] == TaskOutcome::Completed(
                items[i].effective_size,
            ),
    ensures
        summary_of(items, outcomes).bytes_moved == total_effective(items),
        summary_of(items, outcomes).failed.len() == 0,
        summary_of(items, outcomes).completed == items.len(),
    decreases items.len(),
{
    if items.len() > 0 {
        law_successful_run_moves_the_total(items.drop_last(), outcomes.drop_last());
    }
}

/// After a run in which every task reported what its item had left, the
/// progress counter stands at the total of the plan, in whatever order the
/// reports arrived.
pub proof fn law_counter_reaches_plan_total(items: Seq<ItemModel>, reports: Seq<u64>)
    requires
        total_effective(items) <= u64::MAX,
        reports.to_multiset() == effective_sizes(items).to_multiset(),
    ensures
        counter_after(0, reports) == total_effective(items),
{
    lemma_sizes_sum_to_total(items);
    lemma_sum_of_permutation(reports, effective_sizes(items));
    law_counter_holds_the_sum(reports);
}

/// One task as a worker records it: the source it was to move, and how it
/// ended.
pub struct TaskRecord {
    pub source: Seq<char>,
    pub outcome: TaskOutcome,
}

/// The summary of a worker that recorded `records`, in that order.
pub open spec fn summary_of_records(records: Seq<TaskRecord>) -> SummaryModel
    decreases records.len(),
{
    if records.len() == 0 {
        SummaryModel::empty()
    } else {
        summary_of_records(records.drop_last()).recorded(
            records.last().source,
            records.last().outcome,
        )
    }
}

/// The records of a cycle in which the task for `items[i]` ended as
/// `outcomes[i]`.
pub open spec fn records_of(items: Seq<ItemModel>, outcomes: Seq<TaskOutcome>) -> Seq<TaskRecord> {
    Seq::new(items.len(), |i: int| TaskRecord { source: items[i].source, outcome: outcomes[i] })
}

/// Bytes moved by the tasks that completed.
pub open spec fn moved_bytes(records: Seq<TaskRecord>) -> nat
    decreases records.len(),
{
    if records.len() == 0 {
        0
    } else {
        moved_bytes(records.drop_last()) + match records.last().outcome {
            TaskOutcome::Completed(moved) => moved as nat,
            TaskOutcome::Failed(_) => 0nat,
        }
    }
}

/// Number of tasks that completed.
pub open spec fn completed_count(records: Seq<TaskRecord>) -> nat
    decreases records.len(),
{
    if records.len() == 0 {
        0
    } else {
        completed_count(records.drop_last()) + if records.last().outcome is Completed {
            1nat
        } else {
            0nat
        }
    }
}

/// Sources of the tasks that failed, in the order of the records.
pub open spec fn failed_sources(records: Seq<TaskRecord>) -> Seq<Seq<char>>
    decreases records.len(),
{
    if records.len() == 0 {
        Seq::empty()
    } else if records.last().outcome is Failed {
        failed_sources(records.drop_last()).push(records.last().source)
    } else {
        failed_sources(records.drop_last())
    }
}

/// What one record adds to the failed sources.
pub open spec fn failed_part(record: TaskRecord) -> Multiset<Seq<char>> {
    if record.outcome is Failed {
        Multiset::singleton(record.source)
    } else {
        Multiset::empty()
    }
}

/// The summary of one worker, merged from its parts: the bytes and the count
/// as far as they can be counted, and the failed sources.
pub open spec fn summary_from(moved: nat, completed: nat, failed: Seq<Seq<char>>) -> SummaryModel {
    SummaryModel {
        bytes_moved: if moved > u64::MAX {
            u64::MAX
        } else {
            moved as u64
        },
        completed: if completed > usize::MAX {
            usize::MAX
        } else {
            completed as usize
        },
        failed,
    }
}

/// A summary holds the bytes moved, the tasks completed and the sources
/// failed of its records.
pub proof fn lemma_summary_of_records(records: Seq<TaskRecord>)
    ensures
        summary_of_records(records) == summary_from(
            moved_bytes(records),
            completed_count(records),
            failed_sources(records),
        ),
    decreases records.len(),
{
    if records.len() > 0 {
        lemma_summary_of_records(records.drop_last());
    }
}

/// The summary over items and outcomes is the summary of their records.
pub proof fn lemma_summary_of_is_of_records(items: Seq<ItemModel>, outcomes: Seq<TaskOutcome>)
    requires
        outcomes.len() == items.len(),
    ensures
        summary_of(items, outcomes) == summary_of_records(records_of(items, outcomes)),
    decreases items.len(),
{
    if items.len() > 0 {
        lemma_summary_of_is_of_records(items.drop_last(), outcomes.drop_last());
        assert(records_of(items, outcomes).drop_last() =~= records_of(
            items.drop_last(),
            outcomes.drop_last(),
        ));
    }
}

/// What two workers recorded one after the other adds up.
pub proof fn lemma_measures_concat(a: Seq<TaskRecord>, b: Seq<TaskRecord>)
    ensures
        moved_bytes(a + b) == moved_bytes(a) + moved_bytes(b),
        completed_count(a + b) == completed_count(a) + completed_count(b),
        failed_sources(a + b) == failed_sources(a) + failed_sources(b),
    decreases b.len(),
{
    if b.len() == 0 {
        assert(a + b =~= a);
        assert(failed_sources(a) + failed_sources(b) =~= failed_sources(a));
    } else {
        lemma_measures_concat(a, b.drop_last());
        assert((a + b).drop_last() =~= a + b.drop_last());
        assert((a + b).last() == b.last());
        if b.last().outcome is Failed {
            assert(failed_sources(a + b) =~= failed_sources(a) + failed_sources(b));
        }
    }
}

/// Merging the summaries of two workers gives the summary of one worker that
/// took the tasks of both, the first worker's before the second's.
pub proof fn law_merge_joins_the_records(a: Seq<TaskRecord>, b: Seq<TaskRecord>)
    ensures
        summary_of_records(a).merged(summary_of_records(b)) == summary_of_records(a + b),
{
    lemma_summary_of_records(a);
    lemma_summary_of_records(b);
    lemma_summary_of_records(a + b);
    lemma_measures_concat(a, b);
}

/// Leaving one record out takes away exactly what it added.
pub proof fn lemma_measures_remove(records: Seq<TaskRecord>, j: int)
    requires
        0 <= j < records.len(),
    ensures
        moved_bytes(records) == moved_bytes(records.remove(j)) + moved_bytes(seq![records[j]]),
        completed_count(records) == completed_count(records.remove(j)) + completed_count(
            seq![records[j]],
        ),
        failed_sources(records).to_multiset() == failed_sources(records.remove(j)).to_multiset().add(
            failed_part(records[j]),
        ),
    decreases records.len(),
{
    broadcast use vstd::seq_lib::group_to_multiset_ensures;

    let one = seq![records[j]];
    assert(one.drop_last() =~= Seq::<TaskRecord>::empty());
    assert(moved_bytes(one.drop_last()) == 0);
    assert(completed_count(one.drop_last()) == 0);
    if j == records.len() - 1 {
        assert(records.remove(j) =~= records.drop_last());
        let rest = failed_sources(records.drop_last());
        if records[j].outcome is Failed {
            assert(rest.push(records[j].source).to_multiset() =~= rest.to_multiset().insert(
                records[j].source,
            ));
            assert(rest.to_multiset().insert(records[j].source) =~= rest.to_multiset().add(
                failed_part(records[j]),
            ));
        } else {
            assert(rest.to_multiset().add(failed_part(records[j])) =~= rest.to_multiset());
        }
    } else {
        lemma_measures_remove(records.drop_last(), j);
        assert(records.remove(j).drop_last() =~= records.drop_last().remove(j));
        assert(records.remove(j).last() == records.last());
        assert(records.drop_last()[j] == records[j]);
        let before = failed_sources(records.drop_last());
        let cut = failed_sources(records.drop_last().remove(j));
        if records.last().outcome is Failed {
            let x = records.last().source;
            assert(before.push(x).to_multiset() =~= before.to_multiset().insert(x));
            assert(cut.push(x).to_multiset() =~= cut.to_multiset().insert(x));
            assert(cut.to_multiset().add(failed_part(records[j])).insert(x) =~= cut.to_multiset().insert(
                x,
            ).add(failed_part(records[j])));
        }
    }
}

/// Workers that took the same tasks in another order moved the same bytes,
/// completed as many tasks and saw the same sources fail.
pub proof fn lemma_measures_permutation(a: Seq<TaskRecord>, b: Seq<TaskRecord>)
    requires
        a.to_multiset() == b.to_multiset(),
    ensures
        moved_bytes(a) == moved_bytes(b),
        completed_count(a) == completed_count(b),
        failed_sources(a).to_multiset() == failed_sources(b).to_multiset(),
    decreases a.len(),
{
    broadcast use vstd::seq_lib::group_to_multiset_ensures;

    assert(a.len() == b.len()) by {
        assert(a.len() == a.to_multiset().len());
        assert(b.len() == b.to_multiset().len());
    }
    if a.len() > 0 {
        let x = a.last();
        let last = a.len() - 1;
        assert(a.to_multiset().count(x) > 0) by {
            assert(a.contains(x));
        }
        assert(b.contains(x));
        let j = choose|j: int| 0 <= j < b.len() && b[j] == x;
        assert(a.remove(last).to_multiset() =~= b.remove(j).to_multiset());
        lemma_measures_permutation(a.remove(last), b.remove(j));
        lemma_measures_remove(a, last);
        lemma_measures_remove(b, j);
    } else {
        assert(a =~= b);
    }
}

/// The summary does not depend on the order in which the tasks were taken:
/// the bytes moved and the tasks completed are the same, and so are the
/// failed sources, up to their order.
pub proof fn law_order_of_tasks_is_irrelevant(a: Seq<TaskRecord>, b: Seq<TaskRecord>)
    requires
        a.to_multiset() == b.to_multiset(),
    ensures
        summary_of_records(a).bytes_moved == summary_of_records(b).bytes_moved,
        summary_of_records(a).completed == summary_of_records(b).completed,
        summary_of_records(a).failed.to_multiset() == summary_of_records(b).failed.to_multiset(),
{
    lemma_summary_of_records(a);
    lemma_summary_of_records(b);
    lemma_measures_permutation(a, b);
}

/// The records of all workers, one worker after the other.
pub open spec fn all_records(workers: Seq<Seq<TaskRecord>>) -> Seq<TaskRecord>
    decreases workers.len(),
{
    if workers.len() == 0 {
        Seq::empty()
    } else {
        all_records(workers.drop_last()) + workers.last()
    }
}

/// The summaries of all workers, merged one after the other.
pub open spec fn merged_summaries(workers: Seq<Seq<TaskRecord>>) -> SummaryModel
    decreases workers.len(),
{
    if workers.len() == 0 {
        SummaryModel::empty()
    } else {
        merged_summaries(workers.drop_last()).merged(summary_of_records(workers.last()))
    }
}

/// Merging one summary per worker gives the summary of all their records.
pub proof fn lemma_merged_summaries(workers: Seq<Seq<TaskRecord>>)
    ensures
        merged_summaries(workers) == summary_of_records(all_records(workers)),
    decreases workers.len(),
{
    if workers.len() > 0 {
        lemma_merged_summaries(workers.drop_last());
        law_merge_joins_the_records(all_records(workers.drop_last()), workers.last());
    }
}

/// However the tasks of a cycle are shared out among the workers, the merged
/// summary is that of the cycle: the same bytes moved, as many tasks
/// completed, and the same sources failed, up to their order.
pub proof fn law_workers_agree_with_the_cycle(
    workers: Seq<Seq<TaskRecord>>,
    items: Seq<ItemModel>,
    outcomes: Seq<TaskOutcome>,
)
    requires
        outcomes.len() == items.len(),
        all_records(workers).to_multiset() == records_of(items, outcomes).to_multiset(),
    ensures
        merged_summaries(workers).bytes_moved == summary_of(items, outcomes).bytes_moved,
        merged_summaries(workers).completed == summary_of(items, outcomes).completed,
        merged_summaries(workers).failed.to_multiset() == summary_of(
            items,
            outcomes,
        ).failed.to_multiset(),
        merged_summaries(workers).verdict() == summary_of(items, outcomes).verdict(),
{
    broadcast use vstd::seq_lib::group_to_multiset_ensures;

    lemma_merged_summaries(workers);
    lemma_summary_of_is_of_records(items, outcomes);
    law_order_of_tasks_is_irrelevant(all_records(workers), records_of(items, outcomes));
    let mine = merged_summaries(workers).failed;
    let whole = summary_of(items, outcomes).failed;
    assert(mine.len() == mine.to_multiset().len());
    assert(whole.len() == whole.to_multiset().len());
}

} // verus!
