//! The transfer planner: resume policy, transfer items and per-directory plans.
//!
//! The planner never touches a file. Its caller measures both sides (the size
//! of each source entry and of whatever already exists at its destination)
//! and the planner decides from those numbers what has to move.

use vstd::prelude::*;
use vstd::string::*;

use crate::paths::{
    file_name, file_name_spec, join, join_local, join_local_spec, join_spec, parent, parent_spec,
};

verus! {

/// Which way the bytes travel.
#[derive(Clone, Copy, Debug, PartialEq, Eq, Structural)]
pub enum Direction {
    /// From the local machine to the remote store.
    Upload,
    /// From the remote store to the local machine.
    Download,
}

/// What a directory listing says an entry is.
#[derive(Clone, Copy, Debug, PartialEq, Eq, Structural)]
pub enum EntryKind {
    File,
    Directory,
    /// Neither a regular file nor a directory; such entries are passed over.
    Other,
}

/// What the planner decides for one file once both sides have been measured.
#[derive(Clone, Copy, Debug, PartialEq, Eq, Structural)]
pub enum ResumeDecision {
    /// The destination already holds the whole file.
    Skip,
    /// Move the bytes from `offset` to the end of the source. `stale` says
    /// that the destination is longer than the source and must be discarded.
    Transfer { offset: u64, stale: bool },
}

/// The resume policy as a function of the two sizes.
///
/// `dest_size` is `None` when nothing exists at the destination.
pub open spec fn resume_decision_spec(
    total_size: u64,
    dest_size: Option<u64>,
    resume_enabled: bool,
) -> ResumeDecision {
    match dest_size {
        Some(d) if resume_enabled => {
            if d < total_size {
                ResumeDecision::Transfer { offset: d, stale: false }
            } else if d == total_size {
                ResumeDecision::Skip
            } else {
                ResumeDecision::Transfer { offset: 0, stale: true }
            }
        },
        _ => ResumeDecision::Transfer { offset: 0, stale: false },
    }
}

/// Applies the resume policy to one file.
pub fn resume_decision(total_size: u64, dest_size: Option<u64>, resume_enabled: bool) -> (d:
    ResumeDecision)
    ensures
        d == resume_decision_spec(total_size, dest_size, resume_enabled),
        dest_size is None ==> d == (ResumeDecision::Transfer { offset: 0, stale: false }),
        !resume_enabled ==> d == (ResumeDecision::Transfer { offset: 0, stale: false }),
        resume_enabled && dest_size is Some && dest_size->0 < total_size ==> d == (
        ResumeDecision::Transfer { offset: dest_size->0, stale: false }),
        resume_enabled && dest_size == Some(total_size) ==> d == ResumeDecision::Skip,
        resume_enabled && dest_size is Some && dest_size->0 > total_size ==> d == (
        ResumeDecision::Transfer { offset: 0, stale: true }),
{
    match dest_size {
        Some(d) => {
            if !resume_enabled {
                ResumeDecision::Transfer { offset: 0, stale: false }
            } else if d < total_size {
                ResumeDecision::Transfer { offset: d, stale: false }
            } else if d == total_size {
                ResumeDecision::Skip
            } else {
                ResumeDecision::Transfer { offset: 0, stale: true }
            }
        },
        None => ResumeDecision::Transfer { offset: 0, stale: false },
    }
}

/// One file to move.
#[derive(Clone, Debug)]
pub struct TransferItem {
    pub source_locator: String,
    pub destination_locator: String,
    /// Size of the source in bytes.
    pub total_size: u64,
    /// Bytes already present at the destination.
    pub resume_offset: u64,
    /// Bytes this item still has to move.
    pub effective_size: u64,
}

/// A transfer item as plain values.
pub struct ItemModel {
    pub source: Seq<char>,
    pub destination: Seq<char>,
    pub total_size: u64,
    pub resume_offset: u64,
    pub effective_size: u64,
}

impl ItemModel {
    /// The offset lies inside the file and the effective size is what is left.
    pub open spec fn wf(self) -> bool {
        &&& self.resume_offset <= self.total_size
        &&& self.effective_size == self.total_size - self.resume_offset
    }
}

impl View for TransferItem {
    type V = ItemModel;

    open spec fn view(&self) -> ItemModel {
        ItemModel {
            source: self.source_locator@,
            destination: self.destination_locator@,
            total_size: self.total_size,
            resume_offset: self.resume_offset,
            effective_size: self.effective_size,
        }
    }
}

/// The item that the resume policy yields for one file, or `None` where the
/// file is already complete at the destination.
pub open spec fn item_for(
    source: Seq<char>,
    destination: Seq<char>,
    total_size: u64,
    dest_size: Option<u64>,
    resume_enabled: bool,
) -> Option<ItemModel> {
    match resume_decision_spec(total_size, dest_size, resume_enabled) {
        ResumeDecision::Skip => None,
        ResumeDecision::Transfer { offset, stale } => Some(
            ItemModel {
                source,
                destination,
                total_size,
                resume_offset: offset,
                effective_size: (total_size - offset) as u64,
            },
        ),
    }
}

impl TransferItem {
    /// Builds the item for one file from the sizes measured on both sides.
    ///
    /// Returns `None` exactly when resuming is enabled and the destination
    /// already has the size of the source.
    pub fn for_file(
        source: &str,
        destination: &str,
        total_size: u64,
        dest_size: Option<u64>,
        resume_enabled: bool,
    ) -> (r: Option<TransferItem>)
        ensures
            match item_for(source@, destination@, total_size, dest_size, resume_enabled) {
                Some(m) => r is Some && r->0@ == m,
                None => r is None,
            },
            r is None <==> resume_enabled && dest_size == Some(total_size),
            r matches Some(item) ==> {
                &&& item@.wf()
                &&& item@.source == source@
                &&& item@.destination == destination@
                &&& item@.total_size == total_size
                &&& item@.resume_offset == if resume_enabled && dest_size is Some && dest_size->0
                    < total_size {
                    dest_size->0
                } else {
                    0
                }
            },
            dest_size is None ==> r is Some && r->0@.resume_offset == 0 && r->0@.effective_size
                == total_size,
            resume_enabled && dest_size is Some && 0 < dest_size->0 < total_size ==> r is Some
                && r->0@.resume_offset == dest_size->0 && r->0@.effective_size == total_size
                - dest_size->0,
            resume_enabled && dest_size is Some && dest_size->0 > total_size ==> r is Some
                && r->0@.resume_offset == 0 && r->0@.effective_size == total_size,
    {
        match resume_decision(total_size, dest_size, resume_enabled) {
            ResumeDecision::Skip => None,
            ResumeDecision::Transfer { offset, stale } => Some(
                TransferItem {
                    source_locator: source.to_owned(),
                    destination_locator: destination.to_owned(),
                    total_size,
                    resume_offset: offset,
                    effective_size: total_size - offset,
                },
            ),
        }
    }

    /// Whether the destination has to be opened afresh rather than continued.
    pub fn starts_from_scratch(&self) -> (r: bool)
        ensures
            r == (self@.resume_offset == 0),
    {
        self.resume_offset == 0
    }
}

/// Sum of the effective sizes of `items`.
pub open spec fn total_effective(items: Seq<ItemModel>) -> nat
    decreases items.len(),
{
    if items.len() == 0 {
        0
    } else {
        total_effective(items.drop_last()) + items.last().effective_size as nat
    }
}

/// The views of a sequence of items.
pub open spec fn item_views(items: Seq<TransferItem>) -> Seq<ItemModel> {
    items.map_values(|item: TransferItem| item@)
}

/// The unit of work of one pool cycle: the items to move and the bytes they
/// amount to.
#[derive(Debug)]
pub struct TransferPlan {
    pub items: Vec<TransferItem>,
    pub total_effective_bytes: u64,
}

/// A plan as plain values.
pub struct PlanModel {
    pub items: Seq<ItemModel>,
    pub total_effective_bytes: u64,
}

impl View for TransferPlan {
    type V = PlanModel;

    open spec fn view(&self) -> PlanModel {
        PlanModel {
            items: item_views(self.items@),
            total_effective_bytes: self.total_effective_bytes,
        }
    }
}

impl TransferPlan {
    /// The items of the plan as plain values.
    pub open spec fn models(&self) -> Seq<ItemModel> {
        item_views(self.items@)
    }

    /// Every item is well formed and the total is the sum of what the items
    /// still have to move.
    pub open spec fn wf(&self) -> bool {
        &&& forall|i: int| 0 <= i < self.models().len() ==> (#[trigger] self.models()[i]).wf()
        &&& self.total_effective_bytes == total_effective(self.models())
    }

    /// A plan without items.
    pub fn empty() -> (p: TransferPlan)
        ensures
            p.wf(),
            p.models() == Seq::<ItemModel>::empty(),
            p.total_effective_bytes == 0,
            p@ == (PlanModel { items: Seq::empty(), total_effective_bytes: 0 }),
    {
        let p = TransferPlan { items: Vec::new(), total_effective_bytes: 0 };
        assert(p.models() =~= Seq::<ItemModel>::empty());
        p
    }

    /// Number of items that will be handed to the pool.
    pub fn len(&self) -> (n: usize)
        ensures
            n == self.models().len(),
    {
        self.items.len()
    }

    /// Whether the pool has nothing to do.
    pub fn is_empty(&self) -> (r: bool)
        ensures
            r == (self.models().len() == 0),
    {
        self.items.len() == 0
    }
}

/// Why no plan could be made.
#[derive(Clone, Copy, Debug, PartialEq, Eq, Structural)]
pub enum PlanError {
    /// The source does not exist.
    SourceNotFound,
    /// The source is a directory and recursion was not asked for.
    DirectoryNotAllowed,
    /// A path has no final component to name the destination after.
    NameExtractionFailed,
    /// The bytes to move do not fit in 64 bits.
    TotalTooLarge,
}

/// One entry of a source directory, with the sizes measured on both sides.
#[derive(Clone, Debug)]
pub struct SourceEntry {
    /// Path of the entry on the source side.
    pub path: String,
    pub kind: EntryKind,
    /// Size of the source in bytes; only read for files.
    pub size: u64,
    /// Size of what exists at the destination, `None` where nothing does.
    pub dest_size: Option<u64>,
}

/// A source entry as plain values.
pub struct EntryModel {
    pub path: Seq<char>,
    pub kind: EntryKind,
    pub size: u64,
    pub dest_size: Option<u64>,
}

impl View for SourceEntry {
    type V = EntryModel;

    open spec fn view(&self) -> EntryModel {
        EntryModel { path: self.path@, kind: self.kind, size: self.size, dest_size: self.dest_size }
    }
}

/// The views of a sequence of entries.
pub open spec fn entry_views(entries: Seq<SourceEntry>) -> Seq<EntryModel> {
    entries.map_values(|entry: SourceEntry| entry@)
}

/// A directory to descend into once the files beside it have been moved.
#[derive(Clone, Debug)]
pub struct SubDirectory {
    pub source: String,
    pub destination: String,
}

/// A pending directory as plain values.
pub struct DirModel {
    pub source: Seq<char>,
    pub destination: Seq<char>,
}

impl View for SubDirectory {
    type V = DirModel;

    open spec fn view(&self) -> DirModel {
        DirModel { source: self.source@, destination: self.destination@ }
    }
}

/// The views of a sequence of pending directories.
pub open spec fn dir_views(dirs: Seq<SubDirectory>) -> Seq<DirModel> {
    dirs.map_values(|dir: SubDirectory| dir@)
}

/// Path of the entry called `name` inside the destination directory `dir`.
/// The destination of an upload is remote, that of a download is local.
pub open spec fn child_path(direction: Direction, dir: Seq<char>, name: Seq<char>) -> Seq<char> {
    match direction {
        Direction::Upload => join_spec(dir, name),
        Direction::Download => join_local_spec(dir, name),
    }
}

/// Path of the entry called `name` inside the destination directory `dir`.
pub fn destination_child(direction: Direction, dir: &str, name: &str) -> (r: String)
    ensures
        r@ == child_path(direction, dir@, name@),
{
    match direction {
        Direction::Upload => join(dir, name),
        Direction::Download => join_local(dir, name),
    }
}

/// Whether every entry has a final name.
pub open spec fn all_named(entries: Seq<EntryModel>) -> bool {
    forall|i: int| 0 <= i < entries.len() ==> file_name_spec(#[trigger] entries[i].path) is Some
}

/// The item planned for one entry: none for what is no file, and none for a
/// file that is already complete.
pub open spec fn entry_item(
    direction: Direction,
    entry: EntryModel,
    dest_dir: Seq<char>,
    resume_enabled: bool,
) -> Option<ItemModel> {
    match file_name_spec(entry.path) {
        Some(name) if entry.kind == EntryKind::File => item_for(
            entry.path,
            child_path(direction, dest_dir, name),
            entry.size,
            entry.dest_size,
            resume_enabled,
        ),
        _ => None,
    }
}

/// The items planned for a listing, in listing order.
pub open spec fn plan_items(
    direction: Direction,
    entries: Seq<EntryModel>,
    dest_dir: Seq<char>,
    resume_enabled: bool,
) -> Seq<ItemModel>
    decreases entries.len(),
{
    if entries.len() == 0 {
        Seq::empty()
    } else {
        let before = plan_items(direction, entries.drop_last(), dest_dir, resume_enabled);
        match entry_item(direction, entries.last(), dest_dir, resume_enabled) {
            Some(item) => before.push(item),
            None => before,
        }
    }
}

/// Whether an entry is a file that needs no transfer.
pub open spec fn entry_skipped(entry: EntryModel, resume_enabled: bool) -> bool {
    &&& entry.kind == EntryKind::File
    &&& file_name_spec(entry.path) is Some
    &&& resume_decision_spec(entry.size, entry.dest_size, resume_enabled) == ResumeDecision::Skip
}

/// Number of files of a listing that need no transfer.
pub open spec fn count_skipped(entries: Seq<EntryModel>, resume_enabled: bool) -> nat
    decreases entries.len(),
{
    if entries.len() == 0 {
        0
    } else {
        count_skipped(entries.drop_last(), resume_enabled) + if entry_skipped(
            entries.last(),
            resume_enabled,
        ) {
            1nat
        } else {
            0nat
        }
    }
}

/// The directory planned for one entry, if it is a directory.
pub open spec fn entry_dir(direction: Direction, entry: EntryModel, dest_dir: Seq<char>) -> Option<
    DirModel,
> {
    match file_name_spec(entry.path) {
        Some(name) if entry.kind == EntryKind::Directory => Some(
            DirModel { source: entry.path, destination: child_path(direction, dest_dir, name) },
        ),
        _ => None,
    }
}

/// The directories of a listing, in listing order, each with its destination.
pub open spec fn plan_dirs(direction: Direction, entries: Seq<EntryModel>, dest_dir: Seq<char>) -> Seq<
    DirModel,
>
    decreases entries.len(),
{
    if entries.len() == 0 {
        Seq::empty()
    } else {
        let before = plan_dirs(direction, entries.drop_last(), dest_dir);
        match entry_dir(direction, entries.last(), dest_dir) {
            Some(dir) => before.push(dir),
            None => before,
        }
    }
}

/// What one directory level amounts to: the files to move now, the
/// directories to visit afterwards, and the files left alone.
#[derive(Debug)]
pub struct DirectoryPlan {
    pub plan: TransferPlan,
    pub subdirs: Vec<SubDirectory>,
    pub skipped: usize,
}

/// Every planned item is well formed.
pub proof fn lemma_plan_items_wf(
    direction: Direction,
    entries: Seq<EntryModel>,
    dest_dir: Seq<char>,
    resume_enabled: bool,
)
    ensures
        forall|i: int|
            0 <= i < plan_items(direction, entries, dest_dir, resume_enabled).len() ==> (
            #[trigger] plan_items(direction, entries, dest_dir, resume_enabled)[i]).wf(),
        plan_items(direction, entries, dest_dir, resume_enabled).len() <= entries.len(),
    decreases entries.len(),
{
    if entries.len() > 0 {
        lemma_plan_items_wf(direction, entries.drop_last(), dest_dir, resume_enabled);
    }
}

/// Plans one directory level.
///
/// `entries` is the listing of the source directory, each entry with the
/// size found at its destination inside `dest_dir`. Files that the resume
/// policy finds complete are counted in `skipped` and get no item; entries
/// that are neither file nor directory are passed over.
///
/// Fails with `NameExtractionFailed` if and only if some entry has no final
/// name, and otherwise with `TotalTooLarge` if and only if the bytes to move
/// exceed `u64::MAX`.
pub fn plan_directory(
    direction: Direction,
    entries: &Vec<SourceEntry>,
    dest_dir: &str,
    resume_enabled: bool,
) -> (r: Result<DirectoryPlan, PlanError>)
    ensures
        match r {
            Ok(level) => {
                &&& all_named(entry_views(entries@))
                &&& level.plan.wf()
                &&& level.plan.models() == plan_items(
                    direction,
                    entry_views(entries@),
                    dest_dir@,
                    resume_enabled,
                )
                &&& level.plan.total_effective_bytes == total_effective(level.plan.models())
                &&& dir_views(level.subdirs@) == plan_dirs(
                    direction,
                    entry_views(entries@),
                    dest_dir@,
                )
                &&& level.skipped == count_skipped(entry_views(entries@), resume_enabled)
            },
            Err(PlanError::NameExtractionFailed) => !all_named(entry_views(entries@)),
            Err(PlanError::TotalTooLarge) => {
                &&& all_named(entry_views(entries@))
                &&& total_effective(
                    plan_items(direction, entry_views(entries@), dest_dir@, resume_enabled),
                ) > u64::MAX
            },
            Err(_) => false,
        },
{
    let ghost all = entry_views(entries@);
    let mut items: Vec<TransferItem> = Vec::new();
    let mut subdirs: Vec<SubDirectory> = Vec::new();
    let mut total: u64 = 0;
    let mut overflow = false;
    let mut skipped: usize = 0;
    let mut i: usize = 0;
    assert(all.take(0) =~= Seq::<EntryModel>::empty());
    assert(item_views(items@) =~= Seq::<ItemModel>::empty());
    assert(dir_views(subdirs@) =~= Seq::<DirModel>::empty());
    while i < entries.len()
        invariant
            i <= entries.len(),
            all == entry_views(entries@),
            all_named(all.take(i as int)),
            item_views(items@) == plan_items(direction, all.take(i as int), dest_dir@, resume_enabled),
            dir_views(subdirs@) == plan_dirs(direction, all.take(i as int), dest_dir@),
            skipped == count_skipped(all.take(i as int), resume_enabled),
            skipped <= i,
            !overflow ==> total == total_effective(item_views(items@)),
            overflow ==> total_effective(item_views(items@)) > u64::MAX,
        decreases entries.len() - i,
    {
        let entry = &entries[i];
        let ghost before = all.take(i as int);
        let ghost upto = all.take(i + 1);
        assert(upto.drop_last() =~= before);
        assert(upto.last() == entry@);
        let name = match file_name(entry.path.as_str()) {
            Some(name) => name,
            None => {
                assert(file_name_spec(all[i as int].path) is None);
                return Err(PlanError::NameExtractionFailed);
            },
        };
        assert(all_named(upto)) by {
            assert forall|k: int| 0 <= k < upto.len() implies file_name_spec(
                #[trigger] upto[k].path,
            ) is Some by {
                if k < i {
                    assert(upto[k] == before[k]);
                }
            }
        }
        match entry.kind {
            EntryKind::File => {
                let destination = destination_child(direction, dest_dir, name.as_str());
                match TransferItem::for_file(
                    entry.path.as_str(),
                    destination.as_str(),
                    entry.size,
                    entry.dest_size,
                    resume_enabled,
                ) {
                    Some(item) => {
                        let ghost old_items = item_views(items@);
                        if !overflow {
                            match total.checked_add(item.effective_size) {
                                Some(sum) => {
                                    total = sum;
                                },
                                None => {
                                    overflow = true;
                                },
                            }
                        }
                        items.push(item);
                        assert(item_views(items@) =~= old_items.push(item@));
                        assert(item_views(items@).drop_last() =~= old_items);
                    },
                    None => {
                        skipped = skipped + 1;
                    },
                }
            },
            EntryKind::Directory => {
                let destination = destination_child(direction, dest_dir, name.as_str());
                let ghost old_dirs = dir_views(subdirs@);
                let dir = SubDirectory { source: entry.path.clone(), destination };
                subdirs.push(dir);
                assert(dir_views(subdirs@) =~= old_dirs.push(dir@));
            },
            EntryKind::Other => {},
        }
        i = i + 1;
    }
    assert(all.take(entries.len() as int) =~= all);
    if overflow {
        return Err(PlanError::TotalTooLarge);
    }
    proof {
        lemma_plan_items_wf(direction, all, dest_dir@, resume_enabled);
    }
    Ok(DirectoryPlan { plan: TransferPlan { items, total_effective_bytes: total }, subdirs, skipped })
}

/// What a stat of one path reports.
#[derive(Clone, Copy, Debug, PartialEq, Eq, Structural)]
pub struct EntryStat {
    pub size: u64,
    pub is_directory: bool,
}

/// What a top-level request turns out to be.
#[derive(Debug)]
pub enum RootTarget {
    /// A single file, to be written to `target`.
    File { source: String, target: String, size: u64 },
    /// A directory tree, to be rebuilt under `destination`.
    Directory(SubDirectory),
}

/// A top-level target as plain values.
pub enum RootModel {
    File { source: Seq<char>, target: Seq<char>, size: u64 },
    Directory { source: Seq<char>, destination: Seq<char> },
}

impl View for RootTarget {
    type V = RootModel;

    open spec fn view(&self) -> RootModel {
        match self {
            RootTarget::File { source, target, size } => RootModel::File {
                source: source@,
                target: target@,
                size: *size,
            },
            RootTarget::Directory(dir) => RootModel::Directory {
                source: dir.source@,
                destination: dir.destination@,
            },
        }
    }
}

/// How a top-level request resolves, given the stat of the source and of the
/// destination (`None` where the path does not exist).
///
/// A directory is only accepted with `recursive`, and lands under the
/// destination in a directory of its own name. A file lands inside the
/// destination where that is an existing directory, and at the destination
/// path itself otherwise.
pub open spec fn root_target_spec(
    direction: Direction,
    source: Seq<char>,
    source_stat: Option<EntryStat>,
    destination: Seq<char>,
    dest_stat: Option<EntryStat>,
    recursive: bool,
) -> Result<RootModel, PlanError> {
    match source_stat {
        None => Err(PlanError::SourceNotFound),
        Some(stat) => {
            if stat.is_directory {
                if !recursive {
                    Err(PlanError::DirectoryNotAllowed)
                } else {
                    match file_name_spec(source) {
                        None => Err(PlanError::NameExtractionFailed),
                        Some(name) => Ok(
                            RootModel::Directory {
                                source,
                                destination: child_path(direction, destination, name),
                            },
                        ),
                    }
                }
            } else if dest_stat is Some && dest_stat->0.is_directory {
                match file_name_spec(source) {
                    None => Err(PlanError::NameExtractionFailed),
                    Some(name) => Ok(
                        RootModel::File {
                            source,
                            target: child_path(direction, destination, name),
                            size: stat.size,
                        },
                    ),
                }
            } else {
                Ok(RootModel::File { source, target: destination, size: stat.size })
            }
        },
    }
}

/// Resolves a top-level request into the file or directory tree to move.
pub fn root_target(
    direction: Direction,
    source: &str,
    source_stat: Option<EntryStat>,
    destination: &str,
    dest_stat: Option<EntryStat>,
    recursive: bool,
) -> (r: Result<RootTarget, PlanError>)
    ensures
        match root_target_spec(direction, source@, source_stat, destination@, dest_stat, recursive) {
            Ok(model) => r is Ok && r->Ok_0@ == model,
            Err(e) => r == Err::<RootTarget, PlanError>(e),
        },
        source_stat is None <==> r == Err::<RootTarget, PlanError>(PlanError::SourceNotFound),
        r == Err::<RootTarget, PlanError>(PlanError::DirectoryNotAllowed) <==> source_stat is Some
            && source_stat->0.is_directory && !recursive,
        !(r == Err::<RootTarget, PlanError>(PlanError::TotalTooLarge)),
{
    let stat = match source_stat {
        None => {
            return Err(PlanError::SourceNotFound);
        },
        Some(stat) => stat,
    };
    if stat.is_directory {
        if !recursive {
            return Err(PlanError::DirectoryNotAllowed);
        }
        match file_name(source) {
            None => Err(PlanError::NameExtractionFailed),
            Some(name) => Ok(
                RootTarget::Directory(
                    SubDirectory {
                        source: source.to_owned(),
                        destination: destination_child(direction, destination, name.as_str()),
                    },
                ),
            ),
        }
    } else {
        let into_directory = match dest_stat {
            Some(found) => found.is_directory,
            None => false,
        };
        if into_directory {
            match file_name(source) {
                None => Err(PlanError::NameExtractionFailed),
                Some(name) => Ok(
                    RootTarget::File {
                        source: source.to_owned(),
                        target: destination_child(direction, destination, name.as_str()),
                        size: stat.size,
                    },
                ),
            }
        } else {
            Ok(
                RootTarget::File {
                    source: source.to_owned(),
                    target: destination.to_owned(),
                    size: stat.size,
                },
            )
        }
    }
}

/// The directory that must exist before `target` can be written: its parent,
/// unless the path has none or the parent is the empty path.
pub open spec fn parent_to_ensure_spec(target: Seq<char>) -> Option<Seq<char>> {
    match parent_spec(target) {
        Some(dir) if dir.len() > 0 => Some(dir),
        _ => None,
    }
}

/// The directory to create, if missing, before `target` is written.
pub fn parent_to_ensure(target: &str) -> (r: Option<String>)
    ensures
        match parent_to_ensure_spec(target@) {
            Some(dir) => r is Some && r->0@ == dir,
            None => r is None,
        },
{
    match parent(target) {
        Some(dir) => {
            if dir.as_str().unicode_len() > 0 {
                Some(dir)
            } else {
                None
            }
        },
        None => None,
    }
}

/// The plan for a single file: one item, or none where the file is complete.
#[derive(Debug)]
pub struct FilePlan {
    pub plan: TransferPlan,
    /// The destination is longer than the source: it has to be removed
    /// before the transfer starts from offset 0.
    pub stale_destination: bool,
    /// The file is already complete and nothing will be moved.
    pub skipped: bool,
}

/// Plans the transfer of a single file to `target`.
///
/// `target_size` is the size of what exists at `target`, `None` where
/// nothing does.
pub fn plan_file(
    source: &str,
    target: &str,
    size: u64,
    target_size: Option<u64>,
    resume_enabled: bool,
) -> (r: FilePlan)
    ensures
        r.plan.wf(),
        r.plan.models() == match item_for(source@, target@, size, target_size, resume_enabled) {
            Some(item) => seq![item],
            None => Seq::<ItemModel>::empty(),
        },
        r.skipped <==> resume_enabled && target_size == Some(size),
        r.skipped <==> r.plan.models().len() == 0,
        !r.skipped ==> r.plan.total_effective_bytes == r.plan.models()[0].effective_size,
        r.stale_destination <==> resume_enabled && target_size is Some && target_size->0 > size,
{
    let stale = match resume_decision(size, target_size, resume_enabled) {
        ResumeDecision::Transfer { offset, stale } => stale,
        ResumeDecision::Skip => false,
    };
    match TransferItem::for_file(source, target, size, target_size, resume_enabled) {
        Some(item) => {
            let total = item.effective_size;
            let mut items: Vec<TransferItem> = Vec::new();
            items.push(item);
            assert(item_views(items@) =~= seq![item@]);
            assert(seq![item@].drop_last() =~= Seq::<ItemModel>::empty());
            assert(total_effective(seq![item@]) == item@.effective_size) by {
                assert(total_effective(seq![item@].drop_last()) == 0);
            }
            FilePlan {
                plan: TransferPlan { items, total_effective_bytes: total },
                stale_destination: stale,
                skipped: false,
            }
        },
        None => FilePlan { plan: TransferPlan::empty(), stale_destination: stale, skipped: true },
    }
}

/// A file that is already complete adds no item and no bytes to the plan of
/// its directory: the plan is that of the listing without the file.
pub proof fn law_complete_file_is_left_out(
    direction: Direction,
    entries: Seq<EntryModel>,
    k: int,
    dest_dir: Seq<char>,
)
    requires
        0 <= k < entries.len(),
        entries[k].kind == EntryKind::File,
        entries[k].dest_size == Some(entries[k].size),
    ensures
        plan_items(direction, entries, dest_dir, true) == plan_items(
            direction,
            entries.remove(k),
            dest_dir,
            true,
        ),
        total_effective(plan_items(direction, entries, dest_dir, true)) == total_effective(
            plan_items(direction, entries.remove(k), dest_dir, true),
        ),
    decreases entries.len(),
{
    if k == entries.len() - 1 {
        assert(entries.remove(k) =~= entries.drop_last());
        assert(entry_item(direction, entries.last(), dest_dir, true) is None);
    } else {
        law_complete_file_is_left_out(direction, entries.drop_last(), k, dest_dir);
        assert(entries.remove(k).drop_last() =~= entries.drop_last().remove(k));
        assert(entries.remove(k).last() == entries.last());
    }
}

/// The listing as it reads once every file has arrived: each file's
/// destination has the size of its source.
pub open spec fn after_success(entries: Seq<EntryModel>) -> Seq<EntryModel> {
    entries.map_values(
        |entry: EntryModel|
            if entry.kind == EntryKind::File {
                EntryModel { dest_size: Some(entry.size), ..entry }
            } else {
                entry
            },
    )
}

/// Planning the same directory again after a run that moved every file, with
/// resuming enabled and the source unchanged, yields no item and no bytes.
pub proof fn law_second_run_moves_nothing(
    direction: Direction,
    entries: Seq<EntryModel>,
    dest_dir: Seq<char>,
)
    ensures
        plan_items(direction, after_success(entries), dest_dir, true) == Seq::<ItemModel>::empty(),
        total_effective(plan_items(direction, after_success(entries), dest_dir, true)) == 0,
        plan_dirs(direction, after_success(entries), dest_dir) == plan_dirs(
            direction,
            entries,
            dest_dir,
        ),
    decreases entries.len(),
{
    if entries.len() > 0 {
        law_second_run_moves_nothing(direction, entries.drop_last(), dest_dir);
        assert(after_success(entries).drop_last() =~= after_success(entries.drop_last()));
    }
}

/// The bytes of a plan are those of its items: adding an item adds exactly
/// its effective size, and an empty plan has none.
pub proof fn law_total_is_sum_of_items(items: Seq<ItemModel>, item: ItemModel)
    ensures
        total_effective(Seq::<ItemModel>::empty()) == 0,
        total_effective(items.push(item)) == total_effective(items) + item.effective_size,
{
    assert(items.push(item).drop_last() =~= items);
}

} // verus!
