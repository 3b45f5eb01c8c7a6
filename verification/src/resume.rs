//! The resume ledger: which byte ranges of a file have arrived.
//!
//! The ledger is a companion record of one transfer. It maps chunk ids to
//! byte ranges and keeps the number of bytes that the completed chunks
//! cover. Reading and writing the record is left to its owner.

use std::collections::HashMap;
use vstd::prelude::*;
use vstd::std_specs::iter::IteratorSpec;
use vstd::string::*;

use crate::paths::{extension_start_at, file_name_bounds, file_name_bounds_of, has_extension, stem_end};
use crate::text::chars_of;

verus! {

broadcast use vstd::std_specs::hash::group_hash_axioms;

/// One byte range of the file, both ends included.
#[derive(Debug)]
pub struct ChunkInfo {
    pub start: u64,
    pub end: u64,
    pub completed: bool,
    pub checksum: Option<String>,
}

/// A chunk as plain values.
pub struct ChunkModel {
    pub start: u64,
    pub end: u64,
    pub completed: bool,
    pub checksum: Option<Seq<char>>,
}

impl View for ChunkInfo {
    type V = ChunkModel;

    open spec fn view(&self) -> ChunkModel {
        ChunkModel {
            start: self.start,
            end: self.end,
            completed: self.completed,
            checksum: match self.checksum {
                Some(sum) => Some(sum@),
                None => None,
            },
        }
    }
}

impl ChunkModel {
    /// Number of bytes in the range; a range that ends before it starts
    /// holds none.
    pub open spec fn span(self) -> nat {
        if self.end >= self.start {
            (self.end - self.start + 1) as nat
        } else {
            0
        }
    }

    /// Bytes that the chunk adds to the transferred size.
    pub open spec fn counted(self) -> nat {
        if self.completed {
            self.span()
        } else {
            0
        }
    }
}

/// The ledger of one transfer.
#[derive(Debug)]
pub struct ResumeInfo {
    pub file_path: String,
    pub total_size: u64,
    pub transferred_size: u64,
    pub chunks: HashMap<usize, ChunkInfo>,
}

/// A ledger as plain values.
pub struct LedgerModel {
    pub file_path: Seq<char>,
    pub total_size: u64,
    pub transferred_size: u64,
    pub chunks: Map<usize, ChunkModel>,
}

impl View for ResumeInfo {
    type V = LedgerModel;

    open spec fn view(&self) -> LedgerModel {
        LedgerModel {
            file_path: self.file_path@,
            total_size: self.total_size,
            transferred_size: self.transferred_size,
            chunks: self.chunks@.map_values(|chunk: ChunkInfo| chunk@),
        }
    }
}

/// Bytes covered by the completed chunks of `chunks`.
pub open spec fn completed_bytes(chunks: Map<usize, ChunkModel>) -> nat
    decreases chunks.dom().len(),
    when chunks.dom().finite()
{
    if chunks.dom().len() == 0 {
        0
    } else {
        let id = chunks.dom().choose();
        chunks[id].counted() + completed_bytes(chunks.remove(id))
    }
}

impl LedgerModel {
    /// The transferred size is what the completed chunks cover.
    pub open spec fn wf(self) -> bool {
        &&& self.chunks.dom().finite()
        &&& self.transferred_size == completed_bytes(self.chunks)
    }
}

/// The path of the ledger that belongs to a file: the path up to the stem of
/// its final name, then the extension of the name, or `tmp` where it has
/// none, then `resume`, with a `.` before each. A path without a final name
/// is kept as it is.
pub open spec fn resume_path_spec(path: Seq<char>) -> Seq<char> {
    match file_name_bounds(path) {
        Some((b, e)) => {
            let stem = path.subrange(0, stem_end(path, b, e));
            if has_extension(path, b, e) {
                stem + seq!['.'] + path.subrange(stem_end(path, b, e) + 1, e) + ".resume"@
            } else {
                stem + seq!['.'] + "tmp"@ + ".resume"@
            }
        },
        None => path,
    }
}

impl ResumeInfo {
    /// An empty ledger for the file at `file_path`.
    pub fn new(file_path: String, total_size: u64) -> (ledger: ResumeInfo)
        ensures
            ledger@.file_path == file_path@,
            ledger@.total_size == total_size,
            ledger@.transferred_size == 0,
            ledger@.chunks == Map::<usize, ChunkModel>::empty(),
            ledger@.wf(),
    {
        let ledger = ResumeInfo {
            file_path,
            total_size,
            transferred_size: 0,
            chunks: HashMap::new(),
        };
        assert(ledger@.chunks =~= Map::<usize, ChunkModel>::empty());
        ledger
    }

    /// Registers the chunk `chunk_id` as the byte range from `start` to
    /// `end`, not yet completed. A chunk that had this id before is
    /// replaced, and the bytes it had counted are taken back.
    pub fn add_chunk(&mut self, chunk_id: usize, start: u64, end: u64)
        ensures
            final(self)@.chunks == old(self)@.chunks.insert(
                chunk_id,
                ChunkModel { start, end, completed: false, checksum: None },
            ),
            final(self)@.transferred_size == if old(self)@.chunks.contains_key(chunk_id) {
                let replaced = old(self)@.chunks[chunk_id].counted();
                if replaced <= old(self)@.transferred_size {
                    (old(self)@.transferred_size - replaced) as u64
                } else {
                    0
                }
            } else {
                old(self)@.transferred_size
            },
            final(self)@.file_path == old(self)@.file_path,
            final(self)@.total_size == old(self)@.total_size,
            old(self)@.wf() ==> final(self)@.wf(),
    {
        let ghost before = self@;
        let chunk = ChunkInfo { start, end, completed: false, checksum: None };
        let ghost model = chunk@;
        let replaced = self.chunks.insert(chunk_id, chunk);
        if let Some(previous) = replaced {
            if previous.completed && previous.end >= previous.start {
                let width = previous.end - previous.start;
                let rest = self.transferred_size.saturating_sub(width);
                self.transferred_size = rest.saturating_sub(1);
            }
        }
        assert(self@.chunks =~= before.chunks.insert(chunk_id, model));
        proof {
            if before.wf() {
                lemma_completed_bytes_insert(before.chunks, chunk_id, model);
                if before.chunks.contains_key(chunk_id) {
                    lemma_completed_bytes_remove(before.chunks, chunk_id);
                } else {
                    assert(before.chunks.remove(chunk_id) =~= before.chunks);
                }
            }
        }
    }

    /// Marks the chunk `chunk_id` as completed and stores its checksum.
    ///
    /// The bytes of the chunk are counted when it is completed for the first
    /// time; marking it again only replaces the checksum. An unknown id
    /// changes nothing. The transferred size must be able to hold the bytes
    /// of the chunk.
    pub fn mark_chunk_completed(&mut self, chunk_id: usize, checksum: Option<String>)
        requires
            old(self)@.chunks.contains_key(chunk_id) && !old(self)@.chunks[chunk_id].completed
                ==> old(self)@.transferred_size + old(self)@.chunks[chunk_id].span() <= u64::MAX,
        ensures
            final(self)@.file_path == old(self)@.file_path,
            final(self)@.total_size == old(self)@.total_size,
            !old(self)@.chunks.contains_key(chunk_id) ==> final(self)@ == old(self)@,
            old(self)@.chunks.contains_key(chunk_id) ==> {
                let chunk = old(self)@.chunks[chunk_id];
                &&& final(self)@.chunks == old(self)@.chunks.insert(
                    chunk_id,
                    ChunkModel {
                        completed: true,
                        checksum: match checksum {
                            Some(sum) => Some(sum@),
                            None => None,
                        },
                        ..chunk
                    },
                )
                &&& final(self)@.transferred_size == if chunk.completed {
                    old(self)@.transferred_size as int
                } else {
                    old(self)@.transferred_size + chunk.span()
                }
            },
            old(self)@.wf() ==> final(self)@.wf(),
    {
        let ghost before = self@;
        match self.chunks.remove(&chunk_id) {
            Some(chunk) => {
                let ghost old_model = chunk@;
                assert(before.chunks[chunk_id] == old_model);
                if !chunk.completed && chunk.end >= chunk.start {
                    self.transferred_size = self.transferred_size + (chunk.end - chunk.start) + 1;
                }
                let marked = ChunkInfo {
                    start: chunk.start,
                    end: chunk.end,
                    completed: true,
                    checksum,
                };
                let ghost new_model = marked@;
                self.chunks.insert(chunk_id, marked);
                assert(self@.chunks =~= before.chunks.insert(chunk_id, new_model));
                proof {
                    if before.wf() {
                        lemma_completed_bytes_insert(before.chunks, chunk_id, new_model);
                        lemma_completed_bytes_remove(before.chunks, chunk_id);
                    }
                }
            },
            None => {
                assert(self@.chunks =~= before.chunks);
            },
        }
    }

    /// The chunks that are not completed, each with its id, in no
    /// particular order.
    pub fn get_incomplete_chunks(&self) -> (r: Vec<(usize, &ChunkInfo)>)
        ensures
            forall|i: int|
                0 <= i < r.len() ==> {
                    &&& self@.chunks.contains_key((#[trigger] r[i]).0)
                    &&& r[i].1@ == self@.chunks[r[i].0]
                    &&& !r[i].1@.completed
                },
            forall|id: usize|
                #[trigger] self@.chunks.contains_key(id) && !self@.chunks[id].completed ==> exists|
                    i: int,
                | 0 <= i < r.len() && (#[trigger] r[i]).0 == id,
            forall|i: int, j: int|
                0 <= i < j < r.len() ==> (#[trigger] r[i]).0 != (#[trigger] r[j]).0,
    {
        let mut out: Vec<(usize, &ChunkInfo)> = Vec::new();
        let ghost mut from: Seq<int> = Seq::empty();
        for pair in it: self.chunks.iter()
            invariant
                it.seq() == IteratorSpec::remaining(
                    &vstd::std_specs::hash::spec_hash_map_iter(&self.chunks),
                ),
                it.seq().no_duplicates(),
                from.len() == out.len(),
                forall|i: int|
                    0 <= i < out.len() ==> {
                        &&& self.chunks@.contains_key((#[trigger] out[i]).0)
                        &&& *out[i].1 == self.chunks@[out[i].0]
                        &&& !out[i].1.completed
                    },
                forall|i: int|
                    0 <= i < out.len() ==> 0 <= (#[trigger] from[i]) < it.index()
                        && *it.seq()[from[i]].0 == out[i].0,
                forall|j: int|
                    #![trigger it.seq()[j]]
                    0 <= j < it.index() && !it.seq()[j].1.completed ==> exists|i: int|
                        0 <= i < out.len() && (#[trigger] out[i]).0 == *it.seq()[j].0,
                forall|i: int, j: int|
                    0 <= i < j < out.len() ==> (#[trigger] out[i]).0 != (#[trigger] out[j]).0,
        {
            let (id, chunk) = pair;
            let ghost at = it.index();
            let ghost seen = out@;
            assert(pair == it.seq()[at]);
            assert(self.chunks@.contains_key(*it.seq()[at].0) && self.chunks@[*it.seq()[at].0]
                == *it.seq()[at].1);
            if !chunk.completed {
                assert forall|i: int| 0 <= i < seen.len() implies (#[trigger] seen[i]).0 != *id by {
                    let j = from[i];
                    if seen[i].0 == *id {
                        assert(self.chunks@[*it.seq()[j].0] == *it.seq()[j].1);
                        assert(it.seq()[j] == it.seq()[at]);
                    }
                }
                out.push((*id, chunk));
                proof {
                    from = from.push(at);
                }
                assert(out[seen.len() as int].0 == *it.seq()[at].0);
                assert forall|j: int|
                    #![trigger it.seq()[j]]
                    0 <= j < at + 1 && !it.seq()[j].1.completed implies exists|i: int|
                    0 <= i < out.len() && (#[trigger] out[i]).0 == *it.seq()[j].0 by {
                    if j < at {
                        let i = choose|i: int|
                            0 <= i < seen.len() && (#[trigger] seen[i]).0 == *it.seq()[j].0;
                        assert(out[i] == seen[i]);
                    } else {
                        assert(out[seen.len() as int].0 == *it.seq()[j].0);
                    }
                }
            }
        }
        proof {
            let all = IteratorSpec::remaining(
                &vstd::std_specs::hash::spec_hash_map_iter(&self.chunks),
            );
            assert forall|id: usize|
                #[trigger] self@.chunks.contains_key(id)
                    && !self@.chunks[id].completed implies exists|i: int|
                0 <= i < out.len() && (#[trigger] out[i]).0 == id by {
                assert(self.chunks@.contains_key(id));
                assert(all.contains((&id, &self.chunks@[id])));
                let j = choose|j: int| 0 <= j < all.len() && all[j] == (&id, &self.chunks@[id]);
                assert(!all[j].1.completed);
            }
        }
        out
    }

    /// The chunk registered under `chunk_id`, if there is one.
    pub fn chunk(&self, chunk_id: usize) -> (r: Option<&ChunkInfo>)
        ensures
            match r {
                Some(chunk) => self@.chunks.contains_key(chunk_id) && chunk@
                    == self@.chunks[chunk_id],
                None => !self@.chunks.contains_key(chunk_id),
            },
    {
        self.chunks.get(&chunk_id)
    }

    /// Number of chunks in the ledger.
    pub fn chunk_count(&self) -> (n: usize)
        ensures
            n == self@.chunks.dom().len(),
    {
        assert(self@.chunks.dom() =~= self.chunks@.dom());
        self.chunks.len()
    }

    /// The path of the ledger that belongs to the file at `file_path`.
    pub fn resume_file_path(file_path: &str) -> (r: String)
        ensures
            r@ == resume_path_spec(file_path@),
    {
        let chars = chars_of(file_path);
        match file_name_bounds_of(&chars) {
            None => file_path.to_owned(),
            Some((b, e)) => {
                let k = extension_start_at(&chars, b, e);
                if k - b > 1 {
                    let mut out = file_path.substring_char(0, k - 1).to_owned();
                    proof {
                        reveal_strlit(".");
                    }
                    out.append(".");
                    out.append(file_path.substring_char(k, e));
                    out.append(".resume");
                    assert("."@ =~= seq!['.']);
                    out
                } else {
                    let mut out = file_path.substring_char(0, e).to_owned();
                    proof {
                        reveal_strlit(".");
                    }
                    out.append(".");
                    out.append("tmp");
                    out.append(".resume");
                    assert("."@ =~= seq!['.']);
                    out
                }
            },
        }
    }
}

/// The bytes of one chunk can be counted apart from the rest.
pub proof fn lemma_completed_bytes_remove(chunks: Map<usize, ChunkModel>, id: usize)
    requires
        chunks.dom().finite(),
        chunks.contains_key(id),
    ensures
        completed_bytes(chunks) == chunks[id].counted() + completed_bytes(chunks.remove(id)),
    decreases chunks.dom().len(),
{
    let first = chunks.dom().choose();
    assert(chunks.dom().len() > 0) by {
        if chunks.dom().len() == 0 {
            assert(chunks.dom() =~= Set::<usize>::empty());
        }
    }
    if first != id {
        let rest = chunks.remove(first);
        assert(rest.contains_key(id));
        lemma_completed_bytes_remove(rest, id);
        let other = chunks.remove(id);
        assert(other.contains_key(first));
        lemma_completed_bytes_remove(other, first);
        assert(rest.remove(id) =~= other.remove(first));
    }
}

/// A chunk that is put into the ledger is counted in place of whatever had
/// its id.
pub proof fn lemma_completed_bytes_insert(
    chunks: Map<usize, ChunkModel>,
    id: usize,
    chunk: ChunkModel,
)
    requires
        chunks.dom().finite(),
    ensures
        completed_bytes(chunks.insert(id, chunk)) == chunk.counted() + completed_bytes(
            chunks.remove(id),
        ),
{
    let after = chunks.insert(id, chunk);
    lemma_completed_bytes_remove(after, id);
    assert(after.remove(id) =~= chunks.remove(id));
}

/// In a well-formed ledger the transferred size is the sum over the
/// completed chunks: an empty ledger has transferred nothing, and each
/// chunk contributes its bytes if and only if it is completed.
pub proof fn law_transferred_is_sum_of_completed(ledger: LedgerModel, id: usize)
    requires
        ledger.wf(),
        ledger.chunks.contains_key(id),
    ensures
        ledger.transferred_size == ledger.chunks[id].counted() + completed_bytes(
            ledger.chunks.remove(id),
        ),
        ledger.chunks[id].completed ==> ledger.transferred_size >= ledger.chunks[id].span(),
{
    lemma_completed_bytes_remove(ledger.chunks, id);
}

} // verus!
