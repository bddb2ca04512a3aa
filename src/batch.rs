//! The batch create path: every item is staged and looked up first; then one
//! metadata transaction inserts the records of the new items, and their
//! bytes are put one after the other before it commits.
use vstd::prelude::*;

use crate::create::{store_error, store_error_of};
use crate::error::{BlobError, RemoteFailure, StoreFailure, ValidationError};
use crate::staging::{StagedUpload, StagedView};

verus! {

/// The most items one upload batch may hold.
pub const MAX_BATCH_ITEMS: usize = 20;

/// A batch of uploaded files holds one to twenty items.
pub fn check_batch_size(n: usize) -> (r: Result<(), BlobError>)
    ensures
        r is Ok <==> 1 <= n <= MAX_BATCH_ITEMS,
        r is Err ==> r == Err::<(), BlobError>(BlobError::Validation(ValidationError::BatchSize)),
{
    if 1 <= n && n <= MAX_BATCH_ITEMS {
        Ok(())
    } else {
        Err(BlobError::Validation(ValidationError::BatchSize))
    }
}

/// A blob record to insert.
#[derive(Debug)]
pub struct NewRecord {
    pub id: String,
    pub file_name: String,
    pub storage_key: String,
}

pub open spec fn new_record_view(r: NewRecord) -> (Seq<char>, Seq<char>, Seq<char>) {
    (r.id@, r.file_name@, r.storage_key@)
}

#[derive(Debug)]
pub enum BatchAction {
    FindRecord(String),
    /// Open a metadata transaction and insert these records.
    InsertRecords(Vec<NewRecord>),
    PutObject { key: String, content_type: String, data: Vec<u8> },
    Commit,
    Rollback,
    /// The ids of all items, in order, or the failure.
    Finish(Result<Vec<String>, BlobError>),
}

pub enum BatchStep {
    Find(Seq<char>),
    Insert(Seq<(Seq<char>, Seq<char>, Seq<char>)>),
    Put(Seq<char>, Seq<char>, Seq<u8>),
    Commit,
    Rollback,
    Finish(Result<Seq<Seq<char>>, BlobError>),
}

impl View for BatchAction {
    type V = BatchStep;

    open spec fn view(&self) -> BatchStep {
        match self {
            BatchAction::FindRecord(id) => BatchStep::Find(id@),
            BatchAction::InsertRecords(rs) => BatchStep::Insert(
                rs@.map_values(|r: NewRecord| new_record_view(r)),
            ),
            BatchAction::PutObject { key, content_type, data } => BatchStep::Put(
                key@,
                content_type@,
                data@,
            ),
            BatchAction::Commit => BatchStep::Commit,
            BatchAction::Rollback => BatchStep::Rollback,
            BatchAction::Finish(r) => BatchStep::Finish(
                match r {
                    Ok(ids) => Ok(ids@.map_values(|s: String| s@)),
                    Err(e) => Err(*e),
                },
            ),
        }
    }
}

#[derive(Clone, Copy, Debug)]
pub enum BatchEvent {
    Found(Result<bool, StoreFailure>),
    Inserted(Result<(), StoreFailure>),
    Put(Result<(), RemoteFailure>),
    Committed(Result<(), StoreFailure>),
    RolledBack,
}

#[derive(Clone, Copy, Debug)]
pub enum BatchPhase {
    AwaitLookup,
    AwaitInsert,
    AwaitPut,
    AwaitCommit,
    AwaitRollback(BlobError),
    /// Rolling back after another upload committed one of the digests
    /// first; the lookups then start over.
    AwaitRestart,
    Done,
}

/// The first item at or after `from` that is to be written.
pub open spec fn next_fresh(fresh: Seq<bool>, from: int) -> int
    decreases fresh.len() - from,
{
    if from < 0 || from >= fresh.len() {
        fresh.len() as int
    } else if fresh[from] {
        from
    } else {
        next_fresh(fresh, from + 1)
    }
}

/// Whether item `i` is to be written: the store does not hold its digest and
/// no earlier item of the batch is written with the same digest.
pub open spec fn is_fresh(items: Seq<StagedView>, fresh: Seq<bool>, i: int, present: bool) -> bool {
    !present && !exists|j: int| 0 <= j < i && j < fresh.len() && fresh[j] && items[j].id == items[i].id
}

/// The records of the items to be written, in order.
pub open spec fn fresh_records(items: Seq<StagedView>, fresh: Seq<bool>, n: int) -> Seq<
    (Seq<char>, Seq<char>, Seq<char>),
>
    decreases n,
{
    if n <= 0 {
        Seq::empty()
    } else {
        let rest = fresh_records(items, fresh, n - 1);
        if fresh[n - 1] {
            rest.push((items[n - 1].id, items[n - 1].file_name, items[n - 1].storage_key))
        } else {
            rest
        }
    }
}

pub open spec fn batch_ids(items: Seq<StagedView>) -> Seq<Seq<char>> {
    items.map_values(|s: StagedView| s.id)
}

pub open spec fn put_step(items: Seq<StagedView>, j: int) -> BatchStep {
    BatchStep::Put(items[j].storage_key, items[j].content_type, items[j].data)
}

/// After the lookups: insert what is new, or finish at once if nothing is.
pub open spec fn batch_after_lookups(items: Seq<StagedView>, fresh: Seq<bool>) -> (
    BatchPhase,
    int,
    BatchStep,
) {
    if next_fresh(fresh, 0) < fresh.len() {
        (
            BatchPhase::AwaitInsert,
            items.len() as int,
            BatchStep::Insert(fresh_records(items, fresh, items.len() as int)),
        )
    } else {
        (BatchPhase::Done, items.len() as int, BatchStep::Finish(Ok(batch_ids(items))))
    }
}

/// After the put of item `j` (or the insert, from `0`): the next put, or commit.
pub open spec fn batch_put_from(items: Seq<StagedView>, fresh: Seq<bool>, from: int) -> (
    BatchPhase,
    int,
    BatchStep,
) {
    let j = next_fresh(fresh, from);
    if j < fresh.len() {
        (BatchPhase::AwaitPut, j, put_step(items, j))
    } else {
        (BatchPhase::AwaitCommit, j, BatchStep::Commit)
    }
}

pub open spec fn batch_unexpected(phase: BatchPhase, i: int) -> (BatchPhase, int, BatchStep) {
    match phase {
        BatchPhase::AwaitLookup => (BatchPhase::Done, i, BatchStep::Finish(Err(BlobError::Internal))),
        BatchPhase::Done => (BatchPhase::Done, i, BatchStep::Finish(Err(BlobError::Internal))),
        BatchPhase::AwaitRollback(e) => (BatchPhase::AwaitRollback(e), i, BatchStep::Rollback),
        BatchPhase::AwaitRestart => (BatchPhase::AwaitRestart, i, BatchStep::Rollback),
        _ => (BatchPhase::AwaitRollback(BlobError::Internal), i, BatchStep::Rollback),
    }
}

/// The batch protocol: the next phase, the marks of the items looked up so
/// far, the current item, and the next action.
pub open spec fn batch_next(
    phase: BatchPhase,
    items: Seq<StagedView>,
    fresh: Seq<bool>,
    i: int,
    ev: BatchEvent,
) -> (BatchPhase, Seq<bool>, int, BatchStep) {
    match (phase, ev) {
        (BatchPhase::AwaitLookup, BatchEvent::Found(Ok(present))) => {
            let f = fresh.push(is_fresh(items, fresh, i, present));
            if i + 1 < items.len() {
                (BatchPhase::AwaitLookup, f, i + 1, BatchStep::Find(items[i + 1].id))
            } else {
                let (p, j, a) = batch_after_lookups(items, f);
                (p, f, j, a)
            }
        },
        (BatchPhase::AwaitLookup, BatchEvent::Found(Err(_))) => (
            BatchPhase::Done,
            fresh,
            i,
            BatchStep::Finish(Err(BlobError::Internal)),
        ),
        (BatchPhase::AwaitInsert, BatchEvent::Inserted(Ok(()))) => {
            let (p, j, a) = batch_put_from(items, fresh, 0);
            (p, fresh, j, a)
        },
        (BatchPhase::AwaitInsert, BatchEvent::Inserted(Err(e))) => (
            if e == StoreFailure::DuplicateKey {
                BatchPhase::AwaitRestart
            } else {
                BatchPhase::AwaitRollback(store_error(e))
            },
            fresh,
            i,
            BatchStep::Rollback,
        ),
        (BatchPhase::AwaitPut, BatchEvent::Put(Ok(()))) => {
            let (p, j, a) = batch_put_from(items, fresh, i + 1);
            (p, fresh, j, a)
        },
        (BatchPhase::AwaitPut, BatchEvent::Put(Err(r))) => (
            BatchPhase::AwaitRollback(BlobError::DependencyFailure(r)),
            fresh,
            i,
            BatchStep::Rollback,
        ),
        (BatchPhase::AwaitCommit, BatchEvent::Committed(Ok(()))) => (
            BatchPhase::Done,
            fresh,
            i,
            BatchStep::Finish(Ok(batch_ids(items))),
        ),
        (BatchPhase::AwaitCommit, BatchEvent::Committed(Err(e))) => (
            BatchPhase::Done,
            fresh,
            i,
            BatchStep::Finish(Err(store_error(e))),
        ),
        (BatchPhase::AwaitRollback(e), BatchEvent::RolledBack) => (
            BatchPhase::Done,
            fresh,
            i,
            BatchStep::Finish(Err(e)),
        ),
        (BatchPhase::AwaitRestart, BatchEvent::RolledBack) => (
            BatchPhase::AwaitLookup,
            Seq::empty(),
            0,
            BatchStep::Find(items[0].id),
        ),
        _ => {
            let (p, j, a) = batch_unexpected(phase, i);
            (p, fresh, j, a)
        },
    }
}

/// No two items marked to be written share a digest: each distinct content
/// is written at most once per batch.
pub open spec fn distinct_writes(items: Seq<StagedView>, fresh: Seq<bool>) -> bool {
    forall|j: int, k: int|
        0 <= j < k < fresh.len() && #[trigger] fresh[j] && #[trigger] fresh[k] ==> items[j].id
            != items[k].id
}

pub open spec fn staged_views(items: Seq<StagedUpload>) -> Seq<StagedView> {
    items.map_values(|s: StagedUpload| s@)
}

/// A batch of staged uploads on its way into both stores.
pub struct BatchSession {
    pub items: Vec<StagedUpload>,
    pub fresh: Vec<bool>,
    pub index: usize,
    pub phase: BatchPhase,
}

impl BatchSession {
    /// Lookups cover a prefix of the items; once they are over, and until the
    /// batch is done, every item is marked.
    pub open spec fn wf(&self) -> bool {
        &&& self.index <= self.items@.len()
        &&& self.fresh@.len() <= self.items@.len()
        &&& self.phase == BatchPhase::AwaitLookup ==> self.index < self.items@.len()
            && self.fresh@.len() == self.index
        &&& (self.phase != BatchPhase::AwaitLookup && self.phase != BatchPhase::Done)
            ==> self.fresh@.len() == self.items@.len()
        &&& self.phase == BatchPhase::AwaitPut ==> self.index < self.items@.len()
        &&& self.phase != BatchPhase::Done ==> 0 < self.items@.len()
    }

    /// Whether the session is in a state its own steps can reach.
    pub fn is_well_formed(&self) -> (r: bool)
        ensures
            r == self.wf(),
    {
        let n = self.items.len();
        let lookup = match self.phase {
            BatchPhase::AwaitLookup => true,
            _ => false,
        };
        let done = match self.phase {
            BatchPhase::Done => true,
            _ => false,
        };
        let put = match self.phase {
            BatchPhase::AwaitPut => true,
            _ => false,
        };
        self.index <= n && self.fresh.len() <= n && (!lookup || (self.index < n && self.fresh.len()
            == self.index)) && (lookup || done || self.fresh.len() == n) && (!put || self.index < n) && (done || 0 < n)
    }

    /// Starts a batch: the first action looks up the first item. An empty
    /// batch finishes at once with no ids.
    pub fn start(items: Vec<StagedUpload>) -> (r: (BatchSession, BatchAction))
        ensures
            staged_views(r.0.items@) == staged_views(items@),
            r.0.wf(),
            distinct_writes(staged_views(r.0.items@), r.0.fresh@),
            items@.len() > 0 ==> r.0.phase == BatchPhase::AwaitLookup && r.0.index == 0
                && r.0.fresh@.len() == 0 && r.1@ == BatchStep::Find(items@[0]@.id),
            items@.len() == 0 ==> r.0.phase == BatchPhase::Done && r.1@ == BatchStep::Finish(
                Ok(Seq::empty()),
            ),
    {
        if items.len() == 0 {
            let ids: Vec<String> = Vec::new();
            assert(ids@.map_values(|s: String| s@) =~= Seq::<Seq<char>>::empty());
            (
                BatchSession { items, fresh: Vec::new(), index: 0, phase: BatchPhase::Done },
                BatchAction::Finish(Ok(ids)),
            )
        } else {
            let first = items[0].id.clone();
            (
                BatchSession { items, fresh: Vec::new(), index: 0, phase: BatchPhase::AwaitLookup },
                BatchAction::FindRecord(first),
            )
        }
    }
}

/// The index of the first item at or after `from` marked to be written.
fn find_next_fresh(fresh: &Vec<bool>, from: usize) -> (r: usize)
    requires
        from <= fresh@.len(),
    ensures
        r == next_fresh(fresh@, from as int),
        from <= r <= fresh@.len(),
{
    let mut j = from;
    while j < fresh.len()
        invariant
            from <= j <= fresh@.len(),
            next_fresh(fresh@, from as int) == next_fresh(fresh@, j as int),
        decreases fresh@.len() - j,
    {
        if fresh[j] {
            return j;
        }
        j = j + 1;
    }
    j
}

/// The ids of all items, in order.
fn collect_ids(items: &Vec<StagedUpload>) -> (r: Vec<String>)
    ensures
        r@.map_values(|s: String| s@) == batch_ids(staged_views(items@)),
{
    let mut ids: Vec<String> = Vec::new();
    let mut i: usize = 0;
    while i < items.len()
        invariant
            i <= items@.len(),
            ids@.len() == i,
            forall|k: int| 0 <= k < i ==> (#[trigger] ids@[k])@ == items@[k].id@,
        decreases items@.len() - i,
    {
        ids.push(items[i].id.clone());
        i = i + 1;
    }
    assert(ids@.map_values(|s: String| s@) =~= batch_ids(staged_views(items@)));
    ids
}

/// The records of the items marked to be written.
fn collect_fresh_records(items: &Vec<StagedUpload>, fresh: &Vec<bool>) -> (r: Vec<NewRecord>)
    requires
        fresh@.len() == items@.len(),
    ensures
        r@.map_values(|x: NewRecord| new_record_view(x)) == fresh_records(
            staged_views(items@),
            fresh@,
            items@.len() as int,
        ),
{
    let mut out: Vec<NewRecord> = Vec::new();
    let mut i: usize = 0;
    while i < items.len()
        invariant
            i <= items@.len(),
            fresh@.len() == items@.len(),
            out@.map_values(|x: NewRecord| new_record_view(x)) == fresh_records(
                staged_views(items@),
                fresh@,
                i as int,
            ),
        decreases items@.len() - i,
    {
        if fresh[i] {
            let rec = NewRecord {
                id: items[i].id.clone(),
                file_name: items[i].file_name.clone(),
                storage_key: items[i].storage_key.clone(),
            };
            out.push(rec);
        }
        i = i + 1;
        assert(out@.map_values(|x: NewRecord| new_record_view(x)) =~= fresh_records(
            staged_views(items@),
            fresh@,
            i as int,
        ));
    }
    out
}

/// Whether an earlier item marked to be written has the digest of item `i`.
fn written_earlier(items: &Vec<StagedUpload>, fresh: &Vec<bool>, i: usize) -> (r: bool)
    requires
        i < items@.len(),
        fresh@.len() == i,
    ensures
        r == exists|j: int| 0 <= j < i && fresh@[j] && items@[j]@.id == items@[i as int]@.id,
{
    let mut j: usize = 0;
    while j < i
        invariant
            j <= i,
            i < items@.len(),
            fresh@.len() == i,
            forall|k: int| 0 <= k < j ==> !(fresh@[k] && #[trigger] items@[k]@.id == items@[i as int]@.id),
        decreases i - j,
    {
        if fresh[j] && items[j].id == items[i].id {
            return true;
        }
        j = j + 1;
    }
    false
}

impl BatchSession {
    /// Puts the next item marked to be written, at or after `from`, or commits.
    fn put_from(&mut self, from: usize) -> (r: BatchAction)
        requires
            0 < old(self).items@.len(),
            old(self).fresh@.len() == old(self).items@.len(),
            from <= old(self).items@.len(),
        ensures
            final(self).items == old(self).items,
            final(self).fresh == old(self).fresh,
            final(self).wf(),
            (final(self).phase, final(self).index as int, r@) == batch_put_from(
                staged_views(old(self).items@),
                old(self).fresh@,
                from as int,
            ),
    {
        let j = find_next_fresh(&self.fresh, from);
        self.index = j;
        if j < self.fresh.len() {
            self.phase = BatchPhase::AwaitPut;
            BatchAction::PutObject {
                key: self.items[j].storage_key.clone(),
                content_type: self.items[j].content_type.clone(),
                data: self.items[j].data.clone(),
            }
        } else {
            self.phase = BatchPhase::AwaitCommit;
            BatchAction::Commit
        }
    }

    fn unexpected(&mut self) -> (r: BatchAction)
        requires
            old(self).wf(),
        ensures
            final(self).items == old(self).items,
            final(self).fresh == old(self).fresh,
            (final(self).phase, final(self).index as int, r@) == batch_unexpected(
                old(self).phase,
                old(self).index as int,
            ),
            final(self).wf(),
    {
        match self.phase {
            BatchPhase::AwaitLookup | BatchPhase::Done => {
                self.phase = BatchPhase::Done;
                BatchAction::Finish(Err(BlobError::Internal))
            },
            BatchPhase::AwaitRollback(_) | BatchPhase::AwaitRestart => BatchAction::Rollback,
            _ => {
                self.phase = BatchPhase::AwaitRollback(BlobError::Internal);
                BatchAction::Rollback
            },
        }
    }

    /// Takes what came of the last action and returns the next one.
    pub fn step(&mut self, ev: BatchEvent) -> (r: BatchAction)
        requires
            old(self).wf(),
        ensures
            final(self).items == old(self).items,
            (final(self).phase, final(self).fresh@, final(self).index as int, r@) == batch_next(
                old(self).phase,
                staged_views(old(self).items@),
                old(self).fresh@,
                old(self).index as int,
                ev,
            ),
            final(self).wf(),
            distinct_writes(staged_views(old(self).items@), old(self).fresh@) ==> distinct_writes(
                staged_views(final(self).items@),
                final(self).fresh@,
            ),
    {
        let ghost items = staged_views(self.items@);
        let i = self.index;
        let n = self.items.len();
        match (self.phase, ev) {
            (BatchPhase::AwaitLookup, BatchEvent::Found(Ok(present))) => {
                assert(i < n);
                let earlier = written_earlier(&self.items, &self.fresh, i);
                self.fresh.push(!present && !earlier);
                proof {
                    assert(is_fresh(items, old(self).fresh@, i as int, present) == (!present
                        && !earlier)) by {
                        if earlier {
                            let j = choose|j: int|
                                0 <= j < i && old(self).fresh@[j] && self.items@[j]@.id
                                    == self.items@[i as int]@.id;
                            assert(items[j].id == items[i as int].id);
                        }
                        if exists|j: int|
                            0 <= j < i && j < old(self).fresh@.len() && old(self).fresh@[j]
                                && items[j].id == items[i as int].id {
                            let j = choose|j: int|
                                0 <= j < i && j < old(self).fresh@.len() && old(self).fresh@[j]
                                    && items[j].id == items[i as int].id;
                            assert(self.items@[j]@.id == items[j].id);
                        }
                    }
                }
                if i + 1 < self.items.len() {
                    self.index = i + 1;
                    BatchAction::FindRecord(self.items[i + 1].id.clone())
                } else {
                    self.index = self.items.len();
                    let first = find_next_fresh(&self.fresh, 0);
                    if first < self.fresh.len() {
                        self.phase = BatchPhase::AwaitInsert;
                        BatchAction::InsertRecords(collect_fresh_records(&self.items, &self.fresh))
                    } else {
                        self.phase = BatchPhase::Done;
                        BatchAction::Finish(Ok(collect_ids(&self.items)))
                    }
                }
            },
            (BatchPhase::AwaitLookup, BatchEvent::Found(Err(_))) => {
                self.phase = BatchPhase::Done;
                BatchAction::Finish(Err(BlobError::Internal))
            },
            (BatchPhase::AwaitInsert, BatchEvent::Inserted(Ok(()))) => self.put_from(0),
            (BatchPhase::AwaitInsert, BatchEvent::Inserted(Err(e))) => {
                self.phase = match e {
                    StoreFailure::DuplicateKey => BatchPhase::AwaitRestart,
                    _ => BatchPhase::AwaitRollback(store_error_of(e)),
                };
                BatchAction::Rollback
            },
            (BatchPhase::AwaitPut, BatchEvent::Put(Ok(()))) => {
                assert(i < n);
                self.put_from(i + 1)
            },
            (BatchPhase::AwaitPut, BatchEvent::Put(Err(r))) => {
                self.phase = BatchPhase::AwaitRollback(BlobError::DependencyFailure(r));
                BatchAction::Rollback
            },
            (BatchPhase::AwaitCommit, BatchEvent::Committed(Ok(()))) => {
                self.phase = BatchPhase::Done;
                BatchAction::Finish(Ok(collect_ids(&self.items)))
            },
            (BatchPhase::AwaitCommit, BatchEvent::Committed(Err(e))) => {
                self.phase = BatchPhase::Done;
                BatchAction::Finish(Err(store_error_of(e)))
            },
            (BatchPhase::AwaitRollback(e), BatchEvent::RolledBack) => {
                self.phase = BatchPhase::Done;
                BatchAction::Finish(Err(e))
            },
            (BatchPhase::AwaitRestart, BatchEvent::RolledBack) => {
                self.phase = BatchPhase::AwaitLookup;
                self.fresh = Vec::new();
                self.index = 0;
                BatchAction::FindRecord(self.items[0].id.clone())
            },
            _ => self.unexpected(),
        }
    }
}

} // verus!
