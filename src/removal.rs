//! Removing blobs: the owner-initiated delete, and the scheduled sweep that
//! reclaims records no owner refers to.
use vstd::prelude::*;

use crate::create::{store_error, store_error_of};
use crate::error::{BlobError, RemoteFailure, StoreFailure};
use crate::records::{BlobRecord, BlobRecordView, record_views};

verus! {

/// What the caller of a delete is asked to do next.
#[derive(Debug)]
pub enum DeleteAction {
    /// Load the blob record with this id.
    LoadRecord(String),
    /// Delete the blob record with this id, committed on its own.
    DeleteRecord(String),
    /// Delete the object stored under this key.
    DeleteObject(String),
    Finish(Result<String, BlobError>),
}

pub enum DeleteStep {
    Load(Seq<char>),
    DeleteRecord(Seq<char>),
    DeleteObject(Seq<char>),
    Finish(Result<Seq<char>, BlobError>),
}

impl View for DeleteAction {
    type V = DeleteStep;

    open spec fn view(&self) -> DeleteStep {
        match self {
            DeleteAction::LoadRecord(id) => DeleteStep::Load(id@),
            DeleteAction::DeleteRecord(id) => DeleteStep::DeleteRecord(id@),
            DeleteAction::DeleteObject(k) => DeleteStep::DeleteObject(k@),
            DeleteAction::Finish(r) => DeleteStep::Finish(
                match r {
                    Ok(id) => Ok(id@),
                    Err(e) => Err(*e),
                },
            ),
        }
    }
}

/// What came of the last delete action.
#[derive(Debug)]
pub enum DeleteEvent {
    /// The storage key of the loaded record.
    Loaded(Result<String, StoreFailure>),
    RecordDeleted(Result<(), StoreFailure>),
    ObjectDeleted(Result<(), RemoteFailure>),
}

#[derive(Clone, Copy, Debug)]
pub enum DeletePhase {
    AwaitLoad,
    AwaitRecordDelete,
    AwaitObjectDelete,
    Done,
}

/// The delete protocol, over the id, the key once loaded, and the event.
/// The metadata row goes first; a failed object delete is reported, with the
/// row already gone.
pub open spec fn delete_next(phase: DeletePhase, id: Seq<char>, key: Seq<char>, ev: DeleteEvent) -> (
    DeletePhase,
    Seq<char>,
    DeleteStep,
) {
    match (phase, ev) {
        (DeletePhase::AwaitLoad, DeleteEvent::Loaded(Ok(k))) => (
            DeletePhase::AwaitRecordDelete,
            k@,
            DeleteStep::DeleteRecord(id),
        ),
        (DeletePhase::AwaitLoad, DeleteEvent::Loaded(Err(e))) => (
            DeletePhase::Done,
            key,
            DeleteStep::Finish(Err(store_error(e))),
        ),
        (DeletePhase::AwaitRecordDelete, DeleteEvent::RecordDeleted(Ok(()))) => (
            DeletePhase::AwaitObjectDelete,
            key,
            DeleteStep::DeleteObject(key),
        ),
        (DeletePhase::AwaitRecordDelete, DeleteEvent::RecordDeleted(Err(e))) => (
            DeletePhase::Done,
            key,
            DeleteStep::Finish(Err(store_error(e))),
        ),
        (DeletePhase::AwaitObjectDelete, DeleteEvent::ObjectDeleted(Ok(()))) => (
            DeletePhase::Done,
            key,
            DeleteStep::Finish(Ok(id)),
        ),
        (DeletePhase::AwaitObjectDelete, DeleteEvent::ObjectDeleted(Err(r))) => (
            DeletePhase::Done,
            key,
            DeleteStep::Finish(Err(BlobError::DependencyFailure(r))),
        ),
        _ => (DeletePhase::Done, key, DeleteStep::Finish(Err(BlobError::Internal))),
    }
}

/// One owner-initiated delete of a blob.
pub struct DeleteSession {
    pub id: String,
    pub storage_key: String,
    pub phase: DeletePhase,
}

impl DeleteSession {
    /// Starts a delete: the record is loaded first.
    pub fn start(id: String) -> (r: (DeleteSession, DeleteAction))
        ensures
            r.0.id@ == id@,
            r.0.phase == DeletePhase::AwaitLoad,
            r.1@ == DeleteStep::Load(id@),
    {
        let first = DeleteAction::LoadRecord(id.clone());
        (DeleteSession { id, storage_key: String::new(), phase: DeletePhase::AwaitLoad }, first)
    }

    pub fn step(&mut self, ev: DeleteEvent) -> (r: DeleteAction)
        ensures
            final(self).id@ == old(self).id@,
            (final(self).phase, final(self).storage_key@, r@) == delete_next(
                old(self).phase,
                old(self).id@,
                old(self).storage_key@,
                ev,
            ),
    {
        match (self.phase, ev) {
            (DeletePhase::AwaitLoad, DeleteEvent::Loaded(Ok(k))) => {
                self.storage_key = k;
                self.phase = DeletePhase::AwaitRecordDelete;
                DeleteAction::DeleteRecord(self.id.clone())
            },
            (DeletePhase::AwaitLoad, DeleteEvent::Loaded(Err(e))) => {
                self.phase = DeletePhase::Done;
                DeleteAction::Finish(Err(store_error_of(e)))
            },
            (DeletePhase::AwaitRecordDelete, DeleteEvent::RecordDeleted(Ok(()))) => {
                self.phase = DeletePhase::AwaitObjectDelete;
                DeleteAction::DeleteObject(self.storage_key.clone())
            },
            (DeletePhase::AwaitRecordDelete, DeleteEvent::RecordDeleted(Err(e))) => {
                self.phase = DeletePhase::Done;
                DeleteAction::Finish(Err(store_error_of(e)))
            },
            (DeletePhase::AwaitObjectDelete, DeleteEvent::ObjectDeleted(Ok(()))) => {
                self.phase = DeletePhase::Done;
                DeleteAction::Finish(Ok(self.id.clone()))
            },
            (DeletePhase::AwaitObjectDelete, DeleteEvent::ObjectDeleted(Err(r))) => {
                self.phase = DeletePhase::Done;
                DeleteAction::Finish(Err(BlobError::DependencyFailure(r)))
            },
            _ => {
                self.phase = DeletePhase::Done;
                DeleteAction::Finish(Err(BlobError::Internal))
            },
        }
    }
}

/// What the sweep asks for next. Each orphan is removed inside a metadata
/// transaction of its own, opened by its `DeleteRecord`.
#[derive(Debug)]
pub enum SweepAction {
    DeleteRecord(String),
    DeleteObject(String),
    Commit,
    Rollback,
    Finish,
}

pub enum SweepStep {
    DeleteRecord(Seq<char>),
    DeleteObject(Seq<char>),
    Commit,
    Rollback,
    Finish,
}

impl View for SweepAction {
    type V = SweepStep;

    open spec fn view(&self) -> SweepStep {
        match self {
            SweepAction::DeleteRecord(id) => SweepStep::DeleteRecord(id@),
            SweepAction::DeleteObject(k) => SweepStep::DeleteObject(k@),
            SweepAction::Commit => SweepStep::Commit,
            SweepAction::Rollback => SweepStep::Rollback,
            SweepAction::Finish => SweepStep::Finish,
        }
    }
}

#[derive(Clone, Copy, Debug)]
pub enum SweepEvent {
    RecordDeleted(Result<(), StoreFailure>),
    ObjectDeleted(Result<(), RemoteFailure>),
    Committed(Result<(), StoreFailure>),
    RolledBack,
}

#[derive(Clone, Copy, Debug)]
pub enum SweepPhase {
    AwaitRecordDelete,
    AwaitObjectDelete,
    AwaitCommit,
    AwaitRollback,
    Done,
}

/// Moving on to orphan `i`, or finishing after the last.
pub open spec fn sweep_begin(orphans: Seq<BlobRecordView>, i: int) -> (SweepPhase, int, SweepStep) {
    if 0 <= i < orphans.len() {
        (SweepPhase::AwaitRecordDelete, i, SweepStep::DeleteRecord(orphans[i].id))
    } else {
        (SweepPhase::Done, i, SweepStep::Finish)
    }
}

/// The sweep protocol: a failure on one orphan rolls its transaction back and
/// the sweep goes on with the next.
pub open spec fn sweep_next(phase: SweepPhase, orphans: Seq<BlobRecordView>, i: int, ev: SweepEvent) -> (
    SweepPhase,
    int,
    SweepStep,
) {
    match (phase, ev) {
        (SweepPhase::AwaitRecordDelete, SweepEvent::RecordDeleted(Ok(()))) => (
            SweepPhase::AwaitObjectDelete,
            i,
            SweepStep::DeleteObject(orphans[i].storage_key),
        ),
        (SweepPhase::AwaitObjectDelete, SweepEvent::ObjectDeleted(Ok(()))) => (
            SweepPhase::AwaitCommit,
            i,
            SweepStep::Commit,
        ),
        (SweepPhase::AwaitCommit, SweepEvent::Committed(_)) => sweep_begin(orphans, i + 1),
        (SweepPhase::AwaitRollback, SweepEvent::RolledBack) => sweep_begin(orphans, i + 1),
        (SweepPhase::Done, _) => (SweepPhase::Done, i, SweepStep::Finish),
        _ => (SweepPhase::AwaitRollback, i, SweepStep::Rollback),
    }
}

/// A sweep over the orphans selected at its start.
pub struct SweepSession {
    pub orphans: Vec<BlobRecord>,
    pub index: usize,
    pub phase: SweepPhase,
}

impl SweepSession {
    /// While work is left, the index names an orphan.
    pub open spec fn wf(&self) -> bool {
        self.phase != SweepPhase::Done ==> self.index < self.orphans@.len()
    }

    /// Whether the session is in a state its own steps can reach.
    pub fn is_well_formed(&self) -> (r: bool)
        ensures
            r == self.wf(),
    {
        match self.phase {
            SweepPhase::Done => true,
            _ => self.index < self.orphans.len(),
        }
    }

    pub fn start(orphans: Vec<BlobRecord>) -> (r: (SweepSession, SweepAction))
        ensures
            r.0.wf(),
            record_views(r.0.orphans@) == record_views(orphans@),
            (r.0.phase, r.0.index as int, r.1@) == sweep_begin(record_views(orphans@), 0),
    {
        if orphans.len() == 0 {
            (SweepSession { orphans, index: 0, phase: SweepPhase::Done }, SweepAction::Finish)
        } else {
            let first = orphans[0].id.clone();
            (
                SweepSession { orphans, index: 0, phase: SweepPhase::AwaitRecordDelete },
                SweepAction::DeleteRecord(first),
            )
        }
    }

    fn begin(&mut self, i: usize) -> (r: SweepAction)
        requires
            i <= old(self).orphans@.len(),
        ensures
            final(self).wf(),
            final(self).orphans == old(self).orphans,
            (final(self).phase, final(self).index as int, r@) == sweep_begin(
                record_views(old(self).orphans@),
                i as int,
            ),
    {
        self.index = i;
        if i < self.orphans.len() {
            self.phase = SweepPhase::AwaitRecordDelete;
            SweepAction::DeleteRecord(self.orphans[i].id.clone())
        } else {
            self.phase = SweepPhase::Done;
            SweepAction::Finish
        }
    }

    pub fn step(&mut self, ev: SweepEvent) -> (r: SweepAction)
        requires
            old(self).wf(),
        ensures
            final(self).wf(),
            final(self).orphans == old(self).orphans,
            (final(self).phase, final(self).index as int, r@) == sweep_next(
                old(self).phase,
                record_views(old(self).orphans@),
                old(self).index as int,
                ev,
            ),
    {
        let i = self.index;
        let n = self.orphans.len();
        match (self.phase, ev) {
            (SweepPhase::AwaitRecordDelete, SweepEvent::RecordDeleted(Ok(()))) => {
                self.phase = SweepPhase::AwaitObjectDelete;
                SweepAction::DeleteObject(self.orphans[i].storage_key.clone())
            },
            (SweepPhase::AwaitObjectDelete, SweepEvent::ObjectDeleted(Ok(()))) => {
                self.phase = SweepPhase::AwaitCommit;
                SweepAction::Commit
            },
            (SweepPhase::AwaitCommit, SweepEvent::Committed(_)) => {
                assert(i < n);
                self.begin(i + 1)
            },
            (SweepPhase::AwaitRollback, SweepEvent::RolledBack) => {
                assert(i < n);
                self.begin(i + 1)
            },
            (SweepPhase::Done, _) => SweepAction::Finish,
            _ => {
                self.phase = SweepPhase::AwaitRollback;
                SweepAction::Rollback
            },
        }
    }
}

/// Keeps sweeps from overlapping: a sweep that is due while another runs
/// is skipped.
#[derive(Debug)]
pub struct SweepGuard {
    pub running: bool,
}

impl SweepGuard {
    pub fn new() -> (r: SweepGuard)
        ensures
            !r.running,
    {
        SweepGuard { running: false }
    }

    /// Claims the right to sweep; granted only while no sweep runs.
    pub fn try_begin(&mut self) -> (r: bool)
        ensures
            r == !old(self).running,
            final(self).running,
    {
        if self.running {
            false
        } else {
            self.running = true;
            true
        }
    }

    /// Gives the right to sweep back.
    pub fn finish(&mut self)
        ensures
            !final(self).running,
    {
        self.running = false;
    }
}

} // verus!
